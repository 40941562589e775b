//! The application's KWP2000 diagnostic server: entering sessions (the
//! reprogramming session hands over to the bootloader), switching the log
//! output, and starting the application's routines (clear EEPROM, toggle
//! the TCC solenoid).
use vstd::prelude::*;
use crate::kwp::{KwpService, KwpSession, KwpNrc, kwp_service_of, kwp_session_of, kwp_nrc_byte, service_of_byte, session_of_byte};
use crate::defmt_output::{DefmtTarget, set_defmt_log_mode};
use crate::boot::{BootloaderRamInfo, BootAction, boot_spec, DEFAULT_ST_MIN, DEFAULT_BS};

verus! {

/// Work the server does after its reply.
#[derive(Clone, Copy, PartialEq, Eq, Structural)]
pub enum PendingOp {
    /// Nothing.
    Nothing,
    /// Reboot (into the bootloader).
    Reboot,
    /// Erase the EEPROM and set it up again (routine `0x30`).
    ClearEeprom,
    /// Toggle the torque converter clutch solenoid (routine `0x33`) with
    /// the routine's two argument bytes, type and enable.
    ToggleTccSol { ty: u8, en: u8 },
}

/// Routine identifier of "clear EEPROM".
pub const RID_CLEAR_EEPROM: u8 = 0x30;
/// Routine identifier of "toggle TCC solenoid".
pub const RID_TOGGLE_TCC_SOL: u8 = 0x33;

/// Where the log goes, and which log transports are set up.
#[derive(Clone, Copy, PartialEq, Eq, Structural)]
pub struct LogRouting {
    pub mode: DefmtTarget,
    pub can_present: bool,
    pub serial_present: bool,
}

/// The diagnostic server.
pub struct KwpServer {
    last_cmd_time: u64,
    pending_op: PendingOp,
    mode: KwpSession,
}

/// The state of a [`KwpServer`].
pub struct ServerModel {
    pub last_cmd_time: u64,
    pub pending_op: PendingOp,
    pub mode: KwpSession,
}

/// A negative reply.
pub open spec fn nrc_reply(sid: u8, nrc: KwpNrc) -> Seq<u8> {
    seq![0x7Fu8, sid, nrc.spec_byte()]
}

/// A positive reply: the service identifier plus `0x40`, then `data`.
pub open spec fn positive_reply(sid: u8, data: Seq<u8>) -> Seq<u8> {
    seq![(sid + 0x40) as u8] + data
}

/// The log target a byte selects.
pub open spec fn log_target_of(b: u8) -> Option<DefmtTarget> {
    if b == 0 {
        Some(DefmtTarget::Rtt)
    } else if b == 1 {
        Some(DefmtTarget::Can)
    } else if b == 2 {
        Some(DefmtTarget::Serial)
    } else {
        None
    }
}

/// Whether the log can go to `t`.
pub open spec fn target_available(log: LogRouting, t: DefmtTarget) -> bool {
    match t {
        DefmtTarget::Rtt => true,
        DefmtTarget::Can => log.can_present,
        DefmtTarget::Serial => log.serial_present,
    }
}

/// The outcome of the input/output control service (`0x30`): the reply
/// and the log routing after it.
pub open spec fn ioctl_spec(cmd: Seq<u8>, log: LogRouting) -> (Seq<u8>, LogRouting) {
    let sid = cmd[0];
    if cmd.len() < 3 {
        (nrc_reply(sid, KwpNrc::SubFunctionNotSupportedInvalidFormat), log)
    } else if cmd[1] != 0xF0 {
        (nrc_reply(sid, KwpNrc::SubFunctionNotSupportedInvalidFormat), log)
    } else if cmd[2] == 0x01 {
        (positive_reply(sid, seq![0xF0u8, 0x01u8, log.mode.spec_code()]), log)
    } else if cmd[2] == 0x07 || cmd[2] == 0x08 {
        if cmd.len() != 4 {
            (nrc_reply(sid, KwpNrc::SubFunctionNotSupportedInvalidFormat), log)
        } else {
            match log_target_of(cmd[3]) {
                None => (nrc_reply(sid, KwpNrc::SubFunctionNotSupportedInvalidFormat), log),
                Some(t) => if target_available(log, t) {
                    (positive_reply(sid, seq![0xF0u8, cmd[3]]), LogRouting { mode: t, ..log })
                } else {
                    (nrc_reply(sid, KwpNrc::ConditionsNotCorrectRequestSequenceError), log)
                },
            }
        }
    } else {
        (nrc_reply(sid, KwpNrc::RequestOutOfRange), log)
    }
}

/// The outcome of the session service (`0x10`): the reply, the session,
/// the pending work and the shared bootloader record after it. The
/// reprogramming session asks the bootloader to stay, with the ISO-TP
/// timing of a four byte request, and reboots.
pub open spec fn session_spec(cmd: Seq<u8>, m: ServerModel, bl: BootloaderRamInfo) -> (
    Seq<u8>,
    KwpSession,
    PendingOp,
    BootloaderRamInfo,
) {
    let sid = cmd[0];
    if cmd.len() != 2 && cmd.len() != 4 {
        (nrc_reply(sid, KwpNrc::SubFunctionNotSupportedInvalidFormat), m.mode, m.pending_op, bl)
    } else {
        match session_of_byte(cmd[1]) {
            Some(KwpSession::Reprogramming) => (
                positive_reply(sid, seq![cmd[1]]),
                m.mode,
                PendingOp::Reboot,
                BootloaderRamInfo {
                    diag_request_bootloader: (true, if cmd.len() == 4 { Some((cmd[3], cmd[2])) } else { None }),
                    ..bl
                },
            ),
            Some(KwpSession::Normal) => (positive_reply(sid, seq![cmd[1]]), KwpSession::Normal, m.pending_op, bl),
            Some(KwpSession::ExtendedDiagnostics) => (
                positive_reply(sid, seq![cmd[1]]),
                KwpSession::ExtendedDiagnostics,
                m.pending_op,
                bl,
            ),
            _ => (nrc_reply(sid, KwpNrc::SubFunctionNotSupportedInvalidFormat), m.mode, m.pending_op, bl),
        }
    }
}

/// The outcome of the start routine service (`0x31`): the reply and the
/// work pending after it. Routine `0x30` (clear EEPROM) takes no argument,
/// routine `0x33` (toggle TCC solenoid) takes two bytes; a wrong length is
/// refused as an invalid format, another routine as out of range. A pending
/// reboot is kept: the routine is then not run.
pub open spec fn routine_spec(cmd: Seq<u8>, pending: PendingOp) -> (Seq<u8>, PendingOp) {
    let sid = cmd[0];
    if cmd.len() < 2 {
        (nrc_reply(sid, KwpNrc::SubFunctionNotSupportedInvalidFormat), pending)
    } else if cmd[1] == RID_CLEAR_EEPROM || cmd[1] == RID_TOGGLE_TCC_SOL {
        let want = if cmd[1] == RID_CLEAR_EEPROM { 2int } else { 4int };
        if cmd.len() != want {
            (nrc_reply(sid, KwpNrc::SubFunctionNotSupportedInvalidFormat), pending)
        } else {
            let op = if cmd[1] == RID_CLEAR_EEPROM {
                PendingOp::ClearEeprom
            } else {
                PendingOp::ToggleTccSol { ty: cmd[2], en: cmd[3] }
            };
            (positive_reply(sid, seq![cmd[1]]), if pending == PendingOp::Reboot { pending } else { op })
        }
    } else {
        (nrc_reply(sid, KwpNrc::RequestOutOfRange), pending)
    }
}

impl KwpServer {
    /// The state.
    pub closed spec fn model(&self) -> ServerModel {
        ServerModel { last_cmd_time: self.last_cmd_time, pending_op: self.pending_op, mode: self.mode }
    }

    /// A server in the normal session with nothing pending.
    pub fn new() -> (r: Self)
        ensures
            r.model() == (ServerModel { last_cmd_time: 0, pending_op: PendingOp::Nothing, mode: KwpSession::Normal }),
    {
        KwpServer { last_cmd_time: 0, pending_op: PendingOp::Nothing, mode: KwpSession::Normal }
    }

    /// A negative reply to service `sid`.
    pub fn make_nrc(&self, sid: u8, nrc: KwpNrc) -> (r: Vec<u8>)
        ensures
            r@ == nrc_reply(sid, nrc),
    {
        let mut r: Vec<u8> = Vec::new();
        r.push(0x7F);
        r.push(sid);
        r.push(kwp_nrc_byte(nrc));
        assert(r@ =~= nrc_reply(sid, nrc));
        r
    }

    /// A positive reply to service `sid` with `data`.
    pub fn make_positive_reply(&self, sid: u8, data: &[u8]) -> (r: Vec<u8>)
        requires
            sid <= 0xBF,
        ensures
            r@ == positive_reply(sid, data@),
    {
        let mut r: Vec<u8> = Vec::new();
        r.push(sid + 0x40);
        let n = data.len();
        let mut i: usize = 0;
        while i < n
            invariant
                n == data@.len(),
                i <= n,
                r@ == seq![(sid + 0x40) as u8] + data@.subrange(0, i as int),
            decreases n - i,
        {
            r.push(data[i]);
            proof {
                assert(data@.subrange(0, i + 1) =~= data@.subrange(0, i as int).push(data@[i as int]));
            }
            i = i + 1;
        }
        proof {
            assert(data@.subrange(0, n as int) =~= data@);
        }
        r
    }

    /// Serves one request (of at least one byte) received at `now_ms` and
    /// returns the reply. The session, input/output control and start
    /// routine services are served; any other service is refused as not
    /// supported.
    pub fn process_cmd(&mut self, cmd: &[u8], now_ms: u64, log: &mut LogRouting, bl: &mut BootloaderRamInfo) -> (r: Vec<u8>)
        requires
            cmd@.len() >= 1,
        ensures
            final(self).model().last_cmd_time == now_ms,
            match service_of_byte(cmd@[0]) {
                Some(KwpService::StartDiagnosticSession) => {
                    let (reply, mode, pending, b) = session_spec(cmd@, old(self).model(), *old(bl));
                    &&& r@ == reply
                    &&& final(self).model().mode == mode
                    &&& final(self).model().pending_op == pending
                    &&& *final(bl) == b
                    &&& *final(log) == *old(log)
                },
                Some(KwpService::StartRoutineByLocalIdentifier) => {
                    let (reply, pending) = routine_spec(cmd@, old(self).model().pending_op);
                    &&& r@ == reply
                    &&& final(self).model().pending_op == pending
                    &&& final(self).model().mode == old(self).model().mode
                    &&& *final(log) == *old(log)
                    &&& *final(bl) == *old(bl)
                },
                Some(KwpService::InputOutputControlByLocalIdentifier) => {
                    let (reply, l) = ioctl_spec(cmd@, *old(log));
                    &&& r@ == reply
                    &&& *final(log) == l
                    &&& final(self).model().mode == old(self).model().mode
                    &&& final(self).model().pending_op == old(self).model().pending_op
                    &&& *final(bl) == *old(bl)
                },
                _ => {
                    &&& r@ == nrc_reply(cmd@[0], KwpNrc::ServiceNotSupported)
                    &&& *final(log) == *old(log)
                    &&& final(self).model().mode == old(self).model().mode
                    &&& final(self).model().pending_op == old(self).model().pending_op
                    &&& *final(bl) == *old(bl)
                },
            },
    {
        self.last_cmd_time = now_ms;
        match kwp_service_of(cmd[0]) {
            Some(KwpService::StartDiagnosticSession) => self.start_diag_session(cmd, bl),
            Some(KwpService::InputOutputControlByLocalIdentifier) => self.ioctl(cmd, log),
            Some(KwpService::StartRoutineByLocalIdentifier) => self.start_routine(cmd),
            _ => self.make_nrc(cmd[0], KwpNrc::ServiceNotSupported),
        }
    }

    fn start_routine(&mut self, cmd: &[u8]) -> (r: Vec<u8>)
        requires
            cmd@.len() >= 1,
            cmd@[0] == 0x31,
        ensures
            (r@, final(self).model().pending_op) == routine_spec(cmd@, old(self).model().pending_op),
            final(self).model().mode == old(self).model().mode,
            final(self).model().last_cmd_time == old(self).model().last_cmd_time,
    {
        let sid = cmd[0];
        if cmd.len() < 2 {
            return self.make_nrc(sid, KwpNrc::SubFunctionNotSupportedInvalidFormat);
        }
        let rid = cmd[1];
        let op = if rid == RID_CLEAR_EEPROM {
            if cmd.len() != 2 {
                return self.make_nrc(sid, KwpNrc::SubFunctionNotSupportedInvalidFormat);
            }
            PendingOp::ClearEeprom
        } else if rid == RID_TOGGLE_TCC_SOL {
            if cmd.len() != 4 {
                return self.make_nrc(sid, KwpNrc::SubFunctionNotSupportedInvalidFormat);
            }
            PendingOp::ToggleTccSol { ty: cmd[2], en: cmd[3] }
        } else {
            return self.make_nrc(sid, KwpNrc::RequestOutOfRange);
        };
        if self.pending_op != PendingOp::Reboot {
            self.pending_op = op;
        }
        let data = [rid];
        assert(data@ =~= seq![cmd@[1]]);
        self.make_positive_reply(sid, &data)
    }

    /// The routine asked for by the last request, to be run now, or
    /// `Nothing`; it is handed out once. A pending reboot is not a routine
    /// and stays.
    pub fn take_routine(&mut self) -> (r: PendingOp)
        ensures
            r == (match old(self).model().pending_op {
                PendingOp::Reboot => PendingOp::Nothing,
                op => op,
            }),
            final(self).model().pending_op == (match old(self).model().pending_op {
                PendingOp::Reboot => PendingOp::Reboot,
                _ => PendingOp::Nothing,
            }),
            final(self).model().mode == old(self).model().mode,
            final(self).model().last_cmd_time == old(self).model().last_cmd_time,
    {
        match self.pending_op {
            PendingOp::Reboot => PendingOp::Nothing,
            op => {
                self.pending_op = PendingOp::Nothing;
                op
            },
        }
    }

    fn ioctl(&self, cmd: &[u8], log: &mut LogRouting) -> (r: Vec<u8>)
        requires
            cmd@.len() >= 1,
            cmd@[0] == 0x30,
        ensures
            (r@, *final(log)) == ioctl_spec(cmd@, *old(log)),
    {
        let sid = cmd[0];
        if cmd.len() < 3 {
            return self.make_nrc(sid, KwpNrc::SubFunctionNotSupportedInvalidFormat);
        }
        if cmd[1] != 0xF0 {
            return self.make_nrc(sid, KwpNrc::SubFunctionNotSupportedInvalidFormat);
        }
        if cmd[2] == 0x01 {
            let data = [0xF0u8, 0x01u8, log.mode.code()];
            assert(data@ =~= seq![0xF0u8, 0x01u8, log.mode.spec_code()]);
            return self.make_positive_reply(sid, &data);
        }
        if cmd[2] == 0x07 || cmd[2] == 0x08 {
            if cmd.len() != 4 {
                return self.make_nrc(sid, KwpNrc::SubFunctionNotSupportedInvalidFormat);
            }
            let target = if cmd[3] == 0x00 {
                DefmtTarget::Rtt
            } else if cmd[3] == 0x01 {
                DefmtTarget::Can
            } else if cmd[3] == 0x02 {
                DefmtTarget::Serial
            } else {
                return self.make_nrc(sid, KwpNrc::SubFunctionNotSupportedInvalidFormat);
            };
            match set_defmt_log_mode(target, log.can_present, log.serial_present) {
                Err(_) => self.make_nrc(sid, KwpNrc::ConditionsNotCorrectRequestSequenceError),
                Ok(_) => {
                    log.mode = target;
                    let data = [0xF0u8, cmd[3]];
                    assert(data@ =~= seq![0xF0u8, cmd@[3]]);
                    self.make_positive_reply(sid, &data)
                },
            }
        } else {
            self.make_nrc(sid, KwpNrc::RequestOutOfRange)
        }
    }

    fn start_diag_session(&mut self, cmd: &[u8], bl: &mut BootloaderRamInfo) -> (r: Vec<u8>)
        requires
            cmd@.len() >= 1,
            cmd@[0] == 0x10,
        ensures
            final(self).model().last_cmd_time == old(self).model().last_cmd_time,
            ({
                let (reply, mode, pending, b) = session_spec(cmd@, old(self).model(), *old(bl));
                &&& r@ == reply
                &&& final(self).model().mode == mode
                &&& final(self).model().pending_op == pending
                &&& *final(bl) == b
            }),
    {
        let sid = cmd[0];
        if cmd.len() != 2 && cmd.len() != 4 {
            return self.make_nrc(sid, KwpNrc::SubFunctionNotSupportedInvalidFormat);
        }
        let data = [cmd[1]];
        assert(data@ =~= seq![cmd@[1]]);
        match kwp_session_of(cmd[1]) {
            Some(KwpSession::Reprogramming) => {
                let timing = if cmd.len() == 4 {
                    Some((cmd[3], cmd[2]))
                } else {
                    None
                };
                bl.diag_request_bootloader = (true, timing);
                self.pending_op = PendingOp::Reboot;
                self.make_positive_reply(sid, &data)
            },
            Some(KwpSession::Normal) => {
                self.mode = KwpSession::Normal;
                self.make_positive_reply(sid, &data)
            },
            Some(KwpSession::ExtendedDiagnostics) => {
                self.mode = KwpSession::ExtendedDiagnostics;
                self.make_positive_reply(sid, &data)
            },
            _ => self.make_nrc(sid, KwpNrc::SubFunctionNotSupportedInvalidFormat),
        }
    }

    /// Whether the server asks for a reboot (after a short delay).
    pub fn update(&self) -> (r: bool)
        ensures
            r == (self.model().pending_op == PendingOp::Reboot),
    {
        match self.pending_op {
            PendingOp::Reboot => true,
            _ => false,
        }
    }
}

/// A refused request changes nothing but its reply, and every reply
/// answers the service it was asked: a positive reply carries the service
/// identifier plus `0x40`, a negative one `0x7F` and the identifier.
pub proof fn lemma_reply_names_service(cmd: Seq<u8>, log: LogRouting, m: ServerModel, bl: BootloaderRamInfo)
    requires
        cmd.len() >= 1,
    ensures
        cmd[0] == 0x30 ==> {
            let (reply, l) = ioctl_spec(cmd, log);
            (reply[0] == 0x70 && reply.len() >= 2) || (reply == nrc_reply(0x30, KwpNrc::SubFunctionNotSupportedInvalidFormat)
                && l == log) || (reply == nrc_reply(0x30, KwpNrc::ConditionsNotCorrectRequestSequenceError) && l == log)
                || (reply == nrc_reply(0x30, KwpNrc::RequestOutOfRange) && l == log)
        },
        cmd[0] == 0x10 ==> {
            let (reply, mode, pending, b) = session_spec(cmd, m, bl);
            (reply == positive_reply(0x10, seq![cmd[1]])) || (reply == nrc_reply(0x10,
                KwpNrc::SubFunctionNotSupportedInvalidFormat) && mode == m.mode && pending == m.pending_op && b == bl)
        },
        cmd[0] == 0x31 ==> {
            let (reply, pending) = routine_spec(cmd, m.pending_op);
            (reply[0] == 0x71 && reply.len() == 2 && reply[1] == cmd[1]) || ((reply == nrc_reply(
                0x31,
                KwpNrc::SubFunctionNotSupportedInvalidFormat,
            ) || reply == nrc_reply(0x31, KwpNrc::RequestOutOfRange)) && pending == m.pending_op)
        },
{
}

/// After the application accepts the reprogramming session, the next
/// start (without the magic pin or a watchdog reset) stays in the
/// bootloader in the reprogramming session, with the ISO-TP timing of the
/// request (separation time from its fourth byte, block size from its
/// third) or the defaults.
pub proof fn lemma_reprogramming_handover(cmd: Seq<u8>, m: ServerModel, bl: BootloaderRamInfo, app_ok: bool)
    requires
        cmd.len() == 2 || cmd.len() == 4,
        cmd[0] == 0x10,
        cmd[1] == 0x85,
    ensures
        ({
            let (reply, mode, pending, b) = session_spec(cmd, m, bl);
            &&& reply == positive_reply(0x10, seq![0x85u8])
            &&& pending == PendingOp::Reboot
            &&& boot_spec(false, false, Some(b), app_ok) matches BootAction::StayInBootloader {
                reprogramming,
                st_min,
                bs,
                ..
            }
            &&& reprogramming
            &&& st_min == (if cmd.len() == 4 { cmd[3] } else { DEFAULT_ST_MIN })
            &&& bs == (if cmd.len() == 4 { cmd[2] } else { DEFAULT_BS })
        }),
{
}

} // verus!
