//! The TLE8242 solenoid driver: channel configuration, the SPI messages
//! that set it up and drive it, and how its replies are checked.
use vstd::prelude::*;
use crate::bitfield::set_field;
use crate::solenoids::{ma_of_reading, reading_to_ma};
use crate::tle_commands::{
    id_word, TleMsg, TleChannel, ControlMode, DiagnosticTimer, DividerM, ShortToBatThreshold,
    IcVersion, CtrlMethodFaultMaskCfg, MainPeriodSet, ControlVarsSet, DitherPeriodSet,
    AutoZeroTriggerRead, CurrentDitherAmpSet, PwmDutyCycle, AverageCurrentRead,
};

verus! {

/// Dither of a current controlled channel: step size and number of steps.
#[derive(Clone, Copy)]
pub struct DitherOpts {
    pub step_size: u16,
    pub steps: u8,
}

/// How a channel is driven.
#[derive(Clone, Copy)]
pub enum Mode {
    /// Direct PWM with the given period dividers.
    Pwm { divm: DividerM, divn: u16 },
    /// Current control with the given gains, period dividers and dither.
    ConstantCurrent { kp: u16, ki: u16, divm: DividerM, divn: u16, dither_opts: Option<DitherOpts> },
}

/// Why a current control mode could not be computed.
#[derive(Clone, Copy, PartialEq, Eq, Structural)]
pub enum ModeError {
    /// The natural frequency is invalid.
    InvalidWn,
    /// Kp out of range.
    InvalidKp,
    /// Ki out of range.
    InvalidKi,
    /// Dither step size out of range.
    DitherStepSizeOverflow,
    /// Too many dither steps.
    DitherStepOverflow,
    /// Dither amplitude or frequency is zero.
    InvalidDitherOpts,
}

impl Mode {
    /// The control mode bit of the mode.
    pub open spec fn spec_ctrl_mode(&self) -> ControlMode {
        match self {
            Mode::Pwm { .. } => ControlMode::Pwm,
            Mode::ConstantCurrent { .. } => ControlMode::CurrentControl,
        }
    }

    /// The period divider M.
    pub open spec fn spec_div_m(&self) -> DividerM {
        match self {
            Mode::Pwm { divm, .. } => *divm,
            Mode::ConstantCurrent { divm, .. } => *divm,
        }
    }

    /// The period divider N.
    pub open spec fn spec_div_n(&self) -> u16 {
        match self {
            Mode::Pwm { divn, .. } => *divn,
            Mode::ConstantCurrent { divn, .. } => *divn,
        }
    }

    /// The control mode bit of the mode.
    pub fn to_ctrl_mode(&self) -> (r: ControlMode)
        ensures
            r == self.spec_ctrl_mode(),
    {
        match self {
            Mode::Pwm { .. } => ControlMode::Pwm,
            Mode::ConstantCurrent { .. } => ControlMode::CurrentControl,
        }
    }

    /// The period divider M.
    pub fn div_m(&self) -> (r: DividerM)
        ensures
            r == self.spec_div_m(),
    {
        match self {
            Mode::Pwm { divm, .. } => *divm,
            Mode::ConstantCurrent { divm, .. } => *divm,
        }
    }

    /// The period divider N.
    pub fn div_n(&self) -> (r: u16)
        ensures
            r == self.spec_div_n(),
    {
        match self {
            Mode::Pwm { divn, .. } => *divn,
            Mode::ConstantCurrent { divn, .. } => *divn,
        }
    }
}

/// Settings of one channel.
#[derive(Clone, Copy)]
pub struct ChannelProps {
    pub mode: Mode,
    pub fault_enabled: bool,
    pub short_to_batt_threshold: ShortToBatThreshold,
    pub short_to_batt_retry_time: u8,
    pub pwm_offset: u8,
    pub sample_method: bool,
}

/// The settings fit the message fields they go into (divider N in 14
/// bits, gains in 12 bits, dither steps in 5 bits).
pub open spec fn props_fit(p: ChannelProps) -> bool {
    &&& p.mode.spec_div_n() < 16384
    &&& (p.mode matches Mode::ConstantCurrent { kp, ki, dither_opts, .. } ==> {
        &&& kp < 4096
        &&& ki < 4096
        &&& (dither_opts matches Some(d) ==> d.steps < 32)
    })
}

/// Configuration of the driver: the settings of each configured channel,
/// and the global fault settings.
#[derive(Clone, Copy)]
pub struct TleConfiguration {
    channel_settings: [Option<(TleChannel, ChannelProps)>; 8],
    fault_mask_reset: bool,
    fault_mask_enable: bool,
    diag_tmr: DiagnosticTimer,
}

impl TleConfiguration {
    /// The settings by channel number.
    pub closed spec fn settings(&self) -> Seq<Option<(TleChannel, ChannelProps)>> {
        self.channel_settings@
    }

    /// Reset fault mask setting.
    pub closed spec fn spec_fault_mask_reset(&self) -> bool {
        self.fault_mask_reset
    }

    /// Fault mask enable setting.
    pub closed spec fn spec_fault_mask_enable(&self) -> bool {
        self.fault_mask_enable
    }

    /// Diagnostic timer setting.
    pub closed spec fn spec_diag_tmr(&self) -> DiagnosticTimer {
        self.diag_tmr
    }

    /// Each entry is empty or holds the settings of the channel with its
    /// own number.
    pub open spec fn wf(&self) -> bool {
        &&& self.settings().len() == 8
        &&& forall|i: int| 0 <= i < 8 ==> (#[trigger] self.settings()[i] matches Some(e) ==> e.0.spec_raw() == i)
    }

    /// The settings of a channel, if it is configured.
    pub open spec fn props_of(&self, ch: TleChannel) -> Option<ChannelProps> {
        match self.settings()[ch.spec_raw() as int] {
            Some(e) => Some(e.1),
            None => None,
        }
    }

    /// Adds (or replaces) the settings of a channel.
    pub fn with_props(self, channel: TleChannel, props: ChannelProps) -> (r: Self)
        requires
            self.wf(),
        ensures
            r.wf(),
            r.settings() == self.settings().update(channel.spec_raw() as int, Some((channel, props))),
            r.spec_fault_mask_reset() == self.spec_fault_mask_reset(),
            r.spec_fault_mask_enable() == self.spec_fault_mask_enable(),
            r.spec_diag_tmr() == self.spec_diag_tmr(),
    {
        let mut s = self;
        let idx = channel.raw_value() as usize;
        s.channel_settings[idx] = Some((channel, props));
        proof {
            assert(s.channel_settings@ =~= self.channel_settings@.update(idx as int, Some((channel, props))));
        }
        s
    }
}

impl Default for TleConfiguration {
    /// No channel configured, fault masks off, the default diagnostic
    /// timer.
    fn default() -> (r: Self)
        ensures
            r.wf(),
            forall|i: int| 0 <= i < 8 ==> r.settings()[i] is None,
            !r.spec_fault_mask_reset(),
            !r.spec_fault_mask_enable(),
            r.spec_diag_tmr() == DiagnosticTimer::Div128nFault10_11,
    {
        TleConfiguration {
            channel_settings: [None; 8],
            fault_mask_reset: false,
            fault_mask_enable: false,
            diag_tmr: DiagnosticTimer::default(),
        }
    }
}

/// A write message word for the channel: identifier, write bit and
/// channel.
pub open spec fn chan_write_word(id: u32, ch: TleChannel) -> u32 {
    set_field(set_field(id_word(id), 31, 1, 1), 24, 3, ch.spec_raw())
}

/// The messages that set up one channel: the main period, the gains (and
/// dither period) of a current controlled channel, and the auto zero
/// trigger.
pub open spec fn channel_setup_words(ch: TleChannel, p: ChannelProps) -> Seq<u32> {
    let period = set_field(set_field(chan_write_word(8, ch), 14, 2, p.mode.spec_div_m().spec_raw()), 0, 14,
        p.mode.spec_div_n() as u32);
    let gains = match p.mode {
        Mode::ConstantCurrent { kp, ki, dither_opts, .. } => {
            let kpki = seq![set_field(set_field(chan_write_word(16, ch), 0, 12, ki as u32), 12, 12, kp as u32)];
            match dither_opts {
                Some(d) => kpki + seq![set_field(set_field(set_field(id_word(32), 24, 3, ch.spec_raw()), 31, 1, 1), 0, 5,
                    d.steps as u32)],
                None => kpki,
            }
        },
        Mode::Pwm { .. } => Seq::empty(),
    };
    seq![period] + gains + seq![chan_write_word(56, ch)]
}

/// The setup messages of the first `n` channel entries.
pub open spec fn setup_words(s: Seq<Option<(TleChannel, ChannelProps)>>, n: int) -> Seq<u32>
    decreases n,
{
    if n <= 0 {
        Seq::empty()
    } else {
        setup_words(s, n - 1) + match s[n - 1] {
            Some(e) => channel_setup_words(e.0, e.1),
            None => Seq::empty(),
        }
    }
}

/// The fault configuration word after the first `n` channel entries
/// (channel `c` has its fault enable and control mode bits at `7 - c`).
pub open spec fn fault_word(cfg: TleConfiguration, n: int) -> u32
    decreases n,
{
    if n <= 0 {
        set_field(set_field(set_field(set_field(id_word(1), 31, 1, 1), 4, 2, cfg.spec_diag_tmr().spec_raw()), 6, 1,
            cfg.spec_fault_mask_enable() as u32), 7, 1, cfg.spec_fault_mask_reset() as u32)
    } else {
        let w = fault_word(cfg, n - 1);
        match cfg.settings()[n - 1] {
            Some(e) => set_field(set_field(w, (8 + (7 - e.0.spec_raw())) as u32, 1, e.1.fault_enabled as u32),
                (16 + (7 - e.0.spec_raw())) as u32, 1, e.1.mode.spec_ctrl_mode().spec_raw()),
            None => w,
        }
    }
}

/// Every configured channel's settings fit their fields.
pub open spec fn config_fits(cfg: TleConfiguration) -> bool {
    forall|i: int| 0 <= i < 8 ==> (#[trigger] cfg.settings()[i] matches Some(e) ==> props_fit(e.1))
}

/// The messages sent to set the driver up: the version query, the setup
/// of each configured channel in channel order, and the fault
/// configuration.
pub open spec fn init_words(cfg: TleConfiguration) -> Seq<u32> {
    seq![id_word(0)] + setup_words(cfg.settings(), 8) + seq![fault_word(cfg, 8)]
}

/// The driver as the controller sees it: the configuration it was set up
/// with.
pub struct Tle8242 {
    config: TleConfiguration,
}

impl Tle8242 {
    /// The configuration in use.
    pub closed spec fn config(&self) -> TleConfiguration {
        self.config
    }

    /// A driver not set up yet.
    pub fn new() -> (r: Self)
        ensures
            r.config().wf(),
            forall|i: int| 0 <= i < 8 ==> r.config().settings()[i] is None,
    {
        Tle8242 { config: TleConfiguration::default() }
    }

    /// Sets the driver up with `settings`: returns the message words to
    /// send, in order, and keeps the configuration.
    pub fn init(&mut self, settings: TleConfiguration) -> (r: Vec<u32>)
        requires
            settings.wf(),
            config_fits(settings),
        ensures
            r@ == init_words(settings),
            final(self).config() == settings,
    {
        let mut out: Vec<u32> = Vec::new();
        let tle_ver = IcVersion::new_with_id();
        out.push(tle_ver.into_raw());
        let mut fault_msg = CtrlMethodFaultMaskCfg::new_with_id()
            .with_write(true)
            .with_diag_timer(settings.diag_tmr)
            .with_fme(settings.fault_mask_enable)
            .with_fmr(settings.fault_mask_reset);
        let mut i: usize = 0;
        while i < 8
            invariant
                i <= 8,
                settings.wf(),
                config_fits(settings),
                out@ == seq![id_word(0)] + setup_words(settings.settings(), i as int),
                fault_msg.raw() == fault_word(settings, i as int),
            decreases 8 - i,
        {
            match settings.channel_settings[i] {
                Some(entry) => {
                    let (tle_chan, channel) = entry;
                    assert(tle_chan.spec_raw() == i);
                    let idx = tle_chan.raw_value() as usize;
                    let mps = MainPeriodSet::new_with_id()
                        .with_write(true)
                        .with_channel_id(tle_chan)
                        .with_divider_m(channel.mode.div_m())
                        .with_divider_n(channel.mode.div_n());
                    out.push(mps.into_raw());
                    let ghost before_gains = out@;
                    match channel.mode {
                        Mode::ConstantCurrent { kp, ki, dither_opts, .. } => {
                            let kpki = ControlVarsSet::new_with_id()
                                .with_write(true)
                                .with_channel_id(tle_chan)
                                .with_ki(ki)
                                .with_kp(kp);
                            out.push(kpki.into_raw());
                            match dither_opts {
                                Some(d) => {
                                    let dp = DitherPeriodSet::new_with_id()
                                        .with_channel_id(tle_chan)
                                        .with_write(true)
                                        .with_number_of_steps(d.steps);
                                    out.push(dp.into_raw());
                                },
                                None => {},
                            }
                        },
                        Mode::Pwm { .. } => {},
                    }
                    let az = AutoZeroTriggerRead::new_with_id().with_write(true).with_channel_id(tle_chan);
                    out.push(az.into_raw());
                    fault_msg.set_fmx(7 - idx, channel.fault_enabled);
                    fault_msg.set_cmx(7 - idx, channel.mode.to_ctrl_mode());
                    proof {
                        assert(out@ =~= seq![id_word(0)] + setup_words(settings.settings(), i + 1));
                    }
                },
                None => {
                    proof {
                        assert(out@ =~= seq![id_word(0)] + setup_words(settings.settings(), i + 1));
                    }
                },
            }
            i = i + 1;
        }
        out.push(fault_msg.into_raw());
        self.config = settings;
        out
    }

    /// The message that sets the current of a current controlled channel
    /// (with its dither step size when it dithers); `None` for another
    /// channel.
    pub fn set_channel_current(&self, channel: TleChannel, setpoint_val: u16) -> (r: Option<CurrentDitherAmpSet>)
        requires
            self.config().wf(),
            (self.config().props_of(channel) matches Some(p) && p.mode is ConstantCurrent) ==> {
                &&& setpoint_val < 2048
                &&& (self.config().props_of(channel)->0.mode->dither_opts matches Some(d) ==> d.step_size < 2048)
            },
        ensures
            match self.config().props_of(channel) {
                Some(p) => match p.mode {
                    Mode::ConstantCurrent { dither_opts, .. } => {
                        let w = set_field(chan_write_word(24, channel), 0, 11, setpoint_val as u32);
                        r matches Some(m) && m.raw() == match dither_opts {
                            Some(d) => set_field(w, 11, 11, d.step_size as u32),
                            None => w,
                        }
                    },
                    Mode::Pwm { .. } => r is None,
                },
                None => r is None,
            },
    {
        let idx = channel.raw_value() as usize;
        match self.config.channel_settings[idx] {
            Some(entry) => {
                let props = entry.1;
                match props.mode {
                    Mode::ConstantCurrent { dither_opts, .. } => {
                        let mut req_msg = CurrentDitherAmpSet::new_with_id()
                            .with_write(true)
                            .with_channel_id(channel)
                            .with_current_setpoint(setpoint_val);
                        match dither_opts {
                            Some(d) => {
                                req_msg = req_msg.with_dither_step_size(d.step_size);
                            },
                            None => {},
                        }
                        Some(req_msg)
                    },
                    Mode::Pwm { .. } => None,
                }
            },
            None => None,
        }
    }

    /// The message that sets the duty of a direct PWM channel to
    /// `duty_num / duty_den` of its period (`32 * divn` steps, rounded
    /// down); `None` for another channel.
    pub fn set_channel_pwm(&self, channel: TleChannel, duty_num: u32, duty_den: u32) -> (r: Option<PwmDutyCycle>)
        requires
            self.config().wf(),
            0 < duty_den,
            duty_num <= duty_den,
            (self.config().props_of(channel) matches Some(p) && p.mode is Pwm) ==>
                ((duty_num * 32 * self.config().props_of(channel)->0.mode.spec_div_n()) as int / (duty_den as int)) < 524288,
        ensures
            match self.config().props_of(channel) {
                Some(p) => match p.mode {
                    Mode::Pwm { divn, .. } => r matches Some(m) && m.raw() == set_field(chan_write_word(64, channel), 0, 19,
                        ((duty_num * 32 * divn) as int / duty_den as int) as u32),
                    Mode::ConstantCurrent { .. } => r is None,
                },
                None => r is None,
            },
    {
        let idx = channel.raw_value() as usize;
        match self.config.channel_settings[idx] {
            Some(entry) => {
                let props = entry.1;
                match props.mode {
                    Mode::Pwm { divn, .. } => {
                        proof {
                            assert((duty_num as int) * 32 * (divn as int) <= 0xFFFF_FFFFint * 32 * 0xFFFF) by (nonlinear_arith)
                                requires
                                    duty_num <= 0xFFFF_FFFFu32,
                                    divn <= 0xFFFFu16,
                            ;
                        }
                        let steps = (duty_num as u64) * 32 * (divn as u64);
                        let duty = (steps / (duty_den as u64)) as u32;
                        Some(PwmDutyCycle::new_with_id().with_write(true).with_channel_id(channel).with_pwm(duty))
                    },
                    Mode::ConstantCurrent { .. } => None,
                }
            },
            None => None,
        }
    }

    /// The message that reads the average current of a channel.
    pub fn avg_current_request(channel: TleChannel) -> (r: AverageCurrentRead)
        ensures
            r.raw() == set_field(id_word(48), 24, 3, channel.spec_raw()),
    {
        AverageCurrentRead::new_with_id().with_channel_id(channel)
    }

    /// The average current of `channel`, in milliamps, from the reply to its
    /// average current request, when the reply marks its reading valid.
    pub fn avg_current_of(channel: TleChannel, reply: AverageCurrentRead) -> (r: Option<u32>)
        ensures
            r == (if crate::bitfield::get_field(reply.raw(), 20, 1) == 1 {
                Some(ma_of_reading(channel, crate::bitfield::get_field(reply.raw(), 0, 20)) as u32)
            } else {
                None
            }),
    {
        if reply.valid() {
            Some(reading_to_ma(channel, reply.avg()) as u32)
        } else {
            None
        }
    }
}

/// The big endian bytes of a message word, as they go over SPI.
pub open spec fn be32(v: u32) -> Seq<u8> {
    seq![((v >> 24) & 0xFF) as u8, ((v >> 16) & 0xFF) as u8, ((v >> 8) & 0xFF) as u8, (v & 0xFF) as u8]
}

/// The word of four big endian bytes.
pub open spec fn from_be32(b: Seq<u8>) -> u32 {
    ((b[0] as u32) << 24) | ((b[1] as u32) << 16) | ((b[2] as u32) << 8) | (b[3] as u32)
}

/// The bytes sent for a message.
pub fn spi_frame<M: TleMsg>(msg: &M) -> (r: [u8; 4])
    ensures
        r@ == be32(msg.spec_raw()),
{
    let v = msg.into_raw();
    let r = [((v >> 24) & 0xFF) as u8, ((v >> 16) & 0xFF) as u8, ((v >> 8) & 0xFF) as u8, (v & 0xFF) as u8];
    assert(r@ =~= be32(v));
    r
}

/// Reads the reply to a message: only a read message gets one, clocked
/// out by a second transfer; it is accepted when it carries the same
/// message identifier.
pub fn spi_reply<M: TleMsg>(msg: &M, reply: [u8; 4]) -> (r: Option<M>)
    ensures
        ({
            let w = from_be32(reply@);
            let accepted = msg.spec_raw() & crate::tle_commands::WRITE_MATCH_MASK == 0
                && msg.spec_raw() & crate::tle_commands::CMD_MATCH_MASK == w & crate::tle_commands::CMD_MATCH_MASK;
            match r {
                Some(m) => accepted && m.spec_raw() == w,
                None => !accepted,
            }
        }),
{
    if !msg.is_read() {
        return None;
    }
    let w = ((reply[0] as u32) << 24) | ((reply[1] as u32) << 16) | ((reply[2] as u32) << 8) | (reply[3] as u32);
    if msg.id_match(w) {
        Some(M::from_raw(w))
    } else {
        None
    }
}

} // verus!
