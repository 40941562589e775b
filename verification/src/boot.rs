//! Start-up decisions of the preloader and the bootloader, and the record
//! the application and the bootloader leave each other in RAM.
use vstd::prelude::*;
use crate::memory_map::BootloaderStayReason;
use crate::panic_info::AppPanicInfo;
use crate::section_info::SmartEepromInfo;

verus! {

/// The bootloader keeps itself active once the application was started
/// this many times without clearing the counter.
pub const MAX_RESET_COUNT: u8 = 5;

/// Initial stack pointer of a valid application (the end of RAM).
pub const RAM_START_ADDR: u32 = 0x20040000;

/// Default ISO-TP separation time of the bootloader's diagnostic link.
pub const DEFAULT_ST_MIN: u8 = 0x02;

/// Default ISO-TP block size of the bootloader's diagnostic link.
pub const DEFAULT_BS: u8 = 0x08;

/// Information for the bootloader about an application panic
/// (reserved).
pub struct KwpPanicInfo {}

/// The record the bootloader and the application share in RAM.
#[derive(Clone, Copy)]
pub struct BootloaderRamInfo {
    /// Counts application starts; the application clears it once it runs
    /// well. At [`MAX_RESET_COUNT`] the bootloader stays active.
    pub reset_counter: u8,
    /// A diagnostic session asked for the bootloader, with an optional
    /// ISO-TP timing (separation time, block size) to use.
    pub diag_request_bootloader: (bool, Option<(u8, u8)>),
    /// The panic of the application, if it panicked.
    pub app_panic: Option<AppPanicInfo>,
    /// A failed RAM test: address, bit, test stage.
    pub ram_failure: Option<(u32, u8, u8)>,
}

impl BootloaderRamInfo {
    /// The record with nothing in it.
    pub open spec fn spec_default() -> BootloaderRamInfo {
        BootloaderRamInfo {
            reset_counter: 0,
            diag_request_bootloader: (false, None),
            app_panic: None,
            ram_failure: None,
        }
    }
}

impl Default for BootloaderRamInfo {
    fn default() -> (r: Self)
        ensures
            r == BootloaderRamInfo::spec_default(),
    {
        BootloaderRamInfo {
            reset_counter: 0,
            diag_request_bootloader: (false, None),
            app_panic: None,
            ram_failure: None,
        }
    }
}

/// Whether the application can be started: its flashing completed and its
/// vector table starts with the expected stack pointer.
pub fn can_app_start(app_flashing_not_done: u8, stack_ptr: u32) -> (r: bool)
    ensures
        r == (app_flashing_not_done == 0 && stack_ptr == RAM_START_ADDR),
{
    app_flashing_not_done == 0 && stack_ptr == RAM_START_ADDR
}

/// What the bootloader does after reset.
#[derive(Clone, Copy)]
pub enum BootAction {
    /// Start the application, leaving `ram_info` in the shared record.
    StartApp { ram_info: BootloaderRamInfo },
    /// Stay in the bootloader and serve diagnostics.
    StayInBootloader {
        /// Why the application was not started.
        reason: BootloaderStayReason,
        /// Start the diagnostic server in the reprogramming session.
        reprogramming: bool,
        /// ISO-TP separation time to use.
        st_min: u8,
        /// ISO-TP block size to use.
        bs: u8,
        /// The shared record as it was found (empty when it was invalid).
        previous: BootloaderRamInfo,
    },
}

/// The decision of [`boot_decision`]: `ram_info` is the shared record when
/// its checksum was valid, `app_ok` the result of [`can_app_start`].
pub open spec fn boot_spec(
    magic_pin_low: bool,
    watchdog_reset: bool,
    ram_info: Option<BootloaderRamInfo>,
    app_ok: bool,
) -> BootAction {
    if magic_pin_low {
        BootAction::StayInBootloader {
            reason: BootloaderStayReason::MagicPin,
            reprogramming: false,
            st_min: DEFAULT_ST_MIN,
            bs: DEFAULT_BS,
            previous: BootloaderRamInfo::spec_default(),
        }
    } else if watchdog_reset {
        BootAction::StayInBootloader {
            reason: BootloaderStayReason::Watchdog,
            reprogramming: false,
            st_min: DEFAULT_ST_MIN,
            bs: DEFAULT_BS,
            previous: BootloaderRamInfo::spec_default(),
        }
    } else {
        let info = match ram_info {
            Some(i) => i,
            None => BootloaderRamInfo::spec_default(),
        };
        let diag = ram_info is Some && info.diag_request_bootloader.0;
        let found = if diag {
            BootloaderStayReason::NoReason
        } else if ram_info is Some && info.reset_counter >= MAX_RESET_COUNT {
            BootloaderStayReason::ResetCount
        } else if ram_info is Some && info.app_panic is Some {
            BootloaderStayReason::Panic
        } else {
            BootloaderStayReason::NoReason
        };
        let continue_boot = !diag && found == BootloaderStayReason::NoReason;
        if app_ok && continue_boot {
            BootAction::StartApp {
                ram_info: BootloaderRamInfo { reset_counter: (info.reset_counter + 1) as u8, ..info },
            }
        } else {
            let timing = if diag { info.diag_request_bootloader.1 } else { None };
            BootAction::StayInBootloader {
                reason: if found == BootloaderStayReason::NoReason && !app_ok {
                    BootloaderStayReason::AppInvalid
                } else {
                    found
                },
                reprogramming: diag,
                st_min: match timing {
                    Some(t) => t.0,
                    None => DEFAULT_ST_MIN,
                },
                bs: match timing {
                    Some(t) => t.1,
                    None => DEFAULT_BS,
                },
                previous: info,
            }
        }
    }
}

/// Decides at reset whether the bootloader starts the application.
///
/// The magic pin and a watchdog reset keep the bootloader active. Else a
/// valid shared record can ask for the reprogramming session, or report
/// too many starts in a row or an application panic. Without such a
/// reason the application is started when it is valid, counting the start
/// in the shared record.
pub fn boot_decision(
    magic_pin_low: bool,
    watchdog_reset: bool,
    ram_info: Option<BootloaderRamInfo>,
    app_ok: bool,
) -> (r: BootAction)
    ensures
        r == boot_spec(magic_pin_low, watchdog_reset, ram_info, app_ok),
{
    let mut reason = BootloaderStayReason::NoReason;
    let mut reprogramming = false;
    let mut st_min = DEFAULT_ST_MIN;
    let mut bs = DEFAULT_BS;
    let mut previous = BootloaderRamInfo::default();
    if magic_pin_low {
        reason = BootloaderStayReason::MagicPin;
    } else if watchdog_reset {
        reason = BootloaderStayReason::Watchdog;
    } else {
        let mut continue_boot = true;
        let mut current = BootloaderRamInfo::default();
        match ram_info {
            Some(info) => {
                continue_boot = false;
                if info.diag_request_bootloader.0 {
                    reprogramming = true;
                    match info.diag_request_bootloader.1 {
                        Some(t) => {
                            st_min = t.0;
                            bs = t.1;
                        },
                        None => {},
                    }
                } else if info.reset_counter >= MAX_RESET_COUNT {
                    reason = BootloaderStayReason::ResetCount;
                } else if info.app_panic.is_some() {
                    reason = BootloaderStayReason::Panic;
                } else {
                    continue_boot = true;
                }
                previous = info;
                current = info;
            },
            None => {},
        }
        if reason == BootloaderStayReason::NoReason && !app_ok {
            reason = BootloaderStayReason::AppInvalid;
        }
        if app_ok && continue_boot {
            current.reset_counter = current.reset_counter + 1;
            return BootAction::StartApp { ram_info: current };
        }
    }
    BootAction::StayInBootloader { reason, reprogramming, st_min, bs, previous }
}

/// Number of application starts in a row, out of `boots` resets, when the
/// application never clears the start counter.
pub open spec fn starts_in_a_row(info: BootloaderRamInfo, boots: nat) -> nat
    decreases boots,
{
    if boots == 0 {
        0
    } else {
        match boot_spec(false, false, Some(info), true) {
            BootAction::StartApp { ram_info } => 1 + starts_in_a_row(ram_info, (boots - 1) as nat),
            BootAction::StayInBootloader { .. } => 0,
        }
    }
}

/// An application that keeps resetting before it clears the start
/// counter is started at most [`MAX_RESET_COUNT`] times in a row; then the
/// bootloader stays active and reports the reset count.
pub proof fn lemma_reset_count_limit(info: BootloaderRamInfo, boots: nat)
    requires
        !info.diag_request_bootloader.0,
        info.app_panic is None,
        info.reset_counter <= MAX_RESET_COUNT,
    ensures
        starts_in_a_row(info, boots) == if boots < 5 - info.reset_counter {
            boots as int
        } else {
            5 - info.reset_counter
        },
        info.reset_counter == MAX_RESET_COUNT ==> (boot_spec(false, false, Some(info), true)
            matches BootAction::StayInBootloader { reason, .. } && reason == BootloaderStayReason::ResetCount),
    decreases boots,
{
    if boots > 0 && info.reset_counter < MAX_RESET_COUNT {
        let next = BootloaderRamInfo { reset_counter: (info.reset_counter + 1) as u8, ..info };
        lemma_reset_count_limit(next, (boots - 1) as nat);
    }
}

/// The magic pin always keeps the bootloader active, and the
/// application is only ever started when it is valid.
pub proof fn lemma_boot_guards(
    magic_pin_low: bool,
    watchdog_reset: bool,
    ram_info: Option<BootloaderRamInfo>,
    app_ok: bool,
)
    ensures
        magic_pin_low ==> (boot_spec(magic_pin_low, watchdog_reset, ram_info, app_ok)
            matches BootAction::StayInBootloader { reason, .. } && reason == BootloaderStayReason::MagicPin),
        boot_spec(magic_pin_low, watchdog_reset, ram_info, app_ok) is StartApp ==> app_ok && !magic_pin_low
            && !watchdog_reset,
{
}

/// A valid shared record that reports an application panic keeps the
/// bootloader active with the reason `Panic`, unless the magic pin, a
/// watchdog reset, a diagnostic request or the start counter came first;
/// and the application is never started while such a record reports a
/// panic, a diagnostic request or a full start counter.
pub proof fn lemma_panic_keeps_bootloader(info: BootloaderRamInfo, app_ok: bool)
    ensures
        (!info.diag_request_bootloader.0 && info.reset_counter < MAX_RESET_COUNT && info.app_panic is Some)
            ==> (boot_spec(false, false, Some(info), app_ok) matches BootAction::StayInBootloader { reason, .. }
            && reason == BootloaderStayReason::Panic),
        boot_spec(false, false, Some(info), app_ok) is StartApp ==> info.app_panic is None
            && !info.diag_request_bootloader.0 && info.reset_counter < MAX_RESET_COUNT,
{
}

/// How each reason to stay comes about, and what a start leaves behind.
/// Without the magic pin a watchdog reset keeps the bootloader active; a
/// valid record's diagnostic request opens the reprogramming session with
/// the timing it asks for (the defaults when it asks for none), naming no
/// reason unless the application is invalid; a full start
/// counter keeps the bootloader active before a panic does; an invalid
/// application with no other reason is reported as such; a start raises
/// the counter by one and keeps the rest of the record; the record found is
/// handed on when the bootloader stays.
pub proof fn lemma_boot_reasons(watchdog_reset: bool, ram_info: Option<BootloaderRamInfo>, app_ok: bool)
    ensures
        watchdog_reset ==> (boot_spec(false, true, ram_info, app_ok) matches BootAction::StayInBootloader {
            reason,
            reprogramming,
            ..
        } && reason == BootloaderStayReason::Watchdog && !reprogramming),
        (ram_info matches Some(info) && info.diag_request_bootloader.0) ==> (boot_spec(
            false,
            false,
            ram_info,
            app_ok,
        ) matches BootAction::StayInBootloader { reason, reprogramming, st_min, bs, previous }
            && reprogramming && reason == (if app_ok {
            BootloaderStayReason::NoReason
        } else {
            BootloaderStayReason::AppInvalid
        }) && previous == ram_info->0 && (st_min, bs)
            == match ram_info->0.diag_request_bootloader.1 {
            Some(t) => t,
            None => (DEFAULT_ST_MIN, DEFAULT_BS),
        }),
        (ram_info matches Some(info) && !info.diag_request_bootloader.0 && info.reset_counter
            >= MAX_RESET_COUNT) ==> (boot_spec(false, false, ram_info, app_ok)
            matches BootAction::StayInBootloader { reason, .. } && reason == BootloaderStayReason::ResetCount),
        (!app_ok && (ram_info is None || (ram_info matches Some(info) && !info.diag_request_bootloader.0
            && info.reset_counter < MAX_RESET_COUNT && info.app_panic is None))) ==> (boot_spec(
            false,
            false,
            ram_info,
            app_ok,
        ) matches BootAction::StayInBootloader { reason, .. } && reason == BootloaderStayReason::AppInvalid),
        (app_ok && (ram_info is None || (ram_info matches Some(info) && !info.diag_request_bootloader.0
            && info.reset_counter < MAX_RESET_COUNT && info.app_panic is None))) ==> (boot_spec(
            false,
            false,
            ram_info,
            app_ok,
        ) matches BootAction::StartApp { ram_info: after } && after.reset_counter == (match ram_info {
            Some(i) => i.reset_counter + 1,
            None => 1,
        }) && after.diag_request_bootloader == (match ram_info {
            Some(i) => i.diag_request_bootloader,
            None => (false, None),
        }) && after.app_panic == (match ram_info {
            Some(i) => i.app_panic,
            None => None,
        }) && after.ram_failure == (match ram_info {
            Some(i) => i.ram_failure,
            None => None,
        })),
{
}

/// What the preloader does with a staged bootloader.
#[derive(Clone, Copy, PartialEq, Eq, Structural)]
pub enum PreloaderAction {
    /// Nothing is staged: start the bootloader.
    Nothing,
    /// A bootloader is staged: copy the staging area over the bootloader
    /// when `copy` (its checksum matched), then clear the pending flag and
    /// record the checksum of the bootloader region.
    Install { copy: bool },
}

/// Decides what the preloader does, from the board information page (when
/// it could be read) and the checksum of the staging area.
pub fn preloader_plan(info: Option<SmartEepromInfo>, scratch_crc: u32) -> (r: PreloaderAction)
    ensures
        r == (match info {
            Some(i) => if i.bl_flashing_pending == 0 {
                PreloaderAction::Install { copy: scratch_crc == i.crc32_bl }
            } else {
                PreloaderAction::Nothing
            },
            None => PreloaderAction::Nothing,
        }),
{
    match info {
        Some(i) => {
            if i.bl_flashing_pending == 0 {
                PreloaderAction::Install { copy: scratch_crc == i.crc32_bl }
            } else {
                PreloaderAction::Nothing
            }
        },
        None => PreloaderAction::Nothing,
    }
}

/// Marks the staged bootloader as installed: the pending flag is cleared
/// (`0xFF`) and the checksum of the bootloader region recorded.
pub fn finish_bootloader_install(info: &mut SmartEepromInfo, bootloader_crc: u32)
    ensures
        *final(info) == (SmartEepromInfo { bl_flashing_pending: 0xFF, crc32_bl: bootloader_crc, ..*old(info) }),
{
    info.bl_flashing_pending = 0xFF;
    info.crc32_bl = bootloader_crc;
}

/// Records a failed RAM test unless one is recorded already.
pub fn record_ram_failure(info: &mut BootloaderRamInfo, failure: Option<(u32, u8, u8)>)
    ensures
        *final(info) == (if old(info).ram_failure is None && failure is Some {
            BootloaderRamInfo { ram_failure: failure, ..*old(info) }
        } else {
            *old(info)
        }),
{
    if info.ram_failure.is_none() && failure.is_some() {
        info.ram_failure = failure;
    }
}

} // verus!
