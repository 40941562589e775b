//! Gearbox state, the device mode flags, received CAN frames with their
//! timeout, and the slave mode in which the solenoids are driven directly
//! over CAN and reported back.
use vstd::prelude::*;
use crate::sensors::{SensorData, TftState};

verus! {

/// Device mode flags (compatible with the EGS device mode).
#[derive(Clone, Copy, PartialEq, Eq, Structural)]
pub struct EgsDeviceMode {
    pub bits: u16,
}

impl EgsDeviceMode {
    /// Normal operation.
    pub const NORMAL: u16 = 0x0001;
    /// Self test (through diagnostics).
    pub const MONTAGE: u16 = 0x0002;
    /// Drive cycle simulation.
    pub const ROLLER: u16 = 0x0004;
    /// Solenoids driven directly over CAN.
    pub const SLAVE: u16 = 0x0008;
    /// Outputs off; may clear by itself.
    pub const TEMP_EMERGENCY: u16 = 0x0010;
    /// Hardware error: everything off but diagnostics.
    pub const HARDWARE_ERROR: u16 = 0x0020;
    /// Outputs off until cleared through diagnostics.
    pub const PERM_EMERGENCY: u16 = 0x0040;
    /// Outputs off below 9 V.
    pub const UNDERVOLTAGE_EMERGENCY: u16 = 0x0080;
    /// Initialising.
    pub const INITIALIZATION: u16 = 0x0100;
    /// End of line testing.
    pub const TEST: u16 = 0x0200;
    /// WEP.
    pub const WEP: u16 = 0x0400;

    /// The flags as they are.
    pub fn from_bits_retain(bits: u16) -> (r: Self)
        ensures
            r.bits == bits,
    {
        EgsDeviceMode { bits }
    }

    /// The raw flags.
    pub fn bits(&self) -> (r: u16)
        ensures
            r == self.bits,
    {
        self.bits
    }

    /// Whether all flags of `other` are set.
    pub fn contains(&self, other: u16) -> (r: bool)
        ensures
            r == (self.bits & other == other),
    {
        self.bits & other == other
    }

    /// Whether any flag of `other` is set.
    pub fn intersects(&self, other: u16) -> (r: bool)
        ensures
            r == (self.bits & other != 0),
    {
        self.bits & other != 0
    }

    /// Whether the solenoids may be powered: none of the emergency and
    /// hardware error flags is set.
    pub fn solenoid_output_allowed(&self) -> (r: bool)
        ensures
            r == (self.bits & 0x00F0 == 0),
    {
        let banned = Self::TEMP_EMERGENCY | Self::HARDWARE_ERROR | Self::PERM_EMERGENCY | Self::UNDERVOLTAGE_EMERGENCY;
        assert(0x0010u16 | 0x0020u16 | 0x0040u16 | 0x0080u16 == 0x00F0u16) by (bit_vector);
        !self.intersects(banned)
    }
}

/// Gear controller state.
#[derive(Clone, Copy, PartialEq, Eq, Structural)]
pub enum ControlState {
    InGear,
    ShiftingRD,
    ShiftingPN,
    Shifting,
}

/// Shift circuits.
#[derive(Clone, Copy, PartialEq, Eq, Structural)]
pub enum ShiftCircuit {
    _12,
    _23,
    _34,
    _45,
    _21,
    _32,
    _43,
    _54,
}

/// Gears.
#[derive(Clone, Copy, PartialEq, Eq, Structural)]
pub enum Gear {
    N,
    _1,
    _2,
    _3,
    _4,
    _5,
    _R1,
    _R2,
    P,
}

/// State of the gear train.
#[derive(Clone, Copy, PartialEq, Eq, Structural)]
pub enum GearStatus {
    Gear(Gear),
    PowerFreeInD,
    Abort,
}

/// Kind of torque request to the engine.
#[derive(Clone, Copy, PartialEq, Eq, Structural)]
pub enum TorqueReqTy {
    Min,
    Max,
}

impl Default for TorqueReqTy {
    fn default() -> (r: Self)
        ensures
            r == TorqueReqTy::Min,
    {
        TorqueReqTy::Min
    }
}

/// Phase of a torque request.
#[derive(Clone, Copy, PartialEq, Eq, Structural)]
pub enum TorqueReqPhase {
    Decend,
    Hold,
    RampToEnd,
}

impl Default for TorqueReqPhase {
    fn default() -> (r: Self)
        ensures
            r == TorqueReqPhase::Decend,
    {
        TorqueReqPhase::Decend
    }
}

/// Signals read from the vehicle CAN bus (none yet).
#[derive(Clone, Copy, PartialEq, Eq, Structural)]
pub struct CanRxSignals {}

/// A received CAN frame with the time it came, so that stale data is not
/// used.
#[derive(Clone, Copy)]
pub struct RxFrame<T: Copy> {
    frame: T,
    timestamp_ms: u64,
    seen: bool,
}

impl<T: Copy> RxFrame<T> {
    /// The frame last received.
    pub closed spec fn spec_frame(&self) -> T {
        self.frame
    }

    /// When it was received.
    pub closed spec fn spec_timestamp(&self) -> u64 {
        self.timestamp_ms
    }

    /// Whether any frame was received.
    pub closed spec fn spec_seen(&self) -> bool {
        self.seen
    }

    /// The frame value [`RxFrame::get`] gives at `now_ms`.
    pub open spec fn spec_get(&self, now_ms: u64, max_ms: u64) -> Option<T> {
        if self.spec_seen() && now_ms - self.spec_timestamp() <= max_ms {
            Some(self.spec_frame())
        } else {
            None
        }
    }

    /// No frame received yet; `zero` is the frame's zero value.
    pub fn new(zero: T) -> (r: Self)
        ensures
            !r.spec_seen(),
            r.spec_frame() == zero,
            r.spec_timestamp() == 0,
    {
        RxFrame { frame: zero, timestamp_ms: 0, seen: false }
    }

    /// The frame, unless none was received or it is older than `max_ms`
    /// at `now_ms`.
    pub fn get(&self, now_ms: u64, max_ms: u64) -> (r: Option<T>)
        requires
            self.spec_seen() ==> self.spec_timestamp() <= now_ms,
        ensures
            r == self.spec_get(now_ms, max_ms),
    {
        if self.seen {
            if now_ms - self.timestamp_ms > max_ms {
                None
            } else {
                Some(self.frame)
            }
        } else {
            None
        }
    }

    /// Records a frame received at `now_ms`.
    pub fn write(&mut self, v: T, now_ms: u64)
        ensures
            final(self).spec_seen(),
            final(self).spec_frame() == v,
            final(self).spec_timestamp() == now_ms,
    {
        self.seen = true;
        self.frame = v;
        self.timestamp_ms = now_ms;
    }

    /// Whether a frame was ever received.
    pub fn has_been_seen(&self) -> (r: bool)
        ensures
            r == self.spec_seen(),
    {
        self.seen
    }
}

/// A frame read back within its timeout after it was written is the
/// frame written; once older than the timeout it is no longer given.
pub proof fn lemma_rx_frame_timeout<T: Copy>(f: RxFrame<T>, v: T, at: u64, now: u64, max_ms: u64)
    requires
        f.spec_seen(),
        f.spec_frame() == v,
        f.spec_timestamp() == at,
        at <= now,
    ensures
        now - at <= max_ms ==> f.spec_get(now, max_ms) == Some(v),
        now - at > max_ms ==> f.spec_get(now, max_ms) is None,
{
}

/// The solenoid request of the slave mode control frame.
#[derive(Clone, Copy, PartialEq, Eq, Structural)]
pub struct SolenoidControl {
    /// Shift pressure current (mA), byte swapped on the bus.
    pub spc_req: u16,
    /// Modulating pressure current (mA), byte swapped on the bus.
    pub mpc_req: u16,
    /// Torque converter duty (out of 255).
    pub tcc_req: u8,
    pub y_3_en: bool,
    pub y_4_en: bool,
    pub y_5_en: bool,
}

impl SolenoidControl {
    /// The frame with everything off.
    pub fn zero() -> (r: Self)
        ensures
            r == (SolenoidControl { spc_req: 0, mpc_req: 0, tcc_req: 0, y_3_en: false, y_4_en: false, y_5_en: false }),
    {
        SolenoidControl { spc_req: 0, mpc_req: 0, tcc_req: 0, y_3_en: false, y_4_en: false, y_5_en: false }
    }
}

/// The solenoid report of the slave mode.
#[derive(Clone, Copy, PartialEq, Eq, Structural)]
pub struct SolenoidReport {
    pub mpc_curr: u16,
    pub spc_curr: u16,
    pub tcc_pwm: u8,
    pub y_3_on: bool,
    pub y_4_on: bool,
    pub y_5_on: bool,
}

/// The sensor report of the slave mode.
#[derive(Clone, Copy, PartialEq, Eq, Structural)]
pub struct SensorReport {
    /// Fluid temperature + 50 degrees, or `0xFF` with the parking lock.
    pub tft: u8,
    /// KL15 voltage in tenths of a volt.
    pub vbatt: u8,
    /// Raw N2 speed sensor value.
    pub n_2_raw: u16,
}

/// Both slave mode reports.
#[derive(Clone, Copy, PartialEq, Eq, Structural)]
pub struct FullReport {
    pub solenoids: SolenoidReport,
    pub sensors: SensorReport,
}

/// The value with its two bytes swapped.
pub open spec fn swap16(v: u16) -> u16 {
    (((v & 0xFF) << 8) | (v >> 8)) as u16
}

/// Swaps the two bytes of a value.
pub fn swap_bytes(v: u16) -> (r: u16)
    ensures
        r == swap16(v),
{
    ((v & 0xFF) << 8) | (v >> 8)
}

/// The requests a control frame makes: shift and modulating pressure
/// currents and the torque converter duty (out of 65535).
pub fn slave_requests(ctrl: SolenoidControl) -> (r: (u16, u16, u16))
    ensures
        r == (swap16(ctrl.spc_req), swap16(ctrl.mpc_req), ((ctrl.tcc_req as u16) << 8) as u16),
{
    (swap_bytes(ctrl.spc_req), swap_bytes(ctrl.mpc_req), (ctrl.tcc_req as u16) << 8)
}

/// The solenoid report from the measured currents (mA) and the observed
/// torque converter duty (out of 65535): currents byte swapped, the duty's
/// high byte, and a shift valve counts as on above 100 mA.
pub fn solenoid_report(spc: u16, mpc: u16, observed_pwm: u16, y3: u16, y4: u16, y5: u16) -> (r: SolenoidReport)
    ensures
        r == (SolenoidReport {
            mpc_curr: swap16(mpc),
            spc_curr: swap16(spc),
            tcc_pwm: (observed_pwm >> 8) as u8,
            y_3_on: y3 > 100,
            y_4_on: y4 > 100,
            y_5_on: y5 > 100,
        }),
{
    SolenoidReport {
        mpc_curr: swap_bytes(mpc),
        spc_curr: swap_bytes(spc),
        tcc_pwm: (observed_pwm >> 8) as u8,
        y_3_on: y3 > 100,
        y_4_on: y4 > 100,
        y_5_on: y5 > 100,
    }
}

/// The sensor report from the sensor readings: the fluid temperature
/// offset by 50 °C (the low byte, as sent), `0xFF` while the TFT sensor
/// the parking lock is engaged.
pub fn sensor_report(data: &SensorData) -> (r: SensorReport)
    ensures
        r == (SensorReport {
            tft: match data.tft {
                TftState::Pll => 0xFFu8,
                TftState::Temperature(t) => (t as i16 + 50) as u8,
            },
            vbatt: (data.vkl15 / 100) as u8,
            n_2_raw: data.ikl87,
        }),
{
    let tft = match data.tft {
        TftState::Pll => 0xFFu8,
        TftState::Temperature(t) => (t as i16 + 50) as u8,
    };
    SensorReport { tft, vbatt: (data.vkl15 / 100) as u8, n_2_raw: data.ikl87 }
}

/// The control frame in use: the last one received within 100 ms, else
/// everything off.
pub fn slave_control_frame(frame: &RxFrame<SolenoidControl>, now_ms: u64) -> (r: SolenoidControl)
    requires
        frame.spec_seen() ==> frame.spec_timestamp() <= now_ms,
    ensures
        r == (match frame.spec_get(now_ms, 100) {
            Some(f) => f,
            None => SolenoidControl { spc_req: 0, mpc_req: 0, tcc_req: 0, y_3_en: false, y_4_en: false, y_5_en: false },
        }),
{
    match frame.get(now_ms, 100) {
        Some(f) => f,
        None => SolenoidControl::zero(),
    }
}

} // verus!
