//! Control of the gearbox solenoids through the TLE8242: which channel
//! drives which solenoid, the pressure solenoid currents, the shift valves
//! (full on, then held at a quarter duty), and the round-robin reading of
//! the channel currents.
use vstd::prelude::*;
use crate::tle_commands::{TleChannel, TleMsg};
use crate::tle8242::{Tle8242, Mode, ChannelProps, TleConfiguration};
use crate::tle_commands::ShortToBatThreshold;

verus! {

/// Channel of shift solenoid Y3.
pub const TLE_CHAN_Y3: TleChannel = TleChannel::_6;
/// Channel of shift solenoid Y4.
pub const TLE_CHAN_Y4: TleChannel = TleChannel::_1;
/// Channel of shift solenoid Y5.
pub const TLE_CHAN_Y5: TleChannel = TleChannel::_4;
/// Channel of the modulating pressure solenoid.
pub const TLE_CHAN_MPC: TleChannel = TleChannel::_5;
/// Channel of the shift pressure solenoid.
pub const TLE_CHAN_SPC: TleChannel = TleChannel::_0;
/// Channel of the general purpose output.
pub const TLE_CHAN_GPIO: TleChannel = TleChannel::_3;
/// Channel of the starter relay output.
pub const TLE_CHAN_TRRS: TleChannel = TleChannel::_2;

/// Milliseconds a shift valve stays fully on before it is held.
pub const SHIFT_VALVE_FULL_ON_MS: u64 = 250;

/// On/off requests of the shift valves and the starter relay (bits 0 to
/// 3: Y3, Y4, Y5, TRRS).
#[derive(Clone, Copy, PartialEq, Eq, Structural)]
pub struct SolenoidOnOffReq {
    pub raw_value: u8,
}

impl SolenoidOnOffReq {
    /// The request with the given raw bits.
    pub fn new_with_raw_value(raw_value: u8) -> (r: Self)
        ensures
            r.raw_value == raw_value,
    {
        SolenoidOnOffReq { raw_value }
    }

    /// Y3 requested on (bit 0).
    pub fn y3(&self) -> (r: bool)
        ensures
            r == (self.raw_value & 1 != 0),
    {
        self.raw_value & 1 != 0
    }

    /// Y4 requested on (bit 1).
    pub fn y4(&self) -> (r: bool)
        ensures
            r == (self.raw_value & 2 != 0),
    {
        self.raw_value & 2 != 0
    }

    /// Y5 requested on (bit 2).
    pub fn y5(&self) -> (r: bool)
        ensures
            r == (self.raw_value & 4 != 0),
    {
        self.raw_value & 4 != 0
    }

    /// Starter relay requested on (bit 3).
    pub fn trrs(&self) -> (r: bool)
        ensures
            r == (self.raw_value & 8 != 0),
    {
        self.raw_value & 8 != 0
    }
}

/// A full request to the solenoid outputs.
#[derive(Clone, Copy)]
pub struct SolenoidOutputReq {
    pub mpc_current: u16,
    pub spc_current: u16,
    pub gpio_current: u16,
    pub on_off_valves: SolenoidOnOffReq,
}

/// State of a shift valve.
#[derive(Clone, Copy, PartialEq, Eq, Structural)]
pub enum ShiftValveState {
    /// Off.
    Off,
    /// Fully on since the given millisecond.
    FullOn(u64),
    /// Held on at reduced duty.
    HoldOn,
}

impl ShiftValveState {
    /// Whether the valve is on (fully or held).
    pub fn is_on(&self) -> (r: bool)
        ensures
            r == !(*self is Off),
    {
        match self {
            ShiftValveState::Off => false,
            _ => true,
        }
    }
}

impl Default for ShiftValveState {
    fn default() -> (r: Self)
        ensures
            r is Off,
    {
        ShiftValveState::Off
    }
}

/// The last measured current of each output, in milliamps.
#[derive(Clone, Copy, PartialEq, Eq, Structural)]
pub struct MonitoredOutputs {
    pub spc_current: u16,
    pub mpc_current: u16,
    pub y3_current: u16,
    pub y4_current: u16,
    pub y5_current: u16,
    pub gpio_current: u16,
    pub trrs_current: u16,
}

impl Default for MonitoredOutputs {
    fn default() -> (r: Self)
        ensures
            r == (MonitoredOutputs { spc_current: 0, mpc_current: 0, y3_current: 0, y4_current: 0, y5_current: 0,
                gpio_current: 0, trrs_current: 0 }),
    {
        MonitoredOutputs { spc_current: 0, mpc_current: 0, y3_current: 0, y4_current: 0, y5_current: 0, gpio_current: 0, trrs_current: 0 }
    }
}

impl MonitoredOutputs {
    /// The current recorded for the output on `chan` (0 for channel 7,
    /// which drives nothing).
    pub open spec fn current_of(&self, chan: TleChannel) -> u16 {
        match chan {
            TleChannel::_5 => self.mpc_current,
            TleChannel::_0 => self.spc_current,
            TleChannel::_6 => self.y3_current,
            TleChannel::_1 => self.y4_current,
            TleChannel::_4 => self.y5_current,
            TleChannel::_3 => self.gpio_current,
            TleChannel::_2 => self.trrs_current,
            TleChannel::_7 => 0,
        }
    }

    /// Records the current of the output on `chan`; channel 7 drives
    /// nothing and is ignored.
    pub fn set_current(&mut self, chan: TleChannel, val: u16)
        ensures
            chan != TleChannel::_7 ==> final(self).current_of(chan) == val,
            forall|c: TleChannel| c != chan && c != TleChannel::_7 ==> final(self).current_of(c) == old(self).current_of(c),
            chan == TleChannel::_7 ==> *final(self) == *old(self),
    {
        match chan {
            TleChannel::_5 => self.mpc_current = val,
            TleChannel::_0 => self.spc_current = val,
            TleChannel::_6 => self.y3_current = val,
            TleChannel::_1 => self.y4_current = val,
            TleChannel::_4 => self.y5_current = val,
            TleChannel::_3 => self.gpio_current = val,
            TleChannel::_2 => self.trrs_current = val,
            TleChannel::_7 => {},
        }
    }
}

/// Current setpoint of the driver for `ma` milliamps: the driver's full
/// scale of 2048 is 320 mV over the 50 mOhm shunt (6400 mA), so the value
/// is `ma * 8 / 25` rounded down (computed exactly; the single precision
/// formula `ma / 6400 * 2048` gives the same for every `u16`).
pub open spec fn setpoint_of_ma(ma: u16) -> u16 {
    (ma as int * 8 / 25) as u16
}

/// Milliamps of an average current reading of a channel: readings of the
/// dithered pressure solenoids are scaled by `6400 / 32768`, those of the
/// shift valves by `6400 / 8192`, both rounded down and capped at
/// `u16::MAX` (exactly what the single precision formula gives for 20 bit
/// readings); other channels read 0.
pub open spec fn ma_of_reading(chan: TleChannel, avg: u32) -> u16 {
    let v = if chan == TLE_CHAN_MPC || chan == TLE_CHAN_SPC {
        avg as int * 25 / 128
    } else if chan == TLE_CHAN_Y3 || chan == TLE_CHAN_Y4 || chan == TLE_CHAN_Y5 {
        avg as int * 25 / 32
    } else {
        0
    };
    if v > 65535 { 65535 } else { v as u16 }
}

/// The three shift valves convert a reading with one scale, and so do the
/// two pressure solenoids; a shift valve reading counts four times what
/// the same reading counts on a pressure solenoid, and a full-scale reading
/// of 8192 on a shift valve is 6400 mA (the shift valve scale is `6400 /
/// 8192`, that of the pressure solenoids `6400 / 32768`, both rounded
/// down); the general purpose and starter relay outputs read 0.
pub proof fn lemma_reading_scales(avg: u32)
    ensures
        ma_of_reading(TLE_CHAN_Y5, avg) == ma_of_reading(TLE_CHAN_Y3, avg),
        ma_of_reading(TLE_CHAN_Y4, avg) == ma_of_reading(TLE_CHAN_Y3, avg),
        ma_of_reading(TLE_CHAN_SPC, avg) == ma_of_reading(TLE_CHAN_MPC, avg),
        avg <= 0x3FFF_FFFF ==> ma_of_reading(TLE_CHAN_Y3, avg) == ma_of_reading(TLE_CHAN_MPC, (4 * avg) as u32),
        ma_of_reading(TLE_CHAN_Y3, 8192) == 6400,
        ma_of_reading(TLE_CHAN_MPC, 32768) == 6400,
        avg <= 20000 ==> ma_of_reading(TLE_CHAN_Y3, avg) * 8192 <= avg * 6400 < (ma_of_reading(TLE_CHAN_Y3, avg) + 1) * 8192,
        avg <= 80000 ==> ma_of_reading(TLE_CHAN_MPC, avg) * 32768 <= avg * 6400 < (ma_of_reading(TLE_CHAN_MPC, avg) + 1) * 32768,
        ma_of_reading(TLE_CHAN_GPIO, avg) == 0,
        ma_of_reading(TLE_CHAN_TRRS, avg) == 0,
{
    assert((4 * avg as int) * 25 / 128 == avg as int * 25 / 32) by (nonlinear_arith)
        requires
            avg >= 0,
    ;
}

/// Converts an average current reading to milliamps.
pub fn reading_to_ma(chan: TleChannel, avg: u32) -> (r: u16)
    ensures
        r == ma_of_reading(chan, avg),
{
    let v: u64 = if chan == TLE_CHAN_MPC || chan == TLE_CHAN_SPC {
        (avg as u64) * 25 / 128
    } else if chan == TLE_CHAN_Y3 || chan == TLE_CHAN_Y4 || chan == TLE_CHAN_Y5 {
        (avg as u64) * 25 / 32
    } else {
        0
    };
    if v > 65535 {
        65535
    } else {
        v as u16
    }
}

/// The order in which channel currents are read.
pub open spec fn read_order() -> Seq<TleChannel> {
    seq![TLE_CHAN_Y3, TLE_CHAN_Y4, TLE_CHAN_Y5, TLE_CHAN_MPC, TLE_CHAN_SPC, TLE_CHAN_TRRS, TLE_CHAN_GPIO]
}

/// The controller side of the solenoids: the driver's configuration, the
/// last requested pressure currents, the shift valve states and the
/// measured currents.
pub struct SolenoidControler {
    tle8242: Tle8242,
    last_mpc: u16,
    last_spc: u16,
    all_channels: [TleChannel; 7],
    monitored_currents: MonitoredOutputs,
    last_read_current_channel: usize,
    y3_state: ShiftValveState,
    y4_state: ShiftValveState,
    y5_state: ShiftValveState,
}

/// The state of a [`SolenoidControler`].
pub struct SolenoidModel {
    pub last_mpc: u16,
    pub last_spc: u16,
    pub monitored: MonitoredOutputs,
    pub read_index: int,
    pub y3: ShiftValveState,
    pub y4: ShiftValveState,
    pub y5: ShiftValveState,
}

impl SolenoidControler {
    /// The state.
    pub closed spec fn model(&self) -> SolenoidModel {
        SolenoidModel {
            last_mpc: self.last_mpc,
            last_spc: self.last_spc,
            monitored: self.monitored_currents,
            read_index: self.last_read_current_channel as int,
            y3: self.y3_state,
            y4: self.y4_state,
            y5: self.y5_state,
        }
    }

    /// The driver.
    pub closed spec fn driver(&self) -> Tle8242 {
        self.tle8242
    }

    /// The channels are read in [`read_order`] and the index stays in it.
    pub closed spec fn wf(&self) -> bool {
        &&& self.all_channels@ == read_order()
        &&& self.last_read_current_channel < 7
        &&& self.tle8242.config().wf()
    }

    /// A controller that drives `tle8242`, with everything off.
    pub fn new(tle8242: Tle8242) -> (r: Self)
        requires
            tle8242.config().wf(),
        ensures
            r.wf(),
            r.driver() == tle8242,
            r.model() == (SolenoidModel {
                last_mpc: 0,
                last_spc: 0,
                monitored: MonitoredOutputs { spc_current: 0, mpc_current: 0, y3_current: 0, y4_current: 0, y5_current: 0,
                    gpio_current: 0, trrs_current: 0 },
                read_index: 0,
                y3: ShiftValveState::Off,
                y4: ShiftValveState::Off,
                y5: ShiftValveState::Off,
            }),
    {
        let r = SolenoidControler {
            tle8242,
            last_mpc: 0,
            last_spc: 0,
            all_channels: [TLE_CHAN_Y3, TLE_CHAN_Y4, TLE_CHAN_Y5, TLE_CHAN_MPC, TLE_CHAN_SPC, TLE_CHAN_TRRS, TLE_CHAN_GPIO],
            monitored_currents: MonitoredOutputs::default(),
            last_read_current_channel: 0,
            y3_state: ShiftValveState::default(),
            y4_state: ShiftValveState::default(),
            y5_state: ShiftValveState::default(),
        };
        assert(r.all_channels@ =~= read_order());
        r
    }

    /// Whether the output on `channel` is on: a pressure solenoid with a
    /// current requested, or a shift valve in any on state.
    pub open spec fn spec_is_channel_on(&self, channel: TleChannel) -> bool {
        if channel == TLE_CHAN_MPC {
            self.model().last_mpc != 0
        } else if channel == TLE_CHAN_SPC {
            self.model().last_spc != 0
        } else if channel == TLE_CHAN_Y3 {
            !(self.model().y3 is Off)
        } else if channel == TLE_CHAN_Y4 {
            !(self.model().y4 is Off)
        } else if channel == TLE_CHAN_Y5 {
            !(self.model().y5 is Off)
        } else {
            false
        }
    }

    /// Whether the output on `channel` is on.
    pub fn is_channel_on(&self, channel: TleChannel) -> (r: bool)
        ensures
            r == self.spec_is_channel_on(channel),
    {
        if channel == TLE_CHAN_MPC {
            self.last_mpc != 0
        } else if channel == TLE_CHAN_SPC {
            self.last_spc != 0
        } else if channel == TLE_CHAN_Y3 {
            self.y3_state.is_on()
        } else if channel == TLE_CHAN_Y4 {
            self.y4_state.is_on()
        } else if channel == TLE_CHAN_Y5 {
            self.y5_state.is_on()
        } else {
            false
        }
    }

    /// Requests a shift pressure current. When it differs from the last
    /// request, returns the driver message (if the channel is current
    /// controlled) and remembers the request.
    pub fn set_spc_current(&mut self, setpoint_ma: u16) -> (r: Option<u32>)
        requires
            old(self).wf(),
            setpoint_ma < 6400,
            dither_fits(old(self).driver(), TLE_CHAN_SPC),
        ensures
            final(self).wf(),
            final(self).driver() == old(self).driver(),
            final(self).model() == (SolenoidModel { last_spc: setpoint_ma, ..old(self).model() }),
            setpoint_ma == old(self).model().last_spc ==> r is None,
            setpoint_ma != old(self).model().last_spc ==> r == current_message(old(self).driver(), TLE_CHAN_SPC,
                setpoint_of_ma(setpoint_ma)),
    {
        if self.last_spc != setpoint_ma {
            let val = ((setpoint_ma as u32) * 8 / 25) as u16;
            let m = self.tle8242.set_channel_current(TLE_CHAN_SPC, val);
            self.last_spc = setpoint_ma;
            match m {
                Some(msg) => Some(msg.into_raw()),
                None => None,
            }
        } else {
            None
        }
    }

    /// Requests a modulating pressure current (as [`Self::set_spc_current`]).
    pub fn set_mpc_current(&mut self, setpoint_ma: u16) -> (r: Option<u32>)
        requires
            old(self).wf(),
            setpoint_ma < 6400,
            dither_fits(old(self).driver(), TLE_CHAN_MPC),
        ensures
            final(self).wf(),
            final(self).driver() == old(self).driver(),
            final(self).model() == (SolenoidModel { last_mpc: setpoint_ma, ..old(self).model() }),
            setpoint_ma == old(self).model().last_mpc ==> r is None,
            setpoint_ma != old(self).model().last_mpc ==> r == current_message(old(self).driver(), TLE_CHAN_MPC,
                setpoint_of_ma(setpoint_ma)),
    {
        if self.last_mpc != setpoint_ma {
            let val = ((setpoint_ma as u32) * 8 / 25) as u16;
            let m = self.tle8242.set_channel_current(TLE_CHAN_MPC, val);
            self.last_mpc = setpoint_ma;
            match m {
                Some(msg) => Some(msg.into_raw()),
                None => None,
            }
        } else {
            None
        }
    }

    /// Switches shift valve Y3 (see [`valve_step`]).
    pub fn set_y3(&mut self, en: bool, now_ms: u64) -> (r: Option<u32>)
        requires
            old(self).wf(),
            pwm_fits(old(self).driver(), TLE_CHAN_Y3),
        ensures
            final(self).wf(),
            final(self).driver() == old(self).driver(),
            (r, final(self).model().y3) == valve_step(old(self).driver(), TLE_CHAN_Y3, old(self).model().y3, en, now_ms),
            final(self).model() == (SolenoidModel { y3: final(self).model().y3, ..old(self).model() }),
    {
        let (m, s) = set_binary_valve(&self.tle8242, en, TLE_CHAN_Y3, self.y3_state, now_ms);
        self.y3_state = s;
        m
    }

    /// Switches shift valve Y4 (see [`valve_step`]).
    pub fn set_y4(&mut self, en: bool, now_ms: u64) -> (r: Option<u32>)
        requires
            old(self).wf(),
            pwm_fits(old(self).driver(), TLE_CHAN_Y4),
        ensures
            final(self).wf(),
            final(self).driver() == old(self).driver(),
            (r, final(self).model().y4) == valve_step(old(self).driver(), TLE_CHAN_Y4, old(self).model().y4, en, now_ms),
            final(self).model() == (SolenoidModel { y4: final(self).model().y4, ..old(self).model() }),
    {
        let (m, s) = set_binary_valve(&self.tle8242, en, TLE_CHAN_Y4, self.y4_state, now_ms);
        self.y4_state = s;
        m
    }

    /// Switches shift valve Y5 (see [`valve_step`]).
    pub fn set_y5(&mut self, en: bool, now_ms: u64) -> (r: Option<u32>)
        requires
            old(self).wf(),
            pwm_fits(old(self).driver(), TLE_CHAN_Y5),
        ensures
            final(self).wf(),
            final(self).driver() == old(self).driver(),
            (r, final(self).model().y5) == valve_step(old(self).driver(), TLE_CHAN_Y5, old(self).model().y5, en, now_ms),
            final(self).model() == (SolenoidModel { y5: final(self).model().y5, ..old(self).model() }),
    {
        let (m, s) = set_binary_valve(&self.tle8242, en, TLE_CHAN_Y5, self.y5_state, now_ms);
        self.y5_state = s;
        m
    }

    /// Lowers the shift valves that have been fully on for more than
    /// [`SHIFT_VALVE_FULL_ON_MS`] to a quarter duty: returns the driver
    /// messages, for Y3, Y4 and Y5 in that order.
    pub fn update_task(&mut self, now_ms: u64) -> (r: Vec<u32>)
        requires
            old(self).wf(),
            pwm_fits(old(self).driver(), TLE_CHAN_Y3),
            pwm_fits(old(self).driver(), TLE_CHAN_Y4),
            pwm_fits(old(self).driver(), TLE_CHAN_Y5),
            old(self).model().y3 matches ShiftValveState::FullOn(t) ==> t <= now_ms,
            old(self).model().y4 matches ShiftValveState::FullOn(t) ==> t <= now_ms,
            old(self).model().y5 matches ShiftValveState::FullOn(t) ==> t <= now_ms,
        ensures
            final(self).wf(),
            final(self).driver() == old(self).driver(),
            ({
                let (m3, s3) = hold_step(old(self).driver(), TLE_CHAN_Y3, old(self).model().y3, now_ms);
                let (m4, s4) = hold_step(old(self).driver(), TLE_CHAN_Y4, old(self).model().y4, now_ms);
                let (m5, s5) = hold_step(old(self).driver(), TLE_CHAN_Y5, old(self).model().y5, now_ms);
                &&& final(self).model() == (SolenoidModel { y3: s3, y4: s4, y5: s5, ..old(self).model() })
                &&& r@ == opt_seq(m3) + opt_seq(m4) + opt_seq(m5)
            }),
    {
        let mut out: Vec<u32> = Vec::new();
        let (m3, s3) = hold_valve(&self.tle8242, TLE_CHAN_Y3, self.y3_state, now_ms);
        self.y3_state = s3;
        push_opt(&mut out, m3);
        let (m4, s4) = hold_valve(&self.tle8242, TLE_CHAN_Y4, self.y4_state, now_ms);
        self.y4_state = s4;
        push_opt(&mut out, m4);
        let (m5, s5) = hold_valve(&self.tle8242, TLE_CHAN_Y5, self.y5_state, now_ms);
        self.y5_state = s5;
        push_opt(&mut out, m5);
        out
    }

    /// The channel whose current is read next.
    pub open spec fn spec_current_channel(&self) -> TleChannel {
        read_order()[self.model().read_index]
    }

    /// The channel to read the average current of from the driver now, or
    /// `None` when it is off (its current is known to be 0).
    pub fn current_read_request(&self) -> (r: Option<TleChannel>)
        requires
            self.wf(),
        ensures
            r == (if self.spec_is_channel_on(self.spec_current_channel()) {
                Some(self.spec_current_channel())
            } else {
                None
            }),
    {
        let ch = self.all_channels[self.last_read_current_channel];
        if self.is_channel_on(ch) {
            Some(ch)
        } else {
            None
        }
    }

    /// Takes the reading of the current channel: 0 mA when it is off, else
    /// the driver's average current in milliamps (`None` when it had no
    /// valid reading, see [`Tle8242::avg_current_of`]). A reading is
    /// recorded, capped at `u16::MAX`, and the next channel comes up;
    /// without one nothing changes.
    pub fn update_current_readings(&mut self, reply: Option<u32>)
        requires
            old(self).wf(),
        ensures
            final(self).wf(),
            final(self).driver() == old(self).driver(),
            ({
                let ch = old(self).spec_current_channel();
                let avg = if !old(self).spec_is_channel_on(ch) { Some(0u32) } else { reply };
                match avg {
                    Some(a) => {
                        &&& final(self).model().read_index == (old(self).model().read_index + 1) % 7
                        &&& final(self).model().monitored.current_of(ch) == (if a > 65535 {
                            65535u16
                        } else {
                            a as u16
                        })
                        &&& forall|c: TleChannel| c != ch && c != TleChannel::_7 ==> final(self).model().monitored.current_of(c)
                            == old(self).model().monitored.current_of(c)
                        &&& final(self).model() == (SolenoidModel {
                            monitored: final(self).model().monitored,
                            read_index: final(self).model().read_index,
                            ..old(self).model()
                        })
                    },
                    None => final(self).model() == old(self).model(),
                }
            }),
    {
        let ch = self.all_channels[self.last_read_current_channel];
        let avg = if !self.is_channel_on(ch) {
            Some(0u32)
        } else {
            reply
        };
        match avg {
            Some(a) => {
                let ma: u16 = if a > 65535 {
                    65535
                } else {
                    a as u16
                };
                self.monitored_currents.set_current(ch, ma);
                self.last_read_current_channel = (self.last_read_current_channel + 1) % 7;
            },
            None => {},
        }
    }

    /// The measured shift pressure current.
    pub fn read_spc_current(&self) -> (r: u16)
        ensures
            r == self.model().monitored.spc_current,
    {
        self.monitored_currents.spc_current
    }

    /// The measured modulating pressure current.
    pub fn read_mpc_current(&self) -> (r: u16)
        ensures
            r == self.model().monitored.mpc_current,
    {
        self.monitored_currents.mpc_current
    }

    /// The measured current of Y3.
    pub fn read_y3_current(&self) -> (r: u16)
        ensures
            r == self.model().monitored.y3_current,
    {
        self.monitored_currents.y3_current
    }

    /// The measured current of Y4.
    pub fn read_y4_current(&self) -> (r: u16)
        ensures
            r == self.model().monitored.y4_current,
    {
        self.monitored_currents.y4_current
    }

    /// The measured current of Y5.
    pub fn read_y5_current(&self) -> (r: u16)
        ensures
            r == self.model().monitored.y5_current,
    {
        self.monitored_currents.y5_current
    }
}

/// Settings of a channel in the given mode, with fault reporting off, the
/// lowest short-to-battery threshold and no retry, offset or special
/// sampling.
pub open spec fn plain_props(mode: Mode) -> ChannelProps {
    ChannelProps {
        mode,
        fault_enabled: false,
        short_to_batt_threshold: ShortToBatThreshold::_1_3V,
        short_to_batt_retry_time: 0,
        pwm_offset: 0,
        sample_method: false,
    }
}

/// The driver configuration of the gearbox: the two pressure solenoids in
/// the linear (current controlled) mode, the three shift valves in the
/// shift (direct PWM) mode, the other channels unused.
pub fn solenoid_configuration(mode_linear: Mode, mode_shift: Mode) -> (r: TleConfiguration)
    ensures
        r.wf(),
        r.props_of(TLE_CHAN_MPC) == Some(plain_props(mode_linear)),
        r.props_of(TLE_CHAN_SPC) == Some(plain_props(mode_linear)),
        r.props_of(TLE_CHAN_Y3) == Some(plain_props(mode_shift)),
        r.props_of(TLE_CHAN_Y4) == Some(plain_props(mode_shift)),
        r.props_of(TLE_CHAN_Y5) == Some(plain_props(mode_shift)),
        r.props_of(TLE_CHAN_GPIO) is None,
        r.props_of(TLE_CHAN_TRRS) is None,
        r.props_of(TleChannel::_7) is None,
{
    let linear_props = ChannelProps {
        mode: mode_linear,
        fault_enabled: false,
        short_to_batt_threshold: ShortToBatThreshold::_1_3V,
        short_to_batt_retry_time: 0,
        pwm_offset: 0,
        sample_method: false,
    };
    let shift_props = ChannelProps {
        mode: mode_shift,
        fault_enabled: false,
        short_to_batt_threshold: ShortToBatThreshold::_1_3V,
        short_to_batt_retry_time: 0,
        pwm_offset: 0,
        sample_method: false,
    };
    TleConfiguration::default()
        .with_props(TLE_CHAN_MPC, linear_props)
        .with_props(TLE_CHAN_SPC, linear_props)
        .with_props(TLE_CHAN_Y3, shift_props)
        .with_props(TLE_CHAN_Y4, shift_props)
        .with_props(TLE_CHAN_Y5, shift_props)
}

/// The current message for `ch` at driver value `val`, as a word.
pub open spec fn current_message(tle: Tle8242, ch: TleChannel, val: u16) -> Option<u32> {
    match tle.config().props_of(ch) {
        Some(p) => match p.mode {
            Mode::ConstantCurrent { dither_opts, .. } => {
                let w = crate::bitfield::set_field(crate::tle8242::chan_write_word(24, ch), 0, 11, val as u32);
                Some(match dither_opts {
                    Some(d) => crate::bitfield::set_field(w, 11, 11, d.step_size as u32),
                    None => w,
                })
            },
            Mode::Pwm { .. } => None,
        },
        None => None,
    }
}

/// The duty message for `ch` at `num / den` of its period, as a word.
pub open spec fn pwm_message(tle: Tle8242, ch: TleChannel, num: u32, den: u32) -> Option<u32> {
    match tle.config().props_of(ch) {
        Some(p) => match p.mode {
            Mode::Pwm { divn, .. } => Some(crate::bitfield::set_field(crate::tle8242::chan_write_word(64, ch), 0, 19,
                ((num * 32 * divn) as int / den as int) as u32)),
            Mode::ConstantCurrent { .. } => None,
        },
        None => None,
    }
}

/// The dither step size of a current controlled channel fits its field.
pub open spec fn dither_fits(tle: Tle8242, ch: TleChannel) -> bool {
    (tle.config().props_of(ch) matches Some(p) && p.mode is ConstantCurrent) ==> (
    tle.config().props_of(ch)->0.mode->dither_opts matches Some(d) ==> d.step_size < 2048)
}

/// The full duty of a direct PWM channel fits the duty field.
pub open spec fn pwm_fits(tle: Tle8242, ch: TleChannel) -> bool {
    (tle.config().props_of(ch) matches Some(p) && p.mode is Pwm) ==> 32 * tle.config().props_of(ch)->0.mode.spec_div_n()
        < 524288
}

/// Switching a shift valve: switched on from off, it goes fully on (full
/// duty) from `now_ms`; switched off from on, it goes off (zero duty);
/// otherwise nothing changes and no message is sent.
pub open spec fn valve_step(tle: Tle8242, ch: TleChannel, st: ShiftValveState, en: bool, now_ms: u64) -> (
    Option<u32>,
    ShiftValveState,
) {
    if en && st is Off {
        (pwm_message(tle, ch, 1, 1), ShiftValveState::FullOn(now_ms))
    } else if !en && !(st is Off) {
        (pwm_message(tle, ch, 0, 1), ShiftValveState::Off)
    } else {
        (None, st)
    }
}

/// Holding a shift valve: fully on for more than
/// [`SHIFT_VALVE_FULL_ON_MS`], it drops to a quarter duty and is held.
pub open spec fn hold_step(tle: Tle8242, ch: TleChannel, st: ShiftValveState, now_ms: u64) -> (
    Option<u32>,
    ShiftValveState,
) {
    match st {
        ShiftValveState::FullOn(t) => if now_ms - t > SHIFT_VALVE_FULL_ON_MS {
            (pwm_message(tle, ch, 1, 4), ShiftValveState::HoldOn)
        } else {
            (None, st)
        },
        _ => (None, st),
    }
}

/// An optional word as a sequence.
pub open spec fn opt_seq(m: Option<u32>) -> Seq<u32> {
    match m {
        Some(w) => seq![w],
        None => Seq::empty(),
    }
}

fn push_opt(out: &mut Vec<u32>, m: Option<u32>)
    ensures
        final(out)@ == old(out)@ + opt_seq(m),
{
    match m {
        Some(w) => {
            out.push(w);
        },
        None => {},
    }
    assert(out@ =~= old(out)@ + opt_seq(m));
}

fn pwm_word(tle: &Tle8242, ch: TleChannel, num: u32, den: u32) -> (r: Option<u32>)
    requires
        tle.config().wf(),
        0 < den,
        num <= den,
        pwm_fits(*tle, ch),
    ensures
        r == pwm_message(*tle, ch, num, den),
{
    proof {
        if tle.config().props_of(ch) is Some {
            let n = tle.config().props_of(ch)->0.mode.spec_div_n();
            assert((num * 32 * n) as int / (den as int) <= 32 * n) by (nonlinear_arith)
                requires
                    0 < den,
                    num <= den,
                    0 <= n,
            ;
        }
    }
    match tle.set_channel_pwm(ch, num, den) {
        Some(m) => Some(m.into_raw()),
        None => None,
    }
}

fn set_binary_valve(tle: &Tle8242, en: bool, ch: TleChannel, st: ShiftValveState, now_ms: u64) -> (r: (
    Option<u32>,
    ShiftValveState,
))
    requires
        tle.config().wf(),
        pwm_fits(*tle, ch),
    ensures
        r == valve_step(*tle, ch, st, en, now_ms),
{
    if en && !st.is_on() {
        (pwm_word(tle, ch, 1, 1), ShiftValveState::FullOn(now_ms))
    } else if !en && st.is_on() {
        (pwm_word(tle, ch, 0, 1), ShiftValveState::Off)
    } else {
        (None, st)
    }
}

fn hold_valve(tle: &Tle8242, ch: TleChannel, st: ShiftValveState, now_ms: u64) -> (r: (Option<u32>, ShiftValveState))
    requires
        tle.config().wf(),
        pwm_fits(*tle, ch),
        st matches ShiftValveState::FullOn(t) ==> t <= now_ms,
    ensures
        r == hold_step(*tle, ch, st, now_ms),
{
    match st {
        ShiftValveState::FullOn(t) => {
            if now_ms - t > SHIFT_VALVE_FULL_ON_MS {
                (pwm_word(tle, ch, 1, 4), ShiftValveState::HoldOn)
            } else {
                (None, st)
            }
        },
        _ => (None, st),
    }
}

/// Position of an output's channel in [`read_order`].
pub open spec fn read_position(c: TleChannel) -> int {
    if c == TLE_CHAN_Y3 {
        0
    } else if c == TLE_CHAN_Y4 {
        1
    } else if c == TLE_CHAN_Y5 {
        2
    } else if c == TLE_CHAN_MPC {
        3
    } else if c == TLE_CHAN_SPC {
        4
    } else if c == TLE_CHAN_TRRS {
        5
    } else {
        6
    }
}

/// The reading order holds every channel that drives an output (all
/// but channel 7) exactly once, so seven successful readings read each
/// output once and come back to the channel they started from.
pub proof fn lemma_read_cycle(i: int)
    requires
        0 <= i < 7,
    ensures
        (i + 7) % 7 == i,
        forall|c: TleChannel| c != TleChannel::_7 ==> 0 <= #[trigger] read_position(c) < 7 && read_order()[read_position(c)] == c,
        forall|j: int, k: int| 0 <= j < k < 7 ==> read_order()[j] != read_order()[k],
{
}

/// Switching a shift valve to the state it is in sends nothing and
/// changes nothing; switching it on and then off brings it back off.
pub proof fn lemma_valve_idempotent(tle: Tle8242, ch: TleChannel, st: ShiftValveState, now: u64, later: u64)
    ensures
        !(st is Off) ==> valve_step(tle, ch, st, true, now) == (None::<u32>, st),
        st is Off ==> valve_step(tle, ch, st, false, now) == (None::<u32>, st),
        st is Off ==> valve_step(tle, ch, valve_step(tle, ch, st, true, now).1, false, later).1 is Off,
{
}

} // verus!
