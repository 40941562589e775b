use nag52::bitfield::{read_field, write_field};
use nag52::gearbox::{
    sensor_report, slave_control_frame, slave_requests, solenoid_report, swap_bytes, EgsDeviceMode, RxFrame,
    SolenoidControl,
};
use nag52::sensors::{SensorData, TftState};
use nag52::solenoids::{
    reading_to_ma, solenoid_configuration, MonitoredOutputs, ShiftValveState, SolenoidControler, SolenoidOnOffReq,
    TLE_CHAN_MPC, TLE_CHAN_SPC, TLE_CHAN_Y3, TLE_CHAN_Y4,
};
use nag52::tcc_sol::TccSol;
use nag52::tle8242::{spi_frame, spi_reply, ChannelProps, DitherOpts, Mode, Tle8242, TleConfiguration};
use nag52::tle_commands::{
    AverageCurrentRead, ControlMode, DividerM, IcVersion, MainPeriodSet, PwmDutyCycle, ShortToBatThreshold, TleChannel,
    TleMsg,
};

fn cc_mode() -> Mode {
    Mode::ConstantCurrent {
        kp: 100,
        ki: 200,
        divm: DividerM::_128,
        divn: 312,
        dither_opts: Some(DitherOpts { step_size: 50, steps: 4 }),
    }
}

fn pwm_mode() -> Mode {
    Mode::Pwm { divm: DividerM::_512Or128, divn: 78 }
}

fn driver() -> Tle8242 {
    let mut t = Tle8242::new();
    t.init(solenoid_configuration(cc_mode(), pwm_mode()));
    t
}

#[test]
fn bitfields_read_back() {
    let w = write_field(0xFFFF_FFFF, 4, 3, 0b010);
    assert_eq!(read_field(w, 4, 3), 0b010);
    assert_eq!(read_field(w, 0, 4), 0xF);
    assert_eq!(read_field(w, 7, 8), 0xFF);
}

#[test]
fn tle_message_words() {
    let m = MainPeriodSet::new_with_id().with_write(true).with_channel_id(TleChannel::_5).with_divider_n(312);
    let w = m.raw_value();
    assert_eq!(w >> 31, 1);
    assert_eq!((w >> 24) & 0x7, 5);
    assert_eq!(w & 0x3FFF, 312);
    assert_eq!(m.divider_n(), 312);
    assert!(m.channel_id() == TleChannel::_5);
    assert_eq!(spi_frame(&m), w.to_be_bytes());
}

#[test]
fn tle_replies_checked_by_identifier() {
    let req = AverageCurrentRead::new_with_id().with_channel_id(TleChannel::_0);
    let good = req.raw_value() | (1 << 20) | 1234;
    let r = spi_reply(&req, good.to_be_bytes()).expect("accepted");
    // 1234 steps of a dithered pressure solenoid: 1234 * 6400 / 32768 mA.
    assert_eq!(Tle8242::avg_current_of(TleChannel::_0, r), Some(241));
    // The same reading on a shift valve: 1234 * 6400 / 8192 mA.
    assert_eq!(Tle8242::avg_current_of(TleChannel::_6, r), Some(964));
    let stale = IcVersion::new_with_id().raw_value();
    assert!(spi_reply(&req, stale.to_be_bytes()).is_none());
    // A write gets no reply.
    let w = PwmDutyCycle::new_with_id().with_write(true);
    assert!(spi_reply(&w, w.raw_value().to_be_bytes()).is_none());
    let invalid = AverageCurrentRead::new_with_raw_value(req.raw_value() | 99);
    assert_eq!(Tle8242::avg_current_of(TleChannel::_0, invalid), None);
}

#[test]
fn tle_init_sequence() {
    let mut t = Tle8242::new();
    let words = t.init(solenoid_configuration(cc_mode(), pwm_mode()));
    // Version query, SPC (period, gains, dither, auto zero), Y4 (period,
    // auto zero), Y5, MPC, Y3, then the fault configuration.
    assert_eq!(words.len(), 1 + 4 + 2 + 2 + 4 + 2 + 1);
    assert_eq!(words[0], IcVersion::new_with_id().raw_value());
    let fault = *words.last().unwrap();
    // Channels 0, 5 are current controlled (0), 1, 4, 6 direct PWM (1);
    // the bit of channel c is 16 + 7 - c.
    assert_eq!((fault >> (16 + 7 - 0)) & 1, 0);
    assert_eq!((fault >> (16 + 7 - 1)) & 1, 1);
    assert_eq!((fault >> (16 + 7 - 6)) & 1, 1);
}

#[test]
fn tle_current_and_pwm_messages() {
    let t = driver();
    let m = t.set_channel_current(TLE_CHAN_SPC, 1000).expect("current controlled");
    assert_eq!(m.raw_value() & 0x7FF, 1000);
    assert_eq!((m.raw_value() >> 11) & 0x7FF, 50);
    assert!(t.set_channel_current(TLE_CHAN_Y3, 1000).is_none());
    let p = t.set_channel_pwm(TLE_CHAN_Y3, 1, 4).expect("direct PWM");
    assert_eq!(p.raw_value() & 0x7FFFF, 32 * 78 / 4);
    assert!(t.set_channel_pwm(TLE_CHAN_MPC, 1, 1).is_none());
    assert!(t.set_channel_pwm(TleChannel::_7, 1, 1).is_none());
}

#[test]
fn configuration_with_props() {
    let props = ChannelProps {
        mode: pwm_mode(),
        fault_enabled: true,
        short_to_batt_threshold: ShortToBatThreshold::_1_3V,
        short_to_batt_retry_time: 0,
        pwm_offset: 0,
        sample_method: false,
    };
    let cfg = TleConfiguration::default().with_props(TleChannel::_2, props);
    let mut t = Tle8242::new();
    let words = t.init(cfg);
    assert_eq!(words.len(), 1 + 2 + 1);
    assert!(pwm_mode().to_ctrl_mode() == ControlMode::Pwm);
    assert!(cc_mode().div_m() == DividerM::_128);
    assert_eq!(cc_mode().div_n(), 312);
}

#[test]
fn shift_valves_full_then_hold() {
    let mut c = SolenoidControler::new(driver());
    let on = c.set_y3(true, 1000).expect("message");
    assert_eq!(on & 0x7FFFF, 32 * 78);
    assert!(c.set_y3(true, 1100).is_none());
    assert!(c.is_channel_on(TLE_CHAN_Y3));
    assert!(c.update_task(1200).is_empty());
    let held = c.update_task(1300);
    assert_eq!(held.len(), 1);
    assert_eq!(held[0] & 0x7FFFF, 32 * 78 / 4);
    let off = c.set_y3(false, 1400).expect("message");
    assert_eq!(off & 0x7FFFF, 0);
    assert!(!c.is_channel_on(TLE_CHAN_Y3));
}

#[test]
fn pressure_currents_only_sent_on_change() {
    let mut c = SolenoidControler::new(driver());
    let m = c.set_spc_current(1000).expect("message");
    assert_eq!(m & 0x7FF, 320);
    assert!(c.set_spc_current(1000).is_none());
    assert!(c.set_mpc_current(25).is_some());
    assert!(c.is_channel_on(TLE_CHAN_MPC));
    assert!(c.set_mpc_current(0).is_some());
    assert!(!c.is_channel_on(TLE_CHAN_MPC));
}

#[test]
fn current_readings_cycle() {
    let mut c = SolenoidControler::new(driver());
    // Y3 is off: no request, its reading is 0 and Y4 comes next.
    assert!(c.current_read_request().is_none());
    c.update_current_readings(None);
    assert!(c.current_read_request().is_none());
    c.set_y4(true, 0);
    assert!(c.current_read_request() == Some(TLE_CHAN_Y4));
    // No valid reading: stays on Y4.
    c.update_current_readings(None);
    assert!(c.current_read_request() == Some(TLE_CHAN_Y4));
    c.update_current_readings(Some(6400));
    assert_eq!(c.read_y4_current(), 6400);
    assert_eq!(c.read_y3_current(), 0);
}

#[test]
fn reading_conversion() {
    assert_eq!(reading_to_ma(TLE_CHAN_SPC, 32768), 6400);
    assert_eq!(reading_to_ma(TLE_CHAN_Y3, 8192), 6400);
    assert_eq!(reading_to_ma(TLE_CHAN_Y3, (1 << 20) - 1), 65535);
    assert_eq!(reading_to_ma(TleChannel::_3, 5000), 0);
    let mut m = MonitoredOutputs::default();
    m.set_current(TLE_CHAN_MPC, 700);
    assert_eq!(m.mpc_current, 700);
    m.set_current(TleChannel::_7, 9);
    assert_eq!(m.mpc_current, 700);
}

#[test]
fn valve_state_and_requests() {
    assert!(!ShiftValveState::Off.is_on());
    assert!(ShiftValveState::FullOn(3).is_on());
    assert!(ShiftValveState::HoldOn.is_on());
    let r = SolenoidOnOffReq::new_with_raw_value(0b1010);
    assert!(!r.y3() && r.y4() && !r.y5() && r.trrs());
}

#[test]
fn tcc_phases() {
    let mut t = TccSol::new(1000, 40000);
    t.write_tcc_sol(1000);
    assert_eq!(t.on_tcc_ovf(0).duty, 0);
    t.write_tcc_sol(63000);
    assert_eq!(t.on_tcc_ovf(0).duty, 250);
    // 20 % on: 8000 counts, inrush capped at 10000 -> only inrush.
    t.write_tcc_sol(13107);
    let p = t.on_tcc_ovf(0);
    assert_eq!((p.watch_1, p.watch_2, p.duty), (u32::MAX, 8000, 990));
    // 50 % on: inrush 10000, then hold until 20000.
    t.write_tcc_sol(32768);
    let p = t.on_tcc_ovf(0);
    assert_eq!((p.watch_1, p.watch_2), (10000, u32::MAX));
    assert_eq!(t.on_tcc_mc2(), 250);
    assert_eq!(t.on_tcc_mc1(), 0);
    // Observed duty from the feedback count.
    t.on_tcc_ovf(20000);
    assert_eq!(t.get_observed_pwm(), 32767);
    t.write_tcc_sol(100);
    assert_eq!(t.get_observed_pwm(), 100);
}

#[test]
fn device_mode_flags() {
    let m = EgsDeviceMode::from_bits_retain(EgsDeviceMode::SLAVE | EgsDeviceMode::NORMAL);
    assert!(m.contains(EgsDeviceMode::SLAVE));
    assert!(m.solenoid_output_allowed());
    let e = EgsDeviceMode::from_bits_retain(EgsDeviceMode::UNDERVOLTAGE_EMERGENCY);
    assert!(!e.solenoid_output_allowed());
    assert_eq!(e.bits(), 0x80);
}

#[test]
fn rx_frames_time_out() {
    let mut f = RxFrame::new(0u32);
    assert_eq!(f.get(10, 100), None);
    assert!(!f.has_been_seen());
    f.write(7, 50);
    assert_eq!(f.get(150, 100), Some(7));
    assert_eq!(f.get(151, 100), None);
    assert!(f.has_been_seen());
}

#[test]
fn slave_mode_frames() {
    let ctrl = SolenoidControl { spc_req: 0xE803, mpc_req: 0x0100, tcc_req: 0x80, y_3_en: true, y_4_en: false, y_5_en: false };
    assert_eq!(slave_requests(ctrl), (1000, 1, 0x8000));
    assert_eq!(swap_bytes(0x1234), 0x3412);
    let mut f = RxFrame::new(SolenoidControl::zero());
    assert!(slave_control_frame(&f, 10) == SolenoidControl::zero());
    f.write(ctrl, 10);
    assert!(slave_control_frame(&f, 100) == ctrl);
    assert!(slave_control_frame(&f, 111) == SolenoidControl::zero());
    let r = solenoid_report(1000, 1, 0x8000, 150, 20, 101);
    assert_eq!((r.spc_curr, r.mpc_curr, r.tcc_pwm), (0xE803, 0x0100, 0x80));
    assert!(r.y_3_on && !r.y_4_on && r.y_5_on);
    let mut data = SensorData::default();
    assert_eq!(sensor_report(&data).tft, 0xFF);
    data.tft = TftState::Temperature(40);
    data.vkl15 = 12_345;
    data.ikl87 = 77;
    let s = sensor_report(&data);
    assert_eq!((s.tft, s.vbatt, s.n_2_raw), (90, 123, 77));
    // Hot fluid: 110 °C goes out as 160.
    data.tft = TftState::Temperature(110);
    assert_eq!(sensor_report(&data).tft, 160);
    data.tft = TftState::Temperature(-40);
    assert_eq!(sensor_report(&data).tft, 10);
}
