//! Conversion of the controller's analog readings: supply voltages through
//! their dividers, board and fluid temperatures through their sensor
//! tables, and the variable analog inputs.
use vstd::prelude::*;
use crate::maths::{interp, table_interp_spec, lemma_table_interp_bounds};

verus! {

/// Full scale of the 12 bit converters.
pub const MAX_ADC_VAL: u16 = 4095;

/// Pull-up of the transmission fluid temperature sensor (ohms).
pub const PULLUP_TFT_SENSOR: u32 = 2000;

/// Pull-up of the board temperature sensors (ohms).
pub const PULLUP_PCB_SENSOR: u32 = 12000;

/// State of the fluid temperature input.
#[derive(Clone, Copy, PartialEq, Eq, Structural)]
pub enum TftState {
    /// The parking lock is engaged (the input reads full scale).
    Pll,
    /// Temperature in degrees Celsius.
    Temperature(i8),
}

impl Default for TftState {
    fn default() -> (r: Self)
        ensures
            r == TftState::Pll,
    {
        TftState::Pll
    }
}

/// Processed sensor readings.
#[derive(Clone, Copy, PartialEq, Eq, Structural)]
pub struct SensorData {
    /// Fluid temperature input.
    pub tft: TftState,
    /// KL15 voltage (mV).
    pub vkl15: u16,
    /// Sensor supply voltage (mV).
    pub vsense: u16,
    /// KL87 voltage (mV).
    pub vkl87: u16,
    /// KL87 current (mA).
    pub ikl87: u16,
    /// Board temperature near the connector (degrees Celsius).
    pub t_pcb: i8,
    /// Board temperature near the solenoid driver (degrees Celsius).
    pub t_tle: i8,
}

impl Default for SensorData {
    fn default() -> (r: Self)
        ensures
            r == (SensorData { tft: TftState::Pll, vkl15: 0, vsense: 0, vkl87: 0, ikl87: 0, t_pcb: 0, t_tle: 0 }),
    {
        SensorData { tft: TftState::Pll, vkl15: 0, vsense: 0, vkl87: 0, ikl87: 0, t_pcb: 0, t_tle: 0 }
    }
}

/// Readings of the first converter.
#[derive(Clone, Copy)]
pub struct Adc0Result {
    /// Solenoid driver temperature sensor (0-4095).
    pub tsen_tle82423: u16,
    /// Board temperature sensor (0-4095).
    pub tsen_pcb: u16,
    /// Core voltage (mV).
    pub core_mv: u16,
    /// IO voltage (mV).
    pub io_mv: u16,
    /// Processor temperature (tenths of a degree).
    pub t_cpu: i16,
}

/// Readings of the second converter.
#[derive(Clone, Copy)]
pub struct Adc1Result {
    pub ac_p: u16,
    pub tft: u16,
    pub pmon_kl15: u16,
    pub pmon_kl87: u16,
    pub pmon_sens: u16,
    pub pmon_kl87_diag: u16,
}

/// Voltages of the variable analog inputs (mV); the optional ones are
/// `None` when not fitted.
#[derive(Clone, Copy)]
pub struct VariableInputVoltages {
    pub gpio_1_mv: Option<u16>,
    pub gpio_2_mv: Option<u16>,
    pub gpio_3_mv: Option<u16>,
    pub accel_m_brk_mv: u16,
}

/// The source voltage (mV) of a reading (0-4095 for 0-3.3 V) taken behind
/// a divider of `r1` (top) and `r2` (bottom) ohms: the divider ratio and
/// the measured voltage are each taken in thousandths, rounded down, before
/// dividing.
pub open spec fn source_mv(adc: u16, r1: u32, r2: u32) -> u16 {
    let div = (r2 as int * 1000) / (r1 as int + r2 as int);
    let v_out = 3300 * ((adc as int * 1000) / 4095);
    (v_out / div) as u16
}

/// The inputs [`adc_reading_to_source`] accepts: no overflow and a
/// divider ratio of at least one thousandth.
pub open spec fn divider_ok(r1: u32, r2: u32) -> bool {
    &&& r2 as int * 1000 <= u32::MAX
    &&& 0 < r1 as int + r2 as int <= u32::MAX
    &&& (r2 as int * 1000) / (r1 as int + r2 as int) > 0
}

/// Converts a reading behind a voltage divider to the source voltage
/// (mV).
pub fn adc_reading_to_source(adc: u16, r1: u32, r2: u32) -> (r: u16)
    requires
        divider_ok(r1, r2),
    ensures
        r == source_mv(adc, r1, r2),
{
    let div = (r2 * 1000) / (r1 + r2);
    proof {
        assert((adc as int * 1000) / 4095 <= 16003) by (nonlinear_arith)
            requires
                adc <= 65535,
        ;
    }
    let v_out = 3300 * (((adc as u32) * 1000) / 4095);
    (v_out / div) as u16
}

/// The table point for a sensor of `r_tsen` ohms under a pull-up of `r1`
/// ohms at `temp` degrees: the reading it gives and the temperature.
pub fn tft_resistance_to_adc_12bit(r1: u32, r_tsen: u32, temp: i16) -> (r: (i32, i32))
    requires
        4095 * r_tsen as int <= u32::MAX,
        0 < r1 as int + r_tsen as int <= u32::MAX,
    ensures
        r.0 == ((4095 * r_tsen as int) / (r1 as int + r_tsen as int)) as i32,
        r.1 == temp as i32,
{
    (((MAX_ADC_VAL as u32 * r_tsen) / (r1 + r_tsen)) as i32, temp as i32)
}

/// Resistances (ohms) and temperatures of the fluid temperature sensor
/// (KTY83/110).
pub open spec fn tft_points() -> Seq<(u32, i16)> {
    seq![(500u32, -55i16), (525, -50i16), (525, -50i16), (577, -40i16), (632, -30i16), (691, -20i16), (754, -10i16), (820, 0),
        (889, 10), (962, 20), (1000, 25), (1039, 30), (1118, 40), (1202, 50), (1288, 60), (1379, 70), (1472, 80),
        (1569, 90), (1670, 100), (1774, 110), (1882, 120), (1937, 125), (1993, 130), (2107, 140), (2225, 150),
        (2346, 160), (2471, 170), (2535, 175)]
}

/// Resistances (ohms) and temperatures of the board temperature sensors
/// (NTCG 0402).
pub open spec fn tsen_points() -> Seq<(u32, i16)> {
    seq![(534u32, 125i16), (599, 120), (760, 110), (975, 100), (1267, 90), (1668, 80), (2227, 70), (3019, 60),
        (4158, 50), (5826, 40), (6942, 35), (8312, 30), (10000, 25), (12090, 20), (14700, 15), (17960, 10),
        (22070, 5), (27280, 0), (33930, -5i16), (42450, -10i16), (67790, -20i16), (111300, -30i16), (188500, -40i16)]
}

/// A sensor table from its points under a pull-up.
pub open spec fn sensor_table(pullup: u32, pts: Seq<(u32, i16)>) -> Seq<(i32, i32)> {
    pts.map_values(|p: (u32, i16)| (((4095 * p.0 as int) / (pullup as int + p.0 as int)) as i32, p.1 as i32))
}

fn build_table(pullup: u32, pts: &[(u32, i16)]) -> (r: Vec<(i32, i32)>)
    requires
        pullup == 2000 || pullup == 12000,
        forall|i: int| 0 <= i < pts@.len() ==> pts@[i].0 <= 200000,
    ensures
        r@ == sensor_table(pullup, pts@),
{
    let n = pts.len();
    let mut out: Vec<(i32, i32)> = Vec::new();
    let mut i: usize = 0;
    while i < n
        invariant
            n == pts@.len(),
            i <= n,
            pullup == 2000 || pullup == 12000,
            forall|j: int| 0 <= j < pts@.len() ==> pts@[j].0 <= 200000,
            out@ == sensor_table(pullup, pts@.subrange(0, i as int)),
        decreases n - i,
    {
        let (res, temp) = pts[i];
        out.push(tft_resistance_to_adc_12bit(pullup, res, temp));
        proof {
            assert(sensor_table(pullup, pts@.subrange(0, i + 1)) =~= sensor_table(pullup, pts@.subrange(0, i as int)).push(
                (((4095 * res as int) / (pullup as int + res as int)) as i32, temp as i32)));
        }
        i = i + 1;
    }
    proof {
        assert(pts@.subrange(0, n as int) =~= pts@);
    }
    out
}

/// The fluid temperature table: readings and degrees Celsius.
pub fn tft_lookup() -> (r: Vec<(i32, i32)>)
    ensures
        r@ == sensor_table(PULLUP_TFT_SENSOR, tft_points()),
{
    let pts: [(u32, i16); 28] = [(500, -55), (525, -50), (525, -50), (577, -40), (632, -30), (691, -20), (754, -10), (820, 0),
        (889, 10), (962, 20), (1000, 25), (1039, 30), (1118, 40), (1202, 50), (1288, 60), (1379, 70), (1472, 80),
        (1569, 90), (1670, 100), (1774, 110), (1882, 120), (1937, 125), (1993, 130), (2107, 140), (2225, 150),
        (2346, 160), (2471, 170), (2535, 175)];
    assert(pts@ =~= tft_points());
    build_table(PULLUP_TFT_SENSOR, &pts)
}

/// The board temperature table: readings and degrees Celsius.
pub fn tsen_lookup() -> (r: Vec<(i32, i32)>)
    ensures
        r@ == sensor_table(PULLUP_PCB_SENSOR, tsen_points()),
{
    let pts: [(u32, i16); 23] = [(534, 125), (599, 120), (760, 110), (975, 100), (1267, 90), (1668, 80), (2227, 70),
        (3019, 60), (4158, 50), (5826, 40), (6942, 35), (8312, 30), (10000, 25), (12090, 20), (14700, 15), (17960, 10),
        (22070, 5), (27280, 0), (33930, -5), (42450, -10), (67790, -20), (111300, -30), (188500, -40)];
    assert(pts@ =~= tsen_points());
    build_table(PULLUP_PCB_SENSOR, &pts)
}

/// The divider ratio of the KL87 current sense output over temperature
/// (per ten thousand).
pub open spec fn bts_div_temp() -> Seq<(i32, i32)> {
    seq![(-40i32, 10_000i32), (25, 9700), (150, 9300)]
}

/// The KL87 current (mA) from its sense reading and the board temperature:
/// 0 for a reading under 10 or a KL87 voltage under 5 V, else
/// `reading / 4095 * 3.3 * scale` with the temperature dependent scale,
/// computed exactly and rounded down (capped to the `u16` range).
pub open spec fn kl87_current(diag: u16, vkl87: u16, temp_pcb: int) -> u16 {
    if diag < 10 || vkl87 < 5000 {
        0
    } else {
        let scale = table_interp_spec(temp_pcb, bts_div_temp());
        let v = diag as int * 33 * scale / 40950;
        if v < 0 { 0 } else if v > 65535 { 65535 } else { v as u16 }
    }
}

/// The sensor readings from the raw converter results.
pub open spec fn sensor_data_spec(adc0: Adc0Result, adc1: Adc1Result) -> SensorData {
    let tsen = sensor_table(PULLUP_PCB_SENSOR, tsen_points());
    let temp_tle = table_interp_spec(adc0.tsen_tle82423 as int, tsen);
    let temp_pcb = table_interp_spec(adc0.tsen_pcb as int, tsen);
    let tft = if adc1.tft > 4090 {
        TftState::Pll
    } else {
        TftState::Temperature(table_interp_spec(adc1.tft as int, sensor_table(PULLUP_TFT_SENSOR, tft_points())) as i8)
    };
    let vkl87 = source_mv(adc1.pmon_kl87, 12_000, 3_300);
    SensorData {
        tft,
        vkl15: source_mv(adc1.pmon_kl15, 12_000, 3_300),
        vsense: source_mv(adc1.pmon_sens, 10_000, 15_000),
        vkl87,
        ikl87: kl87_current(adc1.pmon_kl87_diag, vkl87, temp_pcb),
        t_pcb: temp_pcb as i8,
        t_tle: temp_tle as i8,
    }
}


/// The board temperature depends on the board sensor's reading alone and
/// the TLE8242 temperature on the TLE8242 sensor's reading alone: changing
/// every other reading leaves each unchanged, and both sensors read the
/// same temperature for the same reading.
pub proof fn lemma_temperatures_follow_their_sensor(a0: Adc0Result, a1: Adc1Result, b0: Adc0Result, b1: Adc1Result)
    ensures
        a0.tsen_pcb == b0.tsen_pcb ==> sensor_data_spec(a0, a1).t_pcb == sensor_data_spec(b0, b1).t_pcb,
        a0.tsen_tle82423 == b0.tsen_tle82423 ==> sensor_data_spec(a0, a1).t_tle == sensor_data_spec(b0, b1).t_tle,
        a0.tsen_pcb == b0.tsen_tle82423 ==> sensor_data_spec(a0, a1).t_pcb == sensor_data_spec(b0, b1).t_tle,
{
}

/// Each supply voltage and the fluid temperature depend on their own
/// reading alone; KL15 and KL87 sit behind the same divider, so the same
/// reading gives the same voltage; the KL87 current depends on its sense
/// reading, the KL87 voltage and the board temperature reading alone; a
/// fluid temperature reading above 4090 means the sensor is not there
/// (park or neutral).
pub proof fn lemma_readings_follow_their_input(a0: Adc0Result, a1: Adc1Result, b0: Adc0Result, b1: Adc1Result)
    ensures
        a1.tft == b1.tft ==> sensor_data_spec(a0, a1).tft == sensor_data_spec(b0, b1).tft,
        a1.pmon_kl15 == b1.pmon_kl15 ==> sensor_data_spec(a0, a1).vkl15 == sensor_data_spec(b0, b1).vkl15,
        a1.pmon_sens == b1.pmon_sens ==> sensor_data_spec(a0, a1).vsense == sensor_data_spec(b0, b1).vsense,
        a1.pmon_kl87 == b1.pmon_kl87 ==> sensor_data_spec(a0, a1).vkl87 == sensor_data_spec(b0, b1).vkl87,
        a1.pmon_kl15 == b1.pmon_kl87 ==> sensor_data_spec(a0, a1).vkl15 == sensor_data_spec(b0, b1).vkl87,
        (a1.pmon_kl87_diag == b1.pmon_kl87_diag && a1.pmon_kl87 == b1.pmon_kl87 && a0.tsen_pcb == b0.tsen_pcb)
            ==> sensor_data_spec(a0, a1).ikl87 == sensor_data_spec(b0, b1).ikl87,
        a1.tft > 4090 ==> sensor_data_spec(a0, a1).tft == TftState::Pll,
        a1.tft <= 4090 ==> sensor_data_spec(a0, a1).tft is Temperature,
{
}

/// Processes the raw converter results into sensor readings.
pub fn sensor_data_from(adc0: Adc0Result, adc1: Adc1Result) -> (r: SensorData)
    ensures
        r == sensor_data_spec(adc0, adc1),
{
    let tsen = tsen_lookup();
    let temp_tle8242 = interp(adc0.tsen_tle82423 as i32, tsen.as_slice());
    let temp_pcb = interp(adc0.tsen_pcb as i32, tsen.as_slice());
    let tft = if adc1.tft > 4090 {
        TftState::Pll
    } else {
        let tft_tab = tft_lookup();
        let temp = interp(adc1.tft as i32, tft_tab.as_slice());
        TftState::Temperature(temp as i8)
    };
    assert(divider_ok(12_000, 3_300)) by {
        assert(3_300int * 1000 / 15_300 == 215);
    }
    assert(divider_ok(10_000, 15_000)) by {
        assert(15_000int * 1000 / 25_000 == 600);
    }
    let vkl15 = adc_reading_to_source(adc1.pmon_kl15, 12_000, 3_300);
    let vsense = adc_reading_to_source(adc1.pmon_sens, 10_000, 15_000);
    let vkl87 = adc_reading_to_source(adc1.pmon_kl87, 12_000, 3_300);
    let ikl87 = if adc1.pmon_kl87_diag < 10 || vkl87 < 5000 {
        0u16
    } else {
        let bts: [(i32, i32); 3] = [(-40, 10_000), (25, 9700), (150, 9300)];
        assert(bts@ =~= bts_div_temp());
        let scale = interp(temp_pcb, &bts);
        proof {
            lemma_bts_scale_range(temp_pcb as int);
            let d = adc1.pmon_kl87_diag as int;
            assert(0 <= d * 33 * (scale as int) <= 65535 * 33 * 10000) by (nonlinear_arith)
                requires
                    0 <= d <= 65535,
                    9300 <= scale <= 10000,
            ;
        }
        let v = (adc1.pmon_kl87_diag as i64) * 33 * (scale as i64) / 40950;
        if v < 0 {
            0
        } else if v > 65535 {
            65535
        } else {
            v as u16
        }
    };
    SensorData { tft, vkl15, vsense, vkl87, ikl87, t_pcb: temp_pcb as i8, t_tle: temp_tle8242 as i8 }
}

proof fn lemma_bts_scale_range(t: int)
    ensures
        9300 <= table_interp_spec(t, bts_div_temp()) <= 10000,
{
    lemma_table_interp_bounds(t, bts_div_temp(), 9300, 10000);
}

/// The voltage (mV) of a variable analog input: readings within 40 of the
/// ends are taken as the ends, then converted through the wide range
/// divider (12 k over 3.3 k) or the narrow one (12 k over 23.3 k).
pub fn variable_input_mv(adc_res: u16, is_wide_range: bool) -> (r: u16)
    ensures
        ({
            let clamped: u16 = if adc_res > 4040 { 4095 } else if adc_res < 40 { 0 } else { adc_res };
            r == if is_wide_range { source_mv(clamped, 12_000, 3_300) } else { source_mv(clamped, 12_000, 23_300) }
        }),
{
    assert(divider_ok(12_000, 3_300)) by {
        assert(3_300int * 1000 / 15_300 == 215);
    }
    assert(divider_ok(12_000, 23_300)) by {
        assert(23_300int * 1000 / 35_300 == 660);
    }
    let adc = if adc_res > 4040 {
        4095
    } else if adc_res < 40 {
        0
    } else {
        adc_res
    };
    if is_wide_range {
        adc_reading_to_source(adc, 12_000, 3_300)
    } else {
        adc_reading_to_source(adc, 12_000, 23_300)
    }
}

} // verus!
