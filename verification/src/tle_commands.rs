//! SPI message layouts of the TLE8242 solenoid driver.
//!
//! Messages come in three forms: global messages, messages for channels 0-3
//! or 4-7, and per-channel messages. Each is a 32 bit word; bit 31 selects a
//! write, bits 24 to 30 hold the message identifier (for per-channel
//! messages bits 24 to 26 are the channel), the rest are the message fields.
use vstd::prelude::*;
use crate::bitfield::{get_field, set_field, read_field, write_field, lemma_get_set_same, lemma_get_set_other};
use vstd::arithmetic::power2::lemma2_to64;

verus! {

/// The bits that identify a message.
pub const CMD_MATCH_MASK: u32 = 0b0111_1111_0000_0000_0000_0000_0000_0000;
/// The write bit.
pub const WRITE_MATCH_MASK: u32 = 0b1000_0000_0000_0000_0000_0000_0000_0000;

/// The raw word of a new message with identifier `id`.
pub open spec fn id_word(id: u32) -> u32 {
    ((id << 24u32) & CMD_MATCH_MASK) as u32
}

fn make_id_word(id: u32) -> (r: u32)
    ensures
        r == id_word(id),
{
    (id << 24) & CMD_MATCH_MASK
}

/// A TLE8242 message word.
pub trait TleMsg: Copy + Sized {
    /// The raw word.
    spec fn spec_raw(&self) -> u32;

    /// The message with the given raw word.
    fn from_raw(val: u32) -> (r: Self)
        ensures
            r.spec_raw() == val,
    ;

    /// The raw word.
    fn into_raw(&self) -> (r: u32)
        ensures
            r == self.spec_raw(),
    ;

    /// Whether `other` carries the same message identifier.
    fn id_match(&self, other: u32) -> (r: bool)
        ensures
            r == (self.spec_raw() & CMD_MATCH_MASK == other & CMD_MATCH_MASK),
    ;

    /// Whether the message reads rather than writes.
    fn is_read(&self) -> (r: bool)
        ensures
            r == (self.spec_raw() & WRITE_MATCH_MASK == 0),
    ;
}

/// Writing a field that lies below bit 24 keeps the message identifier
/// and the write bit.
pub proof fn lemma_field_keeps_id(raw: u32, lo: u32, w: u32, v: u32)
    requires
        1 <= w <= 24,
        lo + w <= 24,
    ensures
        set_field(raw, lo, w, v) & CMD_MATCH_MASK == raw & CMD_MATCH_MASK,
        set_field(raw, lo, w, v) & WRITE_MATCH_MASK == raw & WRITE_MATCH_MASK,
{
    assert((((raw & !((((1u32 << w) - 1) as u32) << lo)) | ((v & (((1u32 << w) - 1) as u32)) << lo)) & 0b0111_1111_0000_0000_0000_0000_0000_0000u32) == raw & 0b0111_1111_0000_0000_0000_0000_0000_0000u32) by (bit_vector)
        requires
            1 <= w <= 24,
            lo + w <= 24,
    ;
    assert((((raw & !((((1u32 << w) - 1) as u32) << lo)) | ((v & (((1u32 << w) - 1) as u32)) << lo)) & 0b1000_0000_0000_0000_0000_0000_0000_0000u32) == raw & 0b1000_0000_0000_0000_0000_0000_0000_0000u32) by (bit_vector)
        requires
            1 <= w <= 24,
            lo + w <= 24,
    ;
}

/// A new message reads, and setting its write bit makes it write while
/// keeping its identifier.
pub proof fn lemma_write_bit(id: u32, b: bool)
    ensures
        id_word(id) & WRITE_MATCH_MASK == 0,
        set_field(id_word(id), 31, 1, b as u32) & CMD_MATCH_MASK == id_word(id) & CMD_MATCH_MASK,
        (set_field(id_word(id), 31, 1, b as u32) & WRITE_MATCH_MASK == 0) == !b,
{
    let x = b as u32;
    assert(x == 0 || x == 1);
    assert((((id << 24u32) & 0b0111_1111_0000_0000_0000_0000_0000_0000u32) & 0b1000_0000_0000_0000_0000_0000_0000_0000u32) == 0) by (bit_vector);
    assert(((((((id << 24u32) & 0b0111_1111_0000_0000_0000_0000_0000_0000u32)) & !((((1u32 << 1u32) - 1) as u32) << 31u32)) | ((x & (((1u32 << 1u32) - 1) as u32)) << 31u32)) & 0b0111_1111_0000_0000_0000_0000_0000_0000u32) == ((id << 24u32) & 0b0111_1111_0000_0000_0000_0000_0000_0000u32) & 0b0111_1111_0000_0000_0000_0000_0000_0000u32) by (bit_vector);
    assert(((((((id << 24u32) & 0b0111_1111_0000_0000_0000_0000_0000_0000u32)) & !((((1u32 << 1u32) - 1) as u32) << 31u32)) | ((x & (((1u32 << 1u32) - 1) as u32)) << 31u32)) & 0b1000_0000_0000_0000_0000_0000_0000_0000u32 == 0) == (x == 0)) by (bit_vector)
        requires
            x == 0 || x == 1,
    ;
}

/// TLE channel number.
#[derive(Clone, Copy, PartialEq, Eq, Structural, Debug)]
pub enum TleChannel {
    /// Channel 0 (OUT0 - Pin 60)
    _0,
    /// Channel 1 (OUT1 - Pin 59)
    _1,
    /// Channel 2 (OUT2 - Pin 55)
    _2,
    /// Channel 3 (OUT3 - Pin 54)
    _3,
    /// Channel 4 (OUT4 - Pin 21)
    _4,
    /// Channel 5 (OUT5 - Pin 22)
    _5,
    /// Channel 6 (OUT6 - Pin 26)
    _6,
    /// Channel 7 (OUT7 - Pin 27)
    _7,
}

impl TleChannel {
    /// The 3 bit value of the variant.
    pub open spec fn spec_raw(&self) -> u32 {
        match self {
            TleChannel::_0 => 0,
            TleChannel::_1 => 1,
            TleChannel::_2 => 2,
            TleChannel::_3 => 3,
            TleChannel::_4 => 4,
            TleChannel::_5 => 5,
            TleChannel::_6 => 6,
            TleChannel::_7 => 7,
        }
    }

    /// The 3 bit value of the variant.
    pub fn raw_value(&self) -> (r: u32)
        ensures
            r == self.spec_raw(),
            r < 8,
    {
        match self {
            TleChannel::_0 => 0,
            TleChannel::_1 => 1,
            TleChannel::_2 => 2,
            TleChannel::_3 => 3,
            TleChannel::_4 => 4,
            TleChannel::_5 => 5,
            TleChannel::_6 => 6,
            TleChannel::_7 => 7,
        }
    }

    /// The variant with the given 3 bit value.
    pub fn new_with_raw_value(value: u32) -> (r: Self)
        requires
            value < 8,
        ensures
            r.spec_raw() == value,
    {
        if value == 0 {
            TleChannel::_0
        } else if value == 1 {
            TleChannel::_1
        } else if value == 2 {
            TleChannel::_2
        } else if value == 3 {
            TleChannel::_3
        } else if value == 4 {
            TleChannel::_4
        } else if value == 5 {
            TleChannel::_5
        } else if value == 6 {
            TleChannel::_6
        } else {
            TleChannel::_7
        }
    }
}

/// Channel control mode (see [`CtrlMethodFaultMaskCfg`]).
#[derive(Clone, Copy, PartialEq, Eq, Structural, Debug)]
pub enum ControlMode {
    /// Current control mode
    CurrentControl,
    /// Direct PWM mode
    Pwm,
}

impl ControlMode {
    /// The 1 bit value of the variant.
    pub open spec fn spec_raw(&self) -> u32 {
        match self {
            ControlMode::CurrentControl => 0,
            ControlMode::Pwm => 1,
        }
    }

    /// The 1 bit value of the variant.
    pub fn raw_value(&self) -> (r: u32)
        ensures
            r == self.spec_raw(),
            r < 2,
    {
        match self {
            ControlMode::CurrentControl => 0,
            ControlMode::Pwm => 1,
        }
    }

    /// The variant with the given 1 bit value.
    pub fn new_with_raw_value(value: u32) -> (r: Self)
        requires
            value < 2,
        ensures
            r.spec_raw() == value,
    {
        if value == 0 {
            ControlMode::CurrentControl
        } else {
            ControlMode::Pwm
        }
    }
}

/// Diagnostic timer configuration.
#[derive(Clone, Copy, PartialEq, Eq, Structural, Debug)]
pub enum DiagnosticTimer {
    /// Pre divider of 128, nFault of 10..11
    Div128nFault10_11,
    /// Pre divider of 192, nFault of 10..11
    Div192nFault10_11,
    /// Pre divider of 128, nFault of 2..3
    Div128nFault02_03,
    /// Pre divider of 256, nFault of 10..11
    Div256nFault10_11,
}

impl DiagnosticTimer {
    /// The 2 bit value of the variant.
    pub open spec fn spec_raw(&self) -> u32 {
        match self {
            DiagnosticTimer::Div128nFault10_11 => 0,
            DiagnosticTimer::Div192nFault10_11 => 1,
            DiagnosticTimer::Div128nFault02_03 => 2,
            DiagnosticTimer::Div256nFault10_11 => 3,
        }
    }

    /// The 2 bit value of the variant.
    pub fn raw_value(&self) -> (r: u32)
        ensures
            r == self.spec_raw(),
            r < 4,
    {
        match self {
            DiagnosticTimer::Div128nFault10_11 => 0,
            DiagnosticTimer::Div192nFault10_11 => 1,
            DiagnosticTimer::Div128nFault02_03 => 2,
            DiagnosticTimer::Div256nFault10_11 => 3,
        }
    }

    /// The variant with the given 2 bit value.
    pub fn new_with_raw_value(value: u32) -> (r: Self)
        requires
            value < 4,
        ensures
            r.spec_raw() == value,
    {
        if value == 0 {
            DiagnosticTimer::Div128nFault10_11
        } else if value == 1 {
            DiagnosticTimer::Div192nFault10_11
        } else if value == 2 {
            DiagnosticTimer::Div128nFault02_03
        } else {
            DiagnosticTimer::Div256nFault10_11
        }
    }
}

/// Short to battery threshold voltage.
#[derive(Clone, Copy, PartialEq, Eq, Structural, Debug)]
pub enum ShortToBatThreshold {
    /// 0.7V
    _0_7V,
    /// 0.9V
    _0_9V,
    /// 1.1V
    _1_1V,
    /// 1.3V
    _1_3V,
}

impl ShortToBatThreshold {
    /// The 2 bit value of the variant.
    pub open spec fn spec_raw(&self) -> u32 {
        match self {
            ShortToBatThreshold::_0_7V => 0,
            ShortToBatThreshold::_0_9V => 1,
            ShortToBatThreshold::_1_1V => 2,
            ShortToBatThreshold::_1_3V => 3,
        }
    }

    /// The 2 bit value of the variant.
    pub fn raw_value(&self) -> (r: u32)
        ensures
            r == self.spec_raw(),
            r < 4,
    {
        match self {
            ShortToBatThreshold::_0_7V => 0,
            ShortToBatThreshold::_0_9V => 1,
            ShortToBatThreshold::_1_1V => 2,
            ShortToBatThreshold::_1_3V => 3,
        }
    }

    /// The variant with the given 2 bit value.
    pub fn new_with_raw_value(value: u32) -> (r: Self)
        requires
            value < 4,
        ensures
            r.spec_raw() == value,
    {
        if value == 0 {
            ShortToBatThreshold::_0_7V
        } else if value == 1 {
            ShortToBatThreshold::_0_9V
        } else if value == 2 {
            ShortToBatThreshold::_1_1V
        } else {
            ShortToBatThreshold::_1_3V
        }
    }
}

/// Divider M: the number of A/D samples per PWM period.
#[derive(Clone, Copy, PartialEq, Eq, Structural, Debug)]
pub enum DividerM {
    /// 32 A/D samples per PWM period
    _32,
    /// 64 A/D samples per PWM period
    _64,
    /// 128 A/D samples per PWM period
    _128,
    /// 512 A/D samples per PWM period in direct PWM mode, 128 in current control mode
    _512Or128,
}

impl DividerM {
    /// The 2 bit value of the variant.
    pub open spec fn spec_raw(&self) -> u32 {
        match self {
            DividerM::_32 => 0,
            DividerM::_64 => 1,
            DividerM::_128 => 2,
            DividerM::_512Or128 => 3,
        }
    }

    /// The 2 bit value of the variant.
    pub fn raw_value(&self) -> (r: u32)
        ensures
            r == self.spec_raw(),
            r < 4,
    {
        match self {
            DividerM::_32 => 0,
            DividerM::_64 => 1,
            DividerM::_128 => 2,
            DividerM::_512Or128 => 3,
        }
    }

    /// The variant with the given 2 bit value.
    pub fn new_with_raw_value(value: u32) -> (r: Self)
        requires
            value < 4,
        ensures
            r.spec_raw() == value,
    {
        if value == 0 {
            DividerM::_32
        } else if value == 1 {
            DividerM::_64
        } else if value == 2 {
            DividerM::_128
        } else {
            DividerM::_512Or128
        }
    }
}

/// Sample summation method.
#[derive(Clone, Copy, PartialEq, Eq, Structural, Debug)]
pub enum SummationMethod {
    /// Use all values of samples
    UseAllSamples,
    /// Throw out the first A/D samples after an OUTx pin transition and use the previous samples twice in the average
    ThrowOut,
}

impl SummationMethod {
    /// The 1 bit value of the variant.
    pub open spec fn spec_raw(&self) -> u32 {
        match self {
            SummationMethod::UseAllSamples => 0,
            SummationMethod::ThrowOut => 1,
        }
    }

    /// The 1 bit value of the variant.
    pub fn raw_value(&self) -> (r: u32)
        ensures
            r == self.spec_raw(),
            r < 2,
    {
        match self {
            SummationMethod::UseAllSamples => 0,
            SummationMethod::ThrowOut => 1,
        }
    }

    /// The variant with the given 1 bit value.
    pub fn new_with_raw_value(value: u32) -> (r: Self)
        requires
            value < 2,
        ensures
            r.spec_raw() == value,
    {
        if value == 0 {
            SummationMethod::UseAllSamples
        } else {
            SummationMethod::ThrowOut
        }
    }
}

impl DividerM {
    /// The number of A/D samples per PWM period; the last divider means 128
    /// in current control mode and 512 in direct PWM mode.
    pub open spec fn spec_value(&self, is_cc_mode: bool) -> u16 {
        match self {
            DividerM::_32 => 32,
            DividerM::_64 => 64,
            DividerM::_128 => 128,
            DividerM::_512Or128 => if is_cc_mode { 128 } else { 512 },
        }
    }

    /// The number of A/D samples per PWM period.
    pub fn get_value(&self, is_cc_mode: bool) -> (r: u16)
        ensures
            r == self.spec_value(is_cc_mode),
    {
        match self {
            DividerM::_32 => 32,
            DividerM::_64 => 64,
            DividerM::_128 => 128,
            DividerM::_512Or128 => {
                if is_cc_mode {
                    128
                } else {
                    512
                }
            },
        }
    }
}

impl Default for DiagnosticTimer {
    fn default() -> (r: Self)
        ensures
            r == DiagnosticTimer::Div128nFault10_11,
    {
        DiagnosticTimer::Div128nFault10_11
    }
}

/// IC version.
#[derive(Clone, Copy)]
pub struct IcVersion {
    raw_value: u32,
}

impl IcVersion {
    /// The raw word.
    pub closed spec fn raw(&self) -> u32 {
        self.raw_value
    }

    /// The message with the given raw word.
    pub fn new_with_raw_value(raw_value: u32) -> (r: Self)
        ensures
            r.raw() == raw_value,
    {
        IcVersion { raw_value }
    }

    /// The raw word.
    pub fn raw_value(&self) -> (r: u32)
        ensures
            r == self.raw(),
    {
        self.raw_value
    }

    /// A new message with the message identifier set.
    pub fn new_with_id() -> (r: Self)
        ensures
            r.raw() == id_word(0),
    {
        Self::new_with_raw_value(make_id_word(0))
    }

    /// IC manufacturer (0b1100_0001 for Infineon).
    pub fn ic_manf_id(&self) -> (r: u8)
        ensures
            r as u32 == get_field(self.raw(), 16u32, 8),
            r < 256,
    {
        let v = read_field(self.raw_value, 16, 8);
        proof {
            lemma2_to64();
        }
        v as u8
    }

    /// IC version number.
    pub fn version_number(&self) -> (r: u8)
        ensures
            r as u32 == get_field(self.raw(), 8u32, 8),
            r < 256,
    {
        let v = read_field(self.raw_value, 8, 8);
        proof {
            lemma2_to64();
        }
        v as u8
    }

}

impl TleMsg for IcVersion {
    open spec fn spec_raw(&self) -> u32 {
        self.raw()
    }

    fn from_raw(val: u32) -> (r: Self) {
        Self::new_with_raw_value(val)
    }

    fn into_raw(&self) -> (r: u32) {
        self.raw_value
    }

    fn id_match(&self, other: u32) -> (r: bool) {
        self.raw_value & CMD_MATCH_MASK == other & CMD_MATCH_MASK
    }

    fn is_read(&self) -> (r: bool) {
        self.raw_value & WRITE_MATCH_MASK == 0
    }
}

/// Control method and fault mask configuration.
#[derive(Clone, Copy)]
pub struct CtrlMethodFaultMaskCfg {
    raw_value: u32,
}

impl CtrlMethodFaultMaskCfg {
    /// The raw word.
    pub closed spec fn raw(&self) -> u32 {
        self.raw_value
    }

    /// The message with the given raw word.
    pub fn new_with_raw_value(raw_value: u32) -> (r: Self)
        ensures
            r.raw() == raw_value,
    {
        CtrlMethodFaultMaskCfg { raw_value }
    }

    /// The raw word.
    pub fn raw_value(&self) -> (r: u32)
        ensures
            r == self.raw(),
    {
        self.raw_value
    }

    /// A new message with the message identifier set.
    pub fn new_with_id() -> (r: Self)
        ensures
            r.raw() == id_word(1),
    {
        Self::new_with_raw_value(make_id_word(1))
    }

    /// Write rather than read.
    pub fn write(&self) -> (r: bool)
        ensures
            r == (get_field(self.raw(), 31u32, 1) == 1),
    {
        let v = read_field(self.raw_value, 31, 1);
        v == 1
    }

    /// The message with write rather than read replaced.
    pub fn with_write(&self, field_value: bool) -> (r: Self)
        ensures
            r.raw() == set_field(self.raw(), 31u32, 1, field_value as u32),
    {
        CtrlMethodFaultMaskCfg { raw_value: write_field(self.raw_value, 31, 1, (if field_value { 1u32 } else { 0u32 })) }
    }

    /// Replaces write rather than read.
    pub fn set_write(&mut self, field_value: bool)
        ensures
            final(self).raw() == set_field(old(self).raw(), 31u32, 1, field_value as u32),
    {
        self.raw_value = write_field(self.raw_value, 31, 1, (if field_value { 1u32 } else { 0u32 }));
    }

    /// Control mode of channel x (entry `index`).
    pub fn cmx(&self, index: usize) -> (r: ControlMode)
        requires
            index < 8,
        ensures
            r.spec_raw() == get_field(self.raw(), (16 + index * 1) as u32, 1),
    {
        let v = read_field(self.raw_value, (16 + index * 1) as u32, 1);
        proof {
            lemma2_to64();
        }
        ControlMode::new_with_raw_value(v)
    }

    /// The message with control mode of channel x (entry `index`) replaced.
    pub fn with_cmx(&self, index: usize, field_value: ControlMode) -> (r: Self)
        requires
            index < 8,
        ensures
            r.raw() == set_field(self.raw(), (16 + index * 1) as u32, 1, field_value.spec_raw()),
    {
        CtrlMethodFaultMaskCfg { raw_value: write_field(self.raw_value, (16 + index * 1) as u32, 1, field_value.raw_value()) }
    }

    /// Replaces control mode of channel x (entry `index`).
    pub fn set_cmx(&mut self, index: usize, field_value: ControlMode)
        requires
            index < 8,
        ensures
            final(self).raw() == set_field(old(self).raw(), (16 + index * 1) as u32, 1, field_value.spec_raw()),
    {
        self.raw_value = write_field(self.raw_value, (16 + index * 1) as u32, 1, field_value.raw_value());
    }

    /// A fault on channel x drives the FAULT pin (entry `index`).
    pub fn fmx(&self, index: usize) -> (r: bool)
        requires
            index < 8,
        ensures
            r == (get_field(self.raw(), (8 + index * 1) as u32, 1) == 1),
    {
        let v = read_field(self.raw_value, (8 + index * 1) as u32, 1);
        v == 1
    }

    /// The message with a fault on channel x drives the FAULT pin (entry `index`) replaced.
    pub fn with_fmx(&self, index: usize, field_value: bool) -> (r: Self)
        requires
            index < 8,
        ensures
            r.raw() == set_field(self.raw(), (8 + index * 1) as u32, 1, field_value as u32),
    {
        CtrlMethodFaultMaskCfg { raw_value: write_field(self.raw_value, (8 + index * 1) as u32, 1, (if field_value { 1u32 } else { 0u32 })) }
    }

    /// Replaces a fault on channel x drives the FAULT pin (entry `index`).
    pub fn set_fmx(&mut self, index: usize, field_value: bool)
        requires
            index < 8,
        ensures
            final(self).raw() == set_field(old(self).raw(), (8 + index * 1) as u32, 1, field_value as u32),
    {
        self.raw_value = write_field(self.raw_value, (8 + index * 1) as u32, 1, (if field_value { 1u32 } else { 0u32 }));
    }

    /// Fault mask enable for the RESET_B pin.
    pub fn fmr(&self) -> (r: bool)
        ensures
            r == (get_field(self.raw(), 7u32, 1) == 1),
    {
        let v = read_field(self.raw_value, 7, 1);
        v == 1
    }

    /// The message with fault mask enable for the RESET_B pin replaced.
    pub fn with_fmr(&self, field_value: bool) -> (r: Self)
        ensures
            r.raw() == set_field(self.raw(), 7u32, 1, field_value as u32),
    {
        CtrlMethodFaultMaskCfg { raw_value: write_field(self.raw_value, 7, 1, (if field_value { 1u32 } else { 0u32 })) }
    }

    /// Replaces fault mask enable for the RESET_B pin.
    pub fn set_fmr(&mut self, field_value: bool)
        ensures
            final(self).raw() == set_field(old(self).raw(), 7u32, 1, field_value as u32),
    {
        self.raw_value = write_field(self.raw_value, 7, 1, (if field_value { 1u32 } else { 0u32 }));
    }

    /// Fault mask enable for the ENABLE pin.
    pub fn fme(&self) -> (r: bool)
        ensures
            r == (get_field(self.raw(), 6u32, 1) == 1),
    {
        let v = read_field(self.raw_value, 6, 1);
        v == 1
    }

    /// The message with fault mask enable for the ENABLE pin replaced.
    pub fn with_fme(&self, field_value: bool) -> (r: Self)
        ensures
            r.raw() == set_field(self.raw(), 6u32, 1, field_value as u32),
    {
        CtrlMethodFaultMaskCfg { raw_value: write_field(self.raw_value, 6, 1, (if field_value { 1u32 } else { 0u32 })) }
    }

    /// Replaces fault mask enable for the ENABLE pin.
    pub fn set_fme(&mut self, field_value: bool)
        ensures
            final(self).raw() == set_field(old(self).raw(), 6u32, 1, field_value as u32),
    {
        self.raw_value = write_field(self.raw_value, 6, 1, (if field_value { 1u32 } else { 0u32 }));
    }

    /// Diagnostic timer.
    pub fn diag_timer(&self) -> (r: DiagnosticTimer)
        ensures
            r.spec_raw() == get_field(self.raw(), 4u32, 2),
    {
        let v = read_field(self.raw_value, 4, 2);
        proof {
            lemma2_to64();
        }
        DiagnosticTimer::new_with_raw_value(v)
    }

    /// The message with diagnostic timer replaced.
    pub fn with_diag_timer(&self, field_value: DiagnosticTimer) -> (r: Self)
        ensures
            r.raw() == set_field(self.raw(), 4u32, 2, field_value.spec_raw()),
    {
        CtrlMethodFaultMaskCfg { raw_value: write_field(self.raw_value, 4, 2, field_value.raw_value()) }
    }

    /// Replaces diagnostic timer.
    pub fn set_diag_timer(&mut self, field_value: DiagnosticTimer)
        ensures
            final(self).raw() == set_field(old(self).raw(), 4u32, 2, field_value.spec_raw()),
    {
        self.raw_value = write_field(self.raw_value, 4, 2, field_value.raw_value());
    }

}

impl TleMsg for CtrlMethodFaultMaskCfg {
    open spec fn spec_raw(&self) -> u32 {
        self.raw()
    }

    fn from_raw(val: u32) -> (r: Self) {
        Self::new_with_raw_value(val)
    }

    fn into_raw(&self) -> (r: u32) {
        self.raw_value
    }

    fn id_match(&self, other: u32) -> (r: bool) {
        self.raw_value & CMD_MATCH_MASK == other & CMD_MATCH_MASK
    }

    fn is_read(&self) -> (r: bool) {
        self.raw_value & WRITE_MATCH_MASK == 0
    }
}

/// Diagnostic configuration of channels 0-3 or 4-7.
#[derive(Clone, Copy)]
pub struct DiagnosticConfiguration {
    raw_value: u32,
}

impl DiagnosticConfiguration {
    /// The raw word.
    pub closed spec fn raw(&self) -> u32 {
        self.raw_value
    }

    /// The message with the given raw word.
    pub fn new_with_raw_value(raw_value: u32) -> (r: Self)
        ensures
            r.raw() == raw_value,
    {
        DiagnosticConfiguration { raw_value }
    }

    /// The raw word.
    pub fn raw_value(&self) -> (r: u32)
        ensures
            r == self.raw(),
    {
        self.raw_value
    }

    /// A new message with the message identifier for channels 0 to 3.
    pub fn new_for_channels_0_3() -> (r: Self)
        ensures
            r.raw() == id_word(2),
    {
        Self::new_with_raw_value(make_id_word(2))
    }

    /// A new message with the message identifier for channels 4 to 7.
    pub fn new_for_channels_4_7() -> (r: Self)
        ensures
            r.raw() == id_word(3),
    {
        Self::new_with_raw_value(make_id_word(3))
    }

    /// Write rather than read.
    pub fn write(&self) -> (r: bool)
        ensures
            r == (get_field(self.raw(), 31u32, 1) == 1),
    {
        let v = read_field(self.raw_value, 31, 1);
        v == 1
    }

    /// The message with write rather than read replaced.
    pub fn with_write(&self, field_value: bool) -> (r: Self)
        ensures
            r.raw() == set_field(self.raw(), 31u32, 1, field_value as u32),
    {
        DiagnosticConfiguration { raw_value: write_field(self.raw_value, 31, 1, (if field_value { 1u32 } else { 0u32 })) }
    }

    /// Replaces write rather than read.
    pub fn set_write(&mut self, field_value: bool)
        ensures
            final(self).raw() == set_field(old(self).raw(), 31u32, 1, field_value as u32),
    {
        self.raw_value = write_field(self.raw_value, 31, 1, (if field_value { 1u32 } else { 0u32 }));
    }

    /// Short to battery threshold (entry `index`).
    pub fn sb(&self, index: usize) -> (r: ShortToBatThreshold)
        requires
            index < 4,
        ensures
            r.spec_raw() == get_field(self.raw(), (4 + index * 6) as u32, 2),
    {
        let v = read_field(self.raw_value, (4 + index * 6) as u32, 2);
        proof {
            lemma2_to64();
        }
        ShortToBatThreshold::new_with_raw_value(v)
    }

    /// The message with short to battery threshold (entry `index`) replaced.
    pub fn with_sb(&self, index: usize, field_value: ShortToBatThreshold) -> (r: Self)
        requires
            index < 4,
        ensures
            r.raw() == set_field(self.raw(), (4 + index * 6) as u32, 2, field_value.spec_raw()),
    {
        DiagnosticConfiguration { raw_value: write_field(self.raw_value, (4 + index * 6) as u32, 2, field_value.raw_value()) }
    }

    /// Replaces short to battery threshold (entry `index`).
    pub fn set_sb(&mut self, index: usize, field_value: ShortToBatThreshold)
        requires
            index < 4,
        ensures
            final(self).raw() == set_field(old(self).raw(), (4 + index * 6) as u32, 2, field_value.spec_raw()),
    {
        self.raw_value = write_field(self.raw_value, (4 + index * 6) as u32, 2, field_value.raw_value());
    }

    /// Short to battery retry time, in steps of 16 PWM periods (entry `index`).
    pub fn sb_retry(&self, index: usize) -> (r: u8)
        requires
            index < 4,
        ensures
            r as u32 == get_field(self.raw(), (0 + index * 6) as u32, 4),
            r < 16,
    {
        let v = read_field(self.raw_value, (0 + index * 6) as u32, 4);
        proof {
            lemma2_to64();
        }
        v as u8
    }

    /// The message with short to battery retry time, in steps of 16 PWM periods (entry `index`) replaced.
    pub fn with_sb_retry(&self, index: usize, field_value: u8) -> (r: Self)
        requires
            index < 4,
            field_value < 16,
        ensures
            r.raw() == set_field(self.raw(), (0 + index * 6) as u32, 4, field_value as u32),
    {
        DiagnosticConfiguration { raw_value: write_field(self.raw_value, (0 + index * 6) as u32, 4, field_value as u32) }
    }

    /// Replaces short to battery retry time, in steps of 16 PWM periods (entry `index`).
    pub fn set_sb_retry(&mut self, index: usize, field_value: u8)
        requires
            index < 4,
            field_value < 16,
        ensures
            final(self).raw() == set_field(old(self).raw(), (0 + index * 6) as u32, 4, field_value as u32),
    {
        self.raw_value = write_field(self.raw_value, (0 + index * 6) as u32, 4, field_value as u32);
    }

}

impl TleMsg for DiagnosticConfiguration {
    open spec fn spec_raw(&self) -> u32 {
        self.raw()
    }

    fn from_raw(val: u32) -> (r: Self) {
        Self::new_with_raw_value(val)
    }

    fn into_raw(&self) -> (r: u32) {
        self.raw_value
    }

    fn id_match(&self, other: u32) -> (r: bool) {
        self.raw_value & CMD_MATCH_MASK == other & CMD_MATCH_MASK
    }

    fn is_read(&self) -> (r: bool) {
        self.raw_value & WRITE_MATCH_MASK == 0
    }
}

/// Diagnostic read-out of channels 0-3 or 4-7.
#[derive(Clone, Copy)]
pub struct DiagnosticRead {
    raw_value: u32,
}

impl DiagnosticRead {
    /// The raw word.
    pub closed spec fn raw(&self) -> u32 {
        self.raw_value
    }

    /// The message with the given raw word.
    pub fn new_with_raw_value(raw_value: u32) -> (r: Self)
        ensures
            r.raw() == raw_value,
    {
        DiagnosticRead { raw_value }
    }

    /// The raw word.
    pub fn raw_value(&self) -> (r: u32)
        ensures
            r == self.raw(),
    {
        self.raw_value
    }

    /// A new message with the message identifier for channels 0 to 3.
    pub fn new_for_channels_0_3() -> (r: Self)
        ensures
            r.raw() == id_word(4),
    {
        Self::new_with_raw_value(make_id_word(4))
    }

    /// A new message with the message identifier for channels 4 to 7.
    pub fn new_for_channels_4_7() -> (r: Self)
        ensures
            r.raw() == id_word(5),
    {
        Self::new_with_raw_value(make_id_word(5))
    }

    /// Short to ground: fault (entry `index`).
    pub fn sg(&self, index: usize) -> (r: bool)
        requires
            index < 4,
        ensures
            r == (get_field(self.raw(), (5 + index * 6) as u32, 1) == 1),
    {
        let v = read_field(self.raw_value, (5 + index * 6) as u32, 1);
        v == 1
    }

    /// Short to ground and open load (gate off): tested (entry `index`).
    pub fn off_tst(&self, index: usize) -> (r: bool)
        requires
            index < 4,
        ensures
            r == (get_field(self.raw(), (4 + index * 6) as u32, 1) == 1),
    {
        let v = read_field(self.raw_value, (4 + index * 6) as u32, 1);
        v == 1
    }

    /// Short to battery: fault (entry `index`).
    pub fn sb(&self, index: usize) -> (r: bool)
        requires
            index < 4,
        ensures
            r == (get_field(self.raw(), (3 + index * 6) as u32, 1) == 1),
    {
        let v = read_field(self.raw_value, (3 + index * 6) as u32, 1);
        v == 1
    }

    /// Short to battery: tested (entry `index`).
    pub fn sb_tst(&self, index: usize) -> (r: bool)
        requires
            index < 4,
        ensures
            r == (get_field(self.raw(), (2 + index * 6) as u32, 1) == 1),
    {
        let v = read_field(self.raw_value, (2 + index * 6) as u32, 1);
        v == 1
    }

    /// Open load (gate off) (entry `index`).
    pub fn ol_off(&self, index: usize) -> (r: bool)
        requires
            index < 4,
        ensures
            r == (get_field(self.raw(), (1 + index * 6) as u32, 1) == 1),
    {
        let v = read_field(self.raw_value, (1 + index * 6) as u32, 1);
        v == 1
    }

    /// Open load (gate on) (entry `index`).
    pub fn ol_on(&self, index: usize) -> (r: bool)
        requires
            index < 4,
        ensures
            r == (get_field(self.raw(), (0 + index * 6) as u32, 1) == 1),
    {
        let v = read_field(self.raw_value, (0 + index * 6) as u32, 1);
        v == 1
    }

}

impl TleMsg for DiagnosticRead {
    open spec fn spec_raw(&self) -> u32 {
        self.raw()
    }

    fn from_raw(val: u32) -> (r: Self) {
        Self::new_with_raw_value(val)
    }

    fn into_raw(&self) -> (r: u32) {
        self.raw_value
    }

    fn id_match(&self, other: u32) -> (r: bool) {
        self.raw_value & CMD_MATCH_MASK == other & CMD_MATCH_MASK
    }

    fn is_read(&self) -> (r: bool) {
        self.raw_value & WRITE_MATCH_MASK == 0
    }
}

/// PWM offsets of channels 0-3 or 4-7.
#[derive(Clone, Copy)]
pub struct PwmOffset {
    raw_value: u32,
}

impl PwmOffset {
    /// The raw word.
    pub closed spec fn raw(&self) -> u32 {
        self.raw_value
    }

    /// The message with the given raw word.
    pub fn new_with_raw_value(raw_value: u32) -> (r: Self)
        ensures
            r.raw() == raw_value,
    {
        PwmOffset { raw_value }
    }

    /// The raw word.
    pub fn raw_value(&self) -> (r: u32)
        ensures
            r == self.raw(),
    {
        self.raw_value
    }

    /// A new message with the message identifier for channels 0 to 3.
    pub fn new_for_channels_0_3() -> (r: Self)
        ensures
            r.raw() == id_word(6),
    {
        Self::new_with_raw_value(make_id_word(6))
    }

    /// A new message with the message identifier for channels 4 to 7.
    pub fn new_for_channels_4_7() -> (r: Self)
        ensures
            r.raw() == id_word(7),
    {
        Self::new_with_raw_value(make_id_word(7))
    }

    /// Write rather than read.
    pub fn write(&self) -> (r: bool)
        ensures
            r == (get_field(self.raw(), 31u32, 1) == 1),
    {
        let v = read_field(self.raw_value, 31, 1);
        v == 1
    }

    /// The message with write rather than read replaced.
    pub fn with_write(&self, field_value: bool) -> (r: Self)
        ensures
            r.raw() == set_field(self.raw(), 31u32, 1, field_value as u32),
    {
        PwmOffset { raw_value: write_field(self.raw_value, 31, 1, (if field_value { 1u32 } else { 0u32 })) }
    }

    /// Replaces write rather than read.
    pub fn set_write(&mut self, field_value: bool)
        ensures
            final(self).raw() == set_field(old(self).raw(), 31u32, 1, field_value as u32),
    {
        self.raw_value = write_field(self.raw_value, 31, 1, (if field_value { 1u32 } else { 0u32 }));
    }

    /// Pulse offset of channel x, in 1/32 of the PWM period (entry `index`).
    pub fn offset(&self, index: usize) -> (r: u8)
        requires
            index < 4,
        ensures
            r as u32 == get_field(self.raw(), (0 + index * 5) as u32, 5),
            r < 32,
    {
        let v = read_field(self.raw_value, (0 + index * 5) as u32, 5);
        proof {
            lemma2_to64();
        }
        v as u8
    }

    /// The message with pulse offset of channel x, in 1/32 of the PWM period (entry `index`) replaced.
    pub fn with_offset(&self, index: usize, field_value: u8) -> (r: Self)
        requires
            index < 4,
            field_value < 32,
        ensures
            r.raw() == set_field(self.raw(), (0 + index * 5) as u32, 5, field_value as u32),
    {
        PwmOffset { raw_value: write_field(self.raw_value, (0 + index * 5) as u32, 5, field_value as u32) }
    }

    /// Replaces pulse offset of channel x, in 1/32 of the PWM period (entry `index`).
    pub fn set_offset(&mut self, index: usize, field_value: u8)
        requires
            index < 4,
            field_value < 32,
        ensures
            final(self).raw() == set_field(old(self).raw(), (0 + index * 5) as u32, 5, field_value as u32),
    {
        self.raw_value = write_field(self.raw_value, (0 + index * 5) as u32, 5, field_value as u32);
    }

}

impl TleMsg for PwmOffset {
    open spec fn spec_raw(&self) -> u32 {
        self.raw()
    }

    fn from_raw(val: u32) -> (r: Self) {
        Self::new_with_raw_value(val)
    }

    fn into_raw(&self) -> (r: u32) {
        self.raw_value
    }

    fn id_match(&self, other: u32) -> (r: bool) {
        self.raw_value & CMD_MATCH_MASK == other & CMD_MATCH_MASK
    }

    fn is_read(&self) -> (r: bool) {
        self.raw_value & WRITE_MATCH_MASK == 0
    }
}

/// Main period set (per channel).
#[derive(Clone, Copy)]
pub struct MainPeriodSet {
    raw_value: u32,
}

impl MainPeriodSet {
    /// The raw word.
    pub closed spec fn raw(&self) -> u32 {
        self.raw_value
    }

    /// The message with the given raw word.
    pub fn new_with_raw_value(raw_value: u32) -> (r: Self)
        ensures
            r.raw() == raw_value,
    {
        MainPeriodSet { raw_value }
    }

    /// The raw word.
    pub fn raw_value(&self) -> (r: u32)
        ensures
            r == self.raw(),
    {
        self.raw_value
    }

    /// A new message with the message identifier set.
    pub fn new_with_id() -> (r: Self)
        ensures
            r.raw() == id_word(8),
    {
        Self::new_with_raw_value(make_id_word(8))
    }

    /// Write rather than read.
    pub fn write(&self) -> (r: bool)
        ensures
            r == (get_field(self.raw(), 31u32, 1) == 1),
    {
        let v = read_field(self.raw_value, 31, 1);
        v == 1
    }

    /// The message with write rather than read replaced.
    pub fn with_write(&self, field_value: bool) -> (r: Self)
        ensures
            r.raw() == set_field(self.raw(), 31u32, 1, field_value as u32),
    {
        MainPeriodSet { raw_value: write_field(self.raw_value, 31, 1, (if field_value { 1u32 } else { 0u32 })) }
    }

    /// Replaces write rather than read.
    pub fn set_write(&mut self, field_value: bool)
        ensures
            final(self).raw() == set_field(old(self).raw(), 31u32, 1, field_value as u32),
    {
        self.raw_value = write_field(self.raw_value, 31, 1, (if field_value { 1u32 } else { 0u32 }));
    }

    /// Channel.
    pub fn channel_id(&self) -> (r: TleChannel)
        ensures
            r.spec_raw() == get_field(self.raw(), 24u32, 3),
    {
        let v = read_field(self.raw_value, 24, 3);
        proof {
            lemma2_to64();
        }
        TleChannel::new_with_raw_value(v)
    }

    /// The message with channel replaced.
    pub fn with_channel_id(&self, field_value: TleChannel) -> (r: Self)
        ensures
            r.raw() == set_field(self.raw(), 24u32, 3, field_value.spec_raw()),
    {
        MainPeriodSet { raw_value: write_field(self.raw_value, 24, 3, field_value.raw_value()) }
    }

    /// Replaces channel.
    pub fn set_channel_id(&mut self, field_value: TleChannel)
        ensures
            final(self).raw() == set_field(old(self).raw(), 24u32, 3, field_value.spec_raw()),
    {
        self.raw_value = write_field(self.raw_value, 24, 3, field_value.raw_value());
    }

    /// Sample summation method.
    pub fn sam(&self) -> (r: SummationMethod)
        ensures
            r.spec_raw() == get_field(self.raw(), 16u32, 1),
    {
        let v = read_field(self.raw_value, 16, 1);
        proof {
            lemma2_to64();
        }
        SummationMethod::new_with_raw_value(v)
    }

    /// The message with sample summation method replaced.
    pub fn with_sam(&self, field_value: SummationMethod) -> (r: Self)
        ensures
            r.raw() == set_field(self.raw(), 16u32, 1, field_value.spec_raw()),
    {
        MainPeriodSet { raw_value: write_field(self.raw_value, 16, 1, field_value.raw_value()) }
    }

    /// Replaces sample summation method.
    pub fn set_sam(&mut self, field_value: SummationMethod)
        ensures
            final(self).raw() == set_field(old(self).raw(), 16u32, 1, field_value.spec_raw()),
    {
        self.raw_value = write_field(self.raw_value, 16, 1, field_value.raw_value());
    }

    /// Divider M (A/D samples per PWM period).
    pub fn divider_m(&self) -> (r: DividerM)
        ensures
            r.spec_raw() == get_field(self.raw(), 14u32, 2),
    {
        let v = read_field(self.raw_value, 14, 2);
        proof {
            lemma2_to64();
        }
        DividerM::new_with_raw_value(v)
    }

    /// The message with divider M (A/D samples per PWM period) replaced.
    pub fn with_divider_m(&self, field_value: DividerM) -> (r: Self)
        ensures
            r.raw() == set_field(self.raw(), 14u32, 2, field_value.spec_raw()),
    {
        MainPeriodSet { raw_value: write_field(self.raw_value, 14, 2, field_value.raw_value()) }
    }

    /// Replaces divider M (A/D samples per PWM period).
    pub fn set_divider_m(&mut self, field_value: DividerM)
        ensures
            final(self).raw() == set_field(old(self).raw(), 14u32, 2, field_value.spec_raw()),
    {
        self.raw_value = write_field(self.raw_value, 14, 2, field_value.raw_value());
    }

    /// Divider N (clock periods between A/D samples).
    pub fn divider_n(&self) -> (r: u16)
        ensures
            r as u32 == get_field(self.raw(), 0u32, 14),
            r < 16384,
    {
        let v = read_field(self.raw_value, 0, 14);
        proof {
            lemma2_to64();
        }
        v as u16
    }

    /// The message with divider N (clock periods between A/D samples) replaced.
    pub fn with_divider_n(&self, field_value: u16) -> (r: Self)
        requires
            field_value < 16384,
        ensures
            r.raw() == set_field(self.raw(), 0u32, 14, field_value as u32),
    {
        MainPeriodSet { raw_value: write_field(self.raw_value, 0, 14, field_value as u32) }
    }

    /// Replaces divider N (clock periods between A/D samples).
    pub fn set_divider_n(&mut self, field_value: u16)
        requires
            field_value < 16384,
        ensures
            final(self).raw() == set_field(old(self).raw(), 0u32, 14, field_value as u32),
    {
        self.raw_value = write_field(self.raw_value, 0, 14, field_value as u32);
    }

}

impl TleMsg for MainPeriodSet {
    open spec fn spec_raw(&self) -> u32 {
        self.raw()
    }

    fn from_raw(val: u32) -> (r: Self) {
        Self::new_with_raw_value(val)
    }

    fn into_raw(&self) -> (r: u32) {
        self.raw_value
    }

    fn id_match(&self, other: u32) -> (r: bool) {
        self.raw_value & CMD_MATCH_MASK == other & CMD_MATCH_MASK
    }

    fn is_read(&self) -> (r: bool) {
        self.raw_value & WRITE_MATCH_MASK == 0
    }
}

/// Control loop coefficients (per channel).
#[derive(Clone, Copy)]
pub struct ControlVarsSet {
    raw_value: u32,
}

impl ControlVarsSet {
    /// The raw word.
    pub closed spec fn raw(&self) -> u32 {
        self.raw_value
    }

    /// The message with the given raw word.
    pub fn new_with_raw_value(raw_value: u32) -> (r: Self)
        ensures
            r.raw() == raw_value,
    {
        ControlVarsSet { raw_value }
    }

    /// The raw word.
    pub fn raw_value(&self) -> (r: u32)
        ensures
            r == self.raw(),
    {
        self.raw_value
    }

    /// A new message with the message identifier set.
    pub fn new_with_id() -> (r: Self)
        ensures
            r.raw() == id_word(16),
    {
        Self::new_with_raw_value(make_id_word(16))
    }

    /// Write rather than read.
    pub fn write(&self) -> (r: bool)
        ensures
            r == (get_field(self.raw(), 31u32, 1) == 1),
    {
        let v = read_field(self.raw_value, 31, 1);
        v == 1
    }

    /// The message with write rather than read replaced.
    pub fn with_write(&self, field_value: bool) -> (r: Self)
        ensures
            r.raw() == set_field(self.raw(), 31u32, 1, field_value as u32),
    {
        ControlVarsSet { raw_value: write_field(self.raw_value, 31, 1, (if field_value { 1u32 } else { 0u32 })) }
    }

    /// Replaces write rather than read.
    pub fn set_write(&mut self, field_value: bool)
        ensures
            final(self).raw() == set_field(old(self).raw(), 31u32, 1, field_value as u32),
    {
        self.raw_value = write_field(self.raw_value, 31, 1, (if field_value { 1u32 } else { 0u32 }));
    }

    /// Channel.
    pub fn channel_id(&self) -> (r: TleChannel)
        ensures
            r.spec_raw() == get_field(self.raw(), 24u32, 3),
    {
        let v = read_field(self.raw_value, 24, 3);
        proof {
            lemma2_to64();
        }
        TleChannel::new_with_raw_value(v)
    }

    /// The message with channel replaced.
    pub fn with_channel_id(&self, field_value: TleChannel) -> (r: Self)
        ensures
            r.raw() == set_field(self.raw(), 24u32, 3, field_value.spec_raw()),
    {
        ControlVarsSet { raw_value: write_field(self.raw_value, 24, 3, field_value.raw_value()) }
    }

    /// Replaces channel.
    pub fn set_channel_id(&mut self, field_value: TleChannel)
        ensures
            final(self).raw() == set_field(old(self).raw(), 24u32, 3, field_value.spec_raw()),
    {
        self.raw_value = write_field(self.raw_value, 24, 3, field_value.raw_value());
    }

    /// Proportional coefficient.
    pub fn kp(&self) -> (r: u16)
        ensures
            r as u32 == get_field(self.raw(), 12u32, 12),
            r < 4096,
    {
        let v = read_field(self.raw_value, 12, 12);
        proof {
            lemma2_to64();
        }
        v as u16
    }

    /// The message with proportional coefficient replaced.
    pub fn with_kp(&self, field_value: u16) -> (r: Self)
        requires
            field_value < 4096,
        ensures
            r.raw() == set_field(self.raw(), 12u32, 12, field_value as u32),
    {
        ControlVarsSet { raw_value: write_field(self.raw_value, 12, 12, field_value as u32) }
    }

    /// Replaces proportional coefficient.
    pub fn set_kp(&mut self, field_value: u16)
        requires
            field_value < 4096,
        ensures
            final(self).raw() == set_field(old(self).raw(), 12u32, 12, field_value as u32),
    {
        self.raw_value = write_field(self.raw_value, 12, 12, field_value as u32);
    }

    /// Integral coefficient.
    pub fn ki(&self) -> (r: u16)
        ensures
            r as u32 == get_field(self.raw(), 0u32, 12),
            r < 4096,
    {
        let v = read_field(self.raw_value, 0, 12);
        proof {
            lemma2_to64();
        }
        v as u16
    }

    /// The message with integral coefficient replaced.
    pub fn with_ki(&self, field_value: u16) -> (r: Self)
        requires
            field_value < 4096,
        ensures
            r.raw() == set_field(self.raw(), 0u32, 12, field_value as u32),
    {
        ControlVarsSet { raw_value: write_field(self.raw_value, 0, 12, field_value as u32) }
    }

    /// Replaces integral coefficient.
    pub fn set_ki(&mut self, field_value: u16)
        requires
            field_value < 4096,
        ensures
            final(self).raw() == set_field(old(self).raw(), 0u32, 12, field_value as u32),
    {
        self.raw_value = write_field(self.raw_value, 0, 12, field_value as u32);
    }

}

impl TleMsg for ControlVarsSet {
    open spec fn spec_raw(&self) -> u32 {
        self.raw()
    }

    fn from_raw(val: u32) -> (r: Self) {
        Self::new_with_raw_value(val)
    }

    fn into_raw(&self) -> (r: u32) {
        self.raw_value
    }

    fn id_match(&self, other: u32) -> (r: bool) {
        self.raw_value & CMD_MATCH_MASK == other & CMD_MATCH_MASK
    }

    fn is_read(&self) -> (r: bool) {
        self.raw_value & WRITE_MATCH_MASK == 0
    }
}

/// Current set point and dither amplitude (per channel).
#[derive(Clone, Copy)]
pub struct CurrentDitherAmpSet {
    raw_value: u32,
}

impl CurrentDitherAmpSet {
    /// The raw word.
    pub closed spec fn raw(&self) -> u32 {
        self.raw_value
    }

    /// The message with the given raw word.
    pub fn new_with_raw_value(raw_value: u32) -> (r: Self)
        ensures
            r.raw() == raw_value,
    {
        CurrentDitherAmpSet { raw_value }
    }

    /// The raw word.
    pub fn raw_value(&self) -> (r: u32)
        ensures
            r == self.raw(),
    {
        self.raw_value
    }

    /// A new message with the message identifier set.
    pub fn new_with_id() -> (r: Self)
        ensures
            r.raw() == id_word(24),
    {
        Self::new_with_raw_value(make_id_word(24))
    }

    /// Write rather than read.
    pub fn write(&self) -> (r: bool)
        ensures
            r == (get_field(self.raw(), 31u32, 1) == 1),
    {
        let v = read_field(self.raw_value, 31, 1);
        v == 1
    }

    /// The message with write rather than read replaced.
    pub fn with_write(&self, field_value: bool) -> (r: Self)
        ensures
            r.raw() == set_field(self.raw(), 31u32, 1, field_value as u32),
    {
        CurrentDitherAmpSet { raw_value: write_field(self.raw_value, 31, 1, (if field_value { 1u32 } else { 0u32 })) }
    }

    /// Replaces write rather than read.
    pub fn set_write(&mut self, field_value: bool)
        ensures
            final(self).raw() == set_field(old(self).raw(), 31u32, 1, field_value as u32),
    {
        self.raw_value = write_field(self.raw_value, 31, 1, (if field_value { 1u32 } else { 0u32 }));
    }

    /// Channel.
    pub fn channel_id(&self) -> (r: TleChannel)
        ensures
            r.spec_raw() == get_field(self.raw(), 24u32, 3),
    {
        let v = read_field(self.raw_value, 24, 3);
        proof {
            lemma2_to64();
        }
        TleChannel::new_with_raw_value(v)
    }

    /// The message with channel replaced.
    pub fn with_channel_id(&self, field_value: TleChannel) -> (r: Self)
        ensures
            r.raw() == set_field(self.raw(), 24u32, 3, field_value.spec_raw()),
    {
        CurrentDitherAmpSet { raw_value: write_field(self.raw_value, 24, 3, field_value.raw_value()) }
    }

    /// Replaces channel.
    pub fn set_channel_id(&mut self, field_value: TleChannel)
        ensures
            final(self).raw() == set_field(old(self).raw(), 24u32, 3, field_value.spec_raw()),
    {
        self.raw_value = write_field(self.raw_value, 24, 3, field_value.raw_value());
    }

    /// Operation while ENABLE is deactivated.
    pub fn en(&self) -> (r: bool)
        ensures
            r == (get_field(self.raw(), 23u32, 1) == 1),
    {
        let v = read_field(self.raw_value, 23, 1);
        v == 1
    }

    /// The message with operation while ENABLE is deactivated replaced.
    pub fn with_en(&self, field_value: bool) -> (r: Self)
        ensures
            r.raw() == set_field(self.raw(), 23u32, 1, field_value as u32),
    {
        CurrentDitherAmpSet { raw_value: write_field(self.raw_value, 23, 1, (if field_value { 1u32 } else { 0u32 })) }
    }

    /// Replaces operation while ENABLE is deactivated.
    pub fn set_en(&mut self, field_value: bool)
        ensures
            final(self).raw() == set_field(old(self).raw(), 23u32, 1, field_value as u32),
    {
        self.raw_value = write_field(self.raw_value, 23, 1, (if field_value { 1u32 } else { 0u32 }));
    }

    /// Dither step size.
    pub fn dither_step_size(&self) -> (r: u16)
        ensures
            r as u32 == get_field(self.raw(), 11u32, 11),
            r < 2048,
    {
        let v = read_field(self.raw_value, 11, 11);
        proof {
            lemma2_to64();
        }
        v as u16
    }

    /// The message with dither step size replaced.
    pub fn with_dither_step_size(&self, field_value: u16) -> (r: Self)
        requires
            field_value < 2048,
        ensures
            r.raw() == set_field(self.raw(), 11u32, 11, field_value as u32),
    {
        CurrentDitherAmpSet { raw_value: write_field(self.raw_value, 11, 11, field_value as u32) }
    }

    /// Replaces dither step size.
    pub fn set_dither_step_size(&mut self, field_value: u16)
        requires
            field_value < 2048,
        ensures
            final(self).raw() == set_field(old(self).raw(), 11u32, 11, field_value as u32),
    {
        self.raw_value = write_field(self.raw_value, 11, 11, field_value as u32);
    }

    /// Current set point.
    pub fn current_setpoint(&self) -> (r: u16)
        ensures
            r as u32 == get_field(self.raw(), 0u32, 11),
            r < 2048,
    {
        let v = read_field(self.raw_value, 0, 11);
        proof {
            lemma2_to64();
        }
        v as u16
    }

    /// The message with current set point replaced.
    pub fn with_current_setpoint(&self, field_value: u16) -> (r: Self)
        requires
            field_value < 2048,
        ensures
            r.raw() == set_field(self.raw(), 0u32, 11, field_value as u32),
    {
        CurrentDitherAmpSet { raw_value: write_field(self.raw_value, 0, 11, field_value as u32) }
    }

    /// Replaces current set point.
    pub fn set_current_setpoint(&mut self, field_value: u16)
        requires
            field_value < 2048,
        ensures
            final(self).raw() == set_field(old(self).raw(), 0u32, 11, field_value as u32),
    {
        self.raw_value = write_field(self.raw_value, 0, 11, field_value as u32);
    }

}

impl TleMsg for CurrentDitherAmpSet {
    open spec fn spec_raw(&self) -> u32 {
        self.raw()
    }

    fn from_raw(val: u32) -> (r: Self) {
        Self::new_with_raw_value(val)
    }

    fn into_raw(&self) -> (r: u32) {
        self.raw_value
    }

    fn id_match(&self, other: u32) -> (r: bool) {
        self.raw_value & CMD_MATCH_MASK == other & CMD_MATCH_MASK
    }

    fn is_read(&self) -> (r: bool) {
        self.raw_value & WRITE_MATCH_MASK == 0
    }
}

/// Dither period (per channel).
#[derive(Clone, Copy)]
pub struct DitherPeriodSet {
    raw_value: u32,
}

impl DitherPeriodSet {
    /// The raw word.
    pub closed spec fn raw(&self) -> u32 {
        self.raw_value
    }

    /// The message with the given raw word.
    pub fn new_with_raw_value(raw_value: u32) -> (r: Self)
        ensures
            r.raw() == raw_value,
    {
        DitherPeriodSet { raw_value }
    }

    /// The raw word.
    pub fn raw_value(&self) -> (r: u32)
        ensures
            r == self.raw(),
    {
        self.raw_value
    }

    /// A new message with the message identifier set.
    pub fn new_with_id() -> (r: Self)
        ensures
            r.raw() == id_word(32),
    {
        Self::new_with_raw_value(make_id_word(32))
    }

    /// Write rather than read.
    pub fn write(&self) -> (r: bool)
        ensures
            r == (get_field(self.raw(), 31u32, 1) == 1),
    {
        let v = read_field(self.raw_value, 31, 1);
        v == 1
    }

    /// The message with write rather than read replaced.
    pub fn with_write(&self, field_value: bool) -> (r: Self)
        ensures
            r.raw() == set_field(self.raw(), 31u32, 1, field_value as u32),
    {
        DitherPeriodSet { raw_value: write_field(self.raw_value, 31, 1, (if field_value { 1u32 } else { 0u32 })) }
    }

    /// Replaces write rather than read.
    pub fn set_write(&mut self, field_value: bool)
        ensures
            final(self).raw() == set_field(old(self).raw(), 31u32, 1, field_value as u32),
    {
        self.raw_value = write_field(self.raw_value, 31, 1, (if field_value { 1u32 } else { 0u32 }));
    }

    /// Channel.
    pub fn channel_id(&self) -> (r: TleChannel)
        ensures
            r.spec_raw() == get_field(self.raw(), 24u32, 3),
    {
        let v = read_field(self.raw_value, 24, 3);
        proof {
            lemma2_to64();
        }
        TleChannel::new_with_raw_value(v)
    }

    /// The message with channel replaced.
    pub fn with_channel_id(&self, field_value: TleChannel) -> (r: Self)
        ensures
            r.raw() == set_field(self.raw(), 24u32, 3, field_value.spec_raw()),
    {
        DitherPeriodSet { raw_value: write_field(self.raw_value, 24, 3, field_value.raw_value()) }
    }

    /// Replaces channel.
    pub fn set_channel_id(&mut self, field_value: TleChannel)
        ensures
            final(self).raw() == set_field(old(self).raw(), 24u32, 3, field_value.spec_raw()),
    {
        self.raw_value = write_field(self.raw_value, 24, 3, field_value.raw_value());
    }

    /// Dither steps per quarter waveform (0 disables dither).
    pub fn number_of_steps(&self) -> (r: u8)
        ensures
            r as u32 == get_field(self.raw(), 0u32, 5),
            r < 32,
    {
        let v = read_field(self.raw_value, 0, 5);
        proof {
            lemma2_to64();
        }
        v as u8
    }

    /// The message with dither steps per quarter waveform (0 disables dither) replaced.
    pub fn with_number_of_steps(&self, field_value: u8) -> (r: Self)
        requires
            field_value < 32,
        ensures
            r.raw() == set_field(self.raw(), 0u32, 5, field_value as u32),
    {
        DitherPeriodSet { raw_value: write_field(self.raw_value, 0, 5, field_value as u32) }
    }

    /// Replaces dither steps per quarter waveform (0 disables dither).
    pub fn set_number_of_steps(&mut self, field_value: u8)
        requires
            field_value < 32,
        ensures
            final(self).raw() == set_field(old(self).raw(), 0u32, 5, field_value as u32),
    {
        self.raw_value = write_field(self.raw_value, 0, 5, field_value as u32);
    }

}

impl TleMsg for DitherPeriodSet {
    open spec fn spec_raw(&self) -> u32 {
        self.raw()
    }

    fn from_raw(val: u32) -> (r: Self) {
        Self::new_with_raw_value(val)
    }

    fn into_raw(&self) -> (r: u32) {
        self.raw_value
    }

    fn id_match(&self, other: u32) -> (r: bool) {
        self.raw_value & CMD_MATCH_MASK == other & CMD_MATCH_MASK
    }

    fn is_read(&self) -> (r: bool) {
        self.raw_value & WRITE_MATCH_MASK == 0
    }
}

/// Maximum and minimum current read-out (per channel).
#[derive(Clone, Copy)]
pub struct MaxMinCurrentRead {
    raw_value: u32,
}

impl MaxMinCurrentRead {
    /// The raw word.
    pub closed spec fn raw(&self) -> u32 {
        self.raw_value
    }

    /// The message with the given raw word.
    pub fn new_with_raw_value(raw_value: u32) -> (r: Self)
        ensures
            r.raw() == raw_value,
    {
        MaxMinCurrentRead { raw_value }
    }

    /// The raw word.
    pub fn raw_value(&self) -> (r: u32)
        ensures
            r == self.raw(),
    {
        self.raw_value
    }

    /// A new message with the message identifier set.
    pub fn new_with_id() -> (r: Self)
        ensures
            r.raw() == id_word(40),
    {
        Self::new_with_raw_value(make_id_word(40))
    }

    /// Channel.
    pub fn channel_id(&self) -> (r: TleChannel)
        ensures
            r.spec_raw() == get_field(self.raw(), 24u32, 3),
    {
        let v = read_field(self.raw_value, 24, 3);
        proof {
            lemma2_to64();
        }
        TleChannel::new_with_raw_value(v)
    }

    /// The message with channel replaced.
    pub fn with_channel_id(&self, field_value: TleChannel) -> (r: Self)
        ensures
            r.raw() == set_field(self.raw(), 24u32, 3, field_value.spec_raw()),
    {
        MaxMinCurrentRead { raw_value: write_field(self.raw_value, 24, 3, field_value.raw_value()) }
    }

    /// Replaces channel.
    pub fn set_channel_id(&mut self, field_value: TleChannel)
        ensures
            final(self).raw() == set_field(old(self).raw(), 24u32, 3, field_value.spec_raw()),
    {
        self.raw_value = write_field(self.raw_value, 24, 3, field_value.raw_value());
    }

    /// New data is available.
    pub fn valid(&self) -> (r: bool)
        ensures
            r == (get_field(self.raw(), 22u32, 1) == 1),
    {
        let v = read_field(self.raw_value, 22, 1);
        v == 1
    }

    /// Largest summation of M samples in one PWM period of the last dither cycle.
    pub fn max(&self) -> (r: u16)
        ensures
            r as u32 == get_field(self.raw(), 11u32, 11),
            r < 2048,
    {
        let v = read_field(self.raw_value, 11, 11);
        proof {
            lemma2_to64();
        }
        v as u16
    }

    /// Smallest summation of M samples in one PWM period of the last dither cycle.
    pub fn min(&self) -> (r: u16)
        ensures
            r as u32 == get_field(self.raw(), 0u32, 11),
            r < 2048,
    {
        let v = read_field(self.raw_value, 0, 11);
        proof {
            lemma2_to64();
        }
        v as u16
    }

}

impl TleMsg for MaxMinCurrentRead {
    open spec fn spec_raw(&self) -> u32 {
        self.raw()
    }

    fn from_raw(val: u32) -> (r: Self) {
        Self::new_with_raw_value(val)
    }

    fn into_raw(&self) -> (r: u32) {
        self.raw_value
    }

    fn id_match(&self, other: u32) -> (r: bool) {
        self.raw_value & CMD_MATCH_MASK == other & CMD_MATCH_MASK
    }

    fn is_read(&self) -> (r: bool) {
        self.raw_value & WRITE_MATCH_MASK == 0
    }
}

/// Average current read-out (per channel).
#[derive(Clone, Copy)]
pub struct AverageCurrentRead {
    raw_value: u32,
}

impl AverageCurrentRead {
    /// The raw word.
    pub closed spec fn raw(&self) -> u32 {
        self.raw_value
    }

    /// The message with the given raw word.
    pub fn new_with_raw_value(raw_value: u32) -> (r: Self)
        ensures
            r.raw() == raw_value,
    {
        AverageCurrentRead { raw_value }
    }

    /// The raw word.
    pub fn raw_value(&self) -> (r: u32)
        ensures
            r == self.raw(),
    {
        self.raw_value
    }

    /// A new message with the message identifier set.
    pub fn new_with_id() -> (r: Self)
        ensures
            r.raw() == id_word(48),
    {
        Self::new_with_raw_value(make_id_word(48))
    }

    /// Channel.
    pub fn channel_id(&self) -> (r: TleChannel)
        ensures
            r.spec_raw() == get_field(self.raw(), 24u32, 3),
    {
        let v = read_field(self.raw_value, 24, 3);
        proof {
            lemma2_to64();
        }
        TleChannel::new_with_raw_value(v)
    }

    /// The message with channel replaced.
    pub fn with_channel_id(&self, field_value: TleChannel) -> (r: Self)
        ensures
            r.raw() == set_field(self.raw(), 24u32, 3, field_value.spec_raw()),
    {
        AverageCurrentRead { raw_value: write_field(self.raw_value, 24, 3, field_value.raw_value()) }
    }

    /// Replaces channel.
    pub fn set_channel_id(&mut self, field_value: TleChannel)
        ensures
            final(self).raw() == set_field(old(self).raw(), 24u32, 3, field_value.spec_raw()),
    {
        self.raw_value = write_field(self.raw_value, 24, 3, field_value.raw_value());
    }

    /// New data is available.
    pub fn valid(&self) -> (r: bool)
        ensures
            r == (get_field(self.raw(), 20u32, 1) == 1),
    {
        let v = read_field(self.raw_value, 20, 1);
        v == 1
    }

    /// 20 bit summation of the current over a dither period.
    pub fn avg(&self) -> (r: u32)
        ensures
            r as u32 == get_field(self.raw(), 0u32, 20),
            r < 1048576,
    {
        let v = read_field(self.raw_value, 0, 20);
        proof {
            lemma2_to64();
        }
        v
    }

}

impl TleMsg for AverageCurrentRead {
    open spec fn spec_raw(&self) -> u32 {
        self.raw()
    }

    fn from_raw(val: u32) -> (r: Self) {
        Self::new_with_raw_value(val)
    }

    fn into_raw(&self) -> (r: u32) {
        self.raw_value
    }

    fn id_match(&self, other: u32) -> (r: bool) {
        self.raw_value & CMD_MATCH_MASK == other & CMD_MATCH_MASK
    }

    fn is_read(&self) -> (r: bool) {
        self.raw_value & WRITE_MATCH_MASK == 0
    }
}

/// Auto zero trigger and read-out (per channel).
#[derive(Clone, Copy)]
pub struct AutoZeroTriggerRead {
    raw_value: u32,
}

impl AutoZeroTriggerRead {
    /// The raw word.
    pub closed spec fn raw(&self) -> u32 {
        self.raw_value
    }

    /// The message with the given raw word.
    pub fn new_with_raw_value(raw_value: u32) -> (r: Self)
        ensures
            r.raw() == raw_value,
    {
        AutoZeroTriggerRead { raw_value }
    }

    /// The raw word.
    pub fn raw_value(&self) -> (r: u32)
        ensures
            r == self.raw(),
    {
        self.raw_value
    }

    /// A new message with the message identifier set.
    pub fn new_with_id() -> (r: Self)
        ensures
            r.raw() == id_word(56),
    {
        Self::new_with_raw_value(make_id_word(56))
    }

    /// Write rather than read.
    pub fn write(&self) -> (r: bool)
        ensures
            r == (get_field(self.raw(), 31u32, 1) == 1),
    {
        let v = read_field(self.raw_value, 31, 1);
        v == 1
    }

    /// The message with write rather than read replaced.
    pub fn with_write(&self, field_value: bool) -> (r: Self)
        ensures
            r.raw() == set_field(self.raw(), 31u32, 1, field_value as u32),
    {
        AutoZeroTriggerRead { raw_value: write_field(self.raw_value, 31, 1, (if field_value { 1u32 } else { 0u32 })) }
    }

    /// Replaces write rather than read.
    pub fn set_write(&mut self, field_value: bool)
        ensures
            final(self).raw() == set_field(old(self).raw(), 31u32, 1, field_value as u32),
    {
        self.raw_value = write_field(self.raw_value, 31, 1, (if field_value { 1u32 } else { 0u32 }));
    }

    /// Channel.
    pub fn channel_id(&self) -> (r: TleChannel)
        ensures
            r.spec_raw() == get_field(self.raw(), 24u32, 3),
    {
        let v = read_field(self.raw_value, 24, 3);
        proof {
            lemma2_to64();
        }
        TleChannel::new_with_raw_value(v)
    }

    /// The message with channel replaced.
    pub fn with_channel_id(&self, field_value: TleChannel) -> (r: Self)
        ensures
            r.raw() == set_field(self.raw(), 24u32, 3, field_value.spec_raw()),
    {
        AutoZeroTriggerRead { raw_value: write_field(self.raw_value, 24, 3, field_value.raw_value()) }
    }

    /// Replaces channel.
    pub fn set_channel_id(&mut self, field_value: TleChannel)
        ensures
            final(self).raw() == set_field(old(self).raw(), 24u32, 3, field_value.spec_raw()),
    {
        self.raw_value = write_field(self.raw_value, 24, 3, field_value.raw_value());
    }

    /// Auto zero with gate on happened since the last read.
    pub fn az_on(&self) -> (r: bool)
        ensures
            r == (get_field(self.raw(), 17u32, 1) == 1),
    {
        let v = read_field(self.raw_value, 17, 1);
        v == 1
    }

    /// Auto zero with gate off happened since the last read.
    pub fn az_off(&self) -> (r: bool)
        ensures
            r == (get_field(self.raw(), 16u32, 1) == 1),
    {
        let v = read_field(self.raw_value, 16, 1);
        v == 1
    }

    /// Auto zero value, gate on.
    pub fn az_on_val(&self) -> (r: u8)
        ensures
            r as u32 == get_field(self.raw(), 8u32, 8),
            r < 256,
    {
        let v = read_field(self.raw_value, 8, 8);
        proof {
            lemma2_to64();
        }
        v as u8
    }

    /// Auto zero value, gate off.
    pub fn az_off_val(&self) -> (r: u8)
        ensures
            r as u32 == get_field(self.raw(), 0u32, 8),
            r < 256,
    {
        let v = read_field(self.raw_value, 0, 8);
        proof {
            lemma2_to64();
        }
        v as u8
    }

}

impl TleMsg for AutoZeroTriggerRead {
    open spec fn spec_raw(&self) -> u32 {
        self.raw()
    }

    fn from_raw(val: u32) -> (r: Self) {
        Self::new_with_raw_value(val)
    }

    fn into_raw(&self) -> (r: u32) {
        self.raw_value
    }

    fn id_match(&self, other: u32) -> (r: bool) {
        self.raw_value & CMD_MATCH_MASK == other & CMD_MATCH_MASK
    }

    fn is_read(&self) -> (r: bool) {
        self.raw_value & WRITE_MATCH_MASK == 0
    }
}

/// PWM duty cycle (per channel).
#[derive(Clone, Copy)]
pub struct PwmDutyCycle {
    raw_value: u32,
}

impl PwmDutyCycle {
    /// The raw word.
    pub closed spec fn raw(&self) -> u32 {
        self.raw_value
    }

    /// The message with the given raw word.
    pub fn new_with_raw_value(raw_value: u32) -> (r: Self)
        ensures
            r.raw() == raw_value,
    {
        PwmDutyCycle { raw_value }
    }

    /// The raw word.
    pub fn raw_value(&self) -> (r: u32)
        ensures
            r == self.raw(),
    {
        self.raw_value
    }

    /// A new message with the message identifier set.
    pub fn new_with_id() -> (r: Self)
        ensures
            r.raw() == id_word(64),
    {
        Self::new_with_raw_value(make_id_word(64))
    }

    /// Write rather than read.
    pub fn write(&self) -> (r: bool)
        ensures
            r == (get_field(self.raw(), 31u32, 1) == 1),
    {
        let v = read_field(self.raw_value, 31, 1);
        v == 1
    }

    /// The message with write rather than read replaced.
    pub fn with_write(&self, field_value: bool) -> (r: Self)
        ensures
            r.raw() == set_field(self.raw(), 31u32, 1, field_value as u32),
    {
        PwmDutyCycle { raw_value: write_field(self.raw_value, 31, 1, (if field_value { 1u32 } else { 0u32 })) }
    }

    /// Replaces write rather than read.
    pub fn set_write(&mut self, field_value: bool)
        ensures
            final(self).raw() == set_field(old(self).raw(), 31u32, 1, field_value as u32),
    {
        self.raw_value = write_field(self.raw_value, 31, 1, (if field_value { 1u32 } else { 0u32 }));
    }

    /// Channel.
    pub fn channel_id(&self) -> (r: TleChannel)
        ensures
            r.spec_raw() == get_field(self.raw(), 24u32, 3),
    {
        let v = read_field(self.raw_value, 24, 3);
        proof {
            lemma2_to64();
        }
        TleChannel::new_with_raw_value(v)
    }

    /// The message with channel replaced.
    pub fn with_channel_id(&self, field_value: TleChannel) -> (r: Self)
        ensures
            r.raw() == set_field(self.raw(), 24u32, 3, field_value.spec_raw()),
    {
        PwmDutyCycle { raw_value: write_field(self.raw_value, 24, 3, field_value.raw_value()) }
    }

    /// Replaces channel.
    pub fn set_channel_id(&mut self, field_value: TleChannel)
        ensures
            final(self).raw() == set_field(old(self).raw(), 24u32, 3, field_value.spec_raw()),
    {
        self.raw_value = write_field(self.raw_value, 24, 3, field_value.raw_value());
    }

    /// PWM duty cycle.
    pub fn pwm(&self) -> (r: u32)
        ensures
            r as u32 == get_field(self.raw(), 0u32, 19),
            r < 524288,
    {
        let v = read_field(self.raw_value, 0, 19);
        proof {
            lemma2_to64();
        }
        v
    }

    /// The message with pWM duty cycle replaced.
    pub fn with_pwm(&self, field_value: u32) -> (r: Self)
        requires
            field_value < 524288,
        ensures
            r.raw() == set_field(self.raw(), 0u32, 19, field_value as u32),
    {
        PwmDutyCycle { raw_value: write_field(self.raw_value, 0, 19, field_value as u32) }
    }

    /// Replaces pWM duty cycle.
    pub fn set_pwm(&mut self, field_value: u32)
        requires
            field_value < 524288,
        ensures
            final(self).raw() == set_field(old(self).raw(), 0u32, 19, field_value as u32),
    {
        self.raw_value = write_field(self.raw_value, 0, 19, field_value as u32);
    }

}

impl TleMsg for PwmDutyCycle {
    open spec fn spec_raw(&self) -> u32 {
        self.raw()
    }

    fn from_raw(val: u32) -> (r: Self) {
        Self::new_with_raw_value(val)
    }

    fn into_raw(&self) -> (r: u32) {
        self.raw_value
    }

    fn id_match(&self, other: u32) -> (r: bool) {
        self.raw_value & CMD_MATCH_MASK == other & CMD_MATCH_MASK
    }

    fn is_read(&self) -> (r: bool) {
        self.raw_value & WRITE_MATCH_MASK == 0
    }
}

/// Current profile set-up, part 1 (per channel).
#[derive(Clone, Copy)]
pub struct CurrentProfileSetup1 {
    raw_value: u32,
}

impl CurrentProfileSetup1 {
    /// The raw word.
    pub closed spec fn raw(&self) -> u32 {
        self.raw_value
    }

    /// The message with the given raw word.
    pub fn new_with_raw_value(raw_value: u32) -> (r: Self)
        ensures
            r.raw() == raw_value,
    {
        CurrentProfileSetup1 { raw_value }
    }

    /// The raw word.
    pub fn raw_value(&self) -> (r: u32)
        ensures
            r == self.raw(),
    {
        self.raw_value
    }

    /// A new message with the message identifier set.
    pub fn new_with_id() -> (r: Self)
        ensures
            r.raw() == id_word(72),
    {
        Self::new_with_raw_value(make_id_word(72))
    }

    /// Write rather than read.
    pub fn write(&self) -> (r: bool)
        ensures
            r == (get_field(self.raw(), 31u32, 1) == 1),
    {
        let v = read_field(self.raw_value, 31, 1);
        v == 1
    }

    /// The message with write rather than read replaced.
    pub fn with_write(&self, field_value: bool) -> (r: Self)
        ensures
            r.raw() == set_field(self.raw(), 31u32, 1, field_value as u32),
    {
        CurrentProfileSetup1 { raw_value: write_field(self.raw_value, 31, 1, (if field_value { 1u32 } else { 0u32 })) }
    }

    /// Replaces write rather than read.
    pub fn set_write(&mut self, field_value: bool)
        ensures
            final(self).raw() == set_field(old(self).raw(), 31u32, 1, field_value as u32),
    {
        self.raw_value = write_field(self.raw_value, 31, 1, (if field_value { 1u32 } else { 0u32 }));
    }

    /// Channel.
    pub fn channel_id(&self) -> (r: TleChannel)
        ensures
            r.spec_raw() == get_field(self.raw(), 24u32, 3),
    {
        let v = read_field(self.raw_value, 24, 3);
        proof {
            lemma2_to64();
        }
        TleChannel::new_with_raw_value(v)
    }

    /// The message with channel replaced.
    pub fn with_channel_id(&self, field_value: TleChannel) -> (r: Self)
        ensures
            r.raw() == set_field(self.raw(), 24u32, 3, field_value.spec_raw()),
    {
        CurrentProfileSetup1 { raw_value: write_field(self.raw_value, 24, 3, field_value.raw_value()) }
    }

    /// Replaces channel.
    pub fn set_channel_id(&mut self, field_value: TleChannel)
        ensures
            final(self).raw() == set_field(old(self).raw(), 24u32, 3, field_value.spec_raw()),
    {
        self.raw_value = write_field(self.raw_value, 24, 3, field_value.raw_value());
    }

    /// Threshold of zone n (entry `index`).
    pub fn threshold(&self, index: usize) -> (r: u8)
        requires
            index < 3,
        ensures
            r as u32 == get_field(self.raw(), (12 + index * 4) as u32, 4),
            r < 16,
    {
        let v = read_field(self.raw_value, (12 + index * 4) as u32, 4);
        proof {
            lemma2_to64();
        }
        v as u8
    }

    /// The message with threshold of zone n (entry `index`) replaced.
    pub fn with_threshold(&self, index: usize, field_value: u8) -> (r: Self)
        requires
            index < 3,
            field_value < 16,
        ensures
            r.raw() == set_field(self.raw(), (12 + index * 4) as u32, 4, field_value as u32),
    {
        CurrentProfileSetup1 { raw_value: write_field(self.raw_value, (12 + index * 4) as u32, 4, field_value as u32) }
    }

    /// Replaces threshold of zone n (entry `index`).
    pub fn set_threshold(&mut self, index: usize, field_value: u8)
        requires
            index < 3,
            field_value < 16,
        ensures
            final(self).raw() == set_field(old(self).raw(), (12 + index * 4) as u32, 4, field_value as u32),
    {
        self.raw_value = write_field(self.raw_value, (12 + index * 4) as u32, 4, field_value as u32);
    }

    /// Count of zone n (entry `index`).
    pub fn count(&self, index: usize) -> (r: u8)
        requires
            index < 3,
        ensures
            r as u32 == get_field(self.raw(), (0 + index * 4) as u32, 4),
            r < 16,
    {
        let v = read_field(self.raw_value, (0 + index * 4) as u32, 4);
        proof {
            lemma2_to64();
        }
        v as u8
    }

    /// The message with count of zone n (entry `index`) replaced.
    pub fn with_count(&self, index: usize, field_value: u8) -> (r: Self)
        requires
            index < 3,
            field_value < 16,
        ensures
            r.raw() == set_field(self.raw(), (0 + index * 4) as u32, 4, field_value as u32),
    {
        CurrentProfileSetup1 { raw_value: write_field(self.raw_value, (0 + index * 4) as u32, 4, field_value as u32) }
    }

    /// Replaces count of zone n (entry `index`).
    pub fn set_count(&mut self, index: usize, field_value: u8)
        requires
            index < 3,
            field_value < 16,
        ensures
            final(self).raw() == set_field(old(self).raw(), (0 + index * 4) as u32, 4, field_value as u32),
    {
        self.raw_value = write_field(self.raw_value, (0 + index * 4) as u32, 4, field_value as u32);
    }

}

impl TleMsg for CurrentProfileSetup1 {
    open spec fn spec_raw(&self) -> u32 {
        self.raw()
    }

    fn from_raw(val: u32) -> (r: Self) {
        Self::new_with_raw_value(val)
    }

    fn into_raw(&self) -> (r: u32) {
        self.raw_value
    }

    fn id_match(&self, other: u32) -> (r: bool) {
        self.raw_value & CMD_MATCH_MASK == other & CMD_MATCH_MASK
    }

    fn is_read(&self) -> (r: bool) {
        self.raw_value & WRITE_MATCH_MASK == 0
    }
}

/// Current profile set-up, part 2 (per channel).
#[derive(Clone, Copy)]
pub struct CurrentProfileSetup2 {
    raw_value: u32,
}

impl CurrentProfileSetup2 {
    /// The raw word.
    pub closed spec fn raw(&self) -> u32 {
        self.raw_value
    }

    /// The message with the given raw word.
    pub fn new_with_raw_value(raw_value: u32) -> (r: Self)
        ensures
            r.raw() == raw_value,
    {
        CurrentProfileSetup2 { raw_value }
    }

    /// The raw word.
    pub fn raw_value(&self) -> (r: u32)
        ensures
            r == self.raw(),
    {
        self.raw_value
    }

    /// A new message with the message identifier set.
    pub fn new_with_id() -> (r: Self)
        ensures
            r.raw() == id_word(80),
    {
        Self::new_with_raw_value(make_id_word(80))
    }

    /// Write rather than read.
    pub fn write(&self) -> (r: bool)
        ensures
            r == (get_field(self.raw(), 31u32, 1) == 1),
    {
        let v = read_field(self.raw_value, 31, 1);
        v == 1
    }

    /// The message with write rather than read replaced.
    pub fn with_write(&self, field_value: bool) -> (r: Self)
        ensures
            r.raw() == set_field(self.raw(), 31u32, 1, field_value as u32),
    {
        CurrentProfileSetup2 { raw_value: write_field(self.raw_value, 31, 1, (if field_value { 1u32 } else { 0u32 })) }
    }

    /// Replaces write rather than read.
    pub fn set_write(&mut self, field_value: bool)
        ensures
            final(self).raw() == set_field(old(self).raw(), 31u32, 1, field_value as u32),
    {
        self.raw_value = write_field(self.raw_value, 31, 1, (if field_value { 1u32 } else { 0u32 }));
    }

    /// Channel.
    pub fn channel_id(&self) -> (r: TleChannel)
        ensures
            r.spec_raw() == get_field(self.raw(), 24u32, 3),
    {
        let v = read_field(self.raw_value, 24, 3);
        proof {
            lemma2_to64();
        }
        TleChannel::new_with_raw_value(v)
    }

    /// The message with channel replaced.
    pub fn with_channel_id(&self, field_value: TleChannel) -> (r: Self)
        ensures
            r.raw() == set_field(self.raw(), 24u32, 3, field_value.spec_raw()),
    {
        CurrentProfileSetup2 { raw_value: write_field(self.raw_value, 24, 3, field_value.raw_value()) }
    }

    /// Replaces channel.
    pub fn set_channel_id(&mut self, field_value: TleChannel)
        ensures
            final(self).raw() == set_field(old(self).raw(), 24u32, 3, field_value.spec_raw()),
    {
        self.raw_value = write_field(self.raw_value, 24, 3, field_value.raw_value());
    }

    /// Current profile time out, in steps of 16 A/D sample periods.
    pub fn timeout(&self) -> (r: u8)
        ensures
            r as u32 == get_field(self.raw(), 4u32, 6),
            r < 64,
    {
        let v = read_field(self.raw_value, 4, 6);
        proof {
            lemma2_to64();
        }
        v as u8
    }

    /// The message with current profile time out, in steps of 16 A/D sample periods replaced.
    pub fn with_timeout(&self, field_value: u8) -> (r: Self)
        requires
            field_value < 64,
        ensures
            r.raw() == set_field(self.raw(), 4u32, 6, field_value as u32),
    {
        CurrentProfileSetup2 { raw_value: write_field(self.raw_value, 4, 6, field_value as u32) }
    }

    /// Replaces current profile time out, in steps of 16 A/D sample periods.
    pub fn set_timeout(&mut self, field_value: u8)
        requires
            field_value < 64,
        ensures
            final(self).raw() == set_field(old(self).raw(), 4u32, 6, field_value as u32),
    {
        self.raw_value = write_field(self.raw_value, 4, 6, field_value as u32);
    }

    /// Zone 3 A/D set-up.
    pub fn zone_3_set(&self) -> (r: u8)
        ensures
            r as u32 == get_field(self.raw(), 0u32, 2),
            r < 4,
    {
        let v = read_field(self.raw_value, 0, 2);
        proof {
            lemma2_to64();
        }
        v as u8
    }

    /// The message with zone 3 A/D set-up replaced.
    pub fn with_zone_3_set(&self, field_value: u8) -> (r: Self)
        requires
            field_value < 4,
        ensures
            r.raw() == set_field(self.raw(), 0u32, 2, field_value as u32),
    {
        CurrentProfileSetup2 { raw_value: write_field(self.raw_value, 0, 2, field_value as u32) }
    }

    /// Replaces zone 3 A/D set-up.
    pub fn set_zone_3_set(&mut self, field_value: u8)
        requires
            field_value < 4,
        ensures
            final(self).raw() == set_field(old(self).raw(), 0u32, 2, field_value as u32),
    {
        self.raw_value = write_field(self.raw_value, 0, 2, field_value as u32);
    }

}

impl TleMsg for CurrentProfileSetup2 {
    open spec fn spec_raw(&self) -> u32 {
        self.raw()
    }

    fn from_raw(val: u32) -> (r: Self) {
        Self::new_with_raw_value(val)
    }

    fn into_raw(&self) -> (r: u32) {
        self.raw_value
    }

    fn id_match(&self, other: u32) -> (r: bool) {
        self.raw_value & CMD_MATCH_MASK == other & CMD_MATCH_MASK
    }

    fn is_read(&self) -> (r: bool) {
        self.raw_value & WRITE_MATCH_MASK == 0
    }
}

/// Current profile detection feedback (per channel).
#[derive(Clone, Copy)]
pub struct CurrentProfileDetectionFeedback {
    raw_value: u32,
}

impl CurrentProfileDetectionFeedback {
    /// The raw word.
    pub closed spec fn raw(&self) -> u32 {
        self.raw_value
    }

    /// The message with the given raw word.
    pub fn new_with_raw_value(raw_value: u32) -> (r: Self)
        ensures
            r.raw() == raw_value,
    {
        CurrentProfileDetectionFeedback { raw_value }
    }

    /// The raw word.
    pub fn raw_value(&self) -> (r: u32)
        ensures
            r == self.raw(),
    {
        self.raw_value
    }

    /// A new message with the message identifier set.
    pub fn new_with_id() -> (r: Self)
        ensures
            r.raw() == id_word(88),
    {
        Self::new_with_raw_value(make_id_word(88))
    }

    /// Channel.
    pub fn channel_id(&self) -> (r: TleChannel)
        ensures
            r.spec_raw() == get_field(self.raw(), 24u32, 3),
    {
        let v = read_field(self.raw_value, 24, 3);
        proof {
            lemma2_to64();
        }
        TleChannel::new_with_raw_value(v)
    }

    /// The message with channel replaced.
    pub fn with_channel_id(&self, field_value: TleChannel) -> (r: Self)
        ensures
            r.raw() == set_field(self.raw(), 24u32, 3, field_value.spec_raw()),
    {
        CurrentProfileDetectionFeedback { raw_value: write_field(self.raw_value, 24, 3, field_value.raw_value()) }
    }

    /// Replaces channel.
    pub fn set_channel_id(&mut self, field_value: TleChannel)
        ensures
            final(self).raw() == set_field(old(self).raw(), 24u32, 3, field_value.spec_raw()),
    {
        self.raw_value = write_field(self.raw_value, 24, 3, field_value.raw_value());
    }

    /// Detection interrupted.
    pub fn detection_interrupted(&self) -> (r: bool)
        ensures
            r == (get_field(self.raw(), 2u32, 1) == 1),
    {
        let v = read_field(self.raw_value, 2, 1);
        v == 1
    }

    /// Current profile time out.
    pub fn timeout(&self) -> (r: bool)
        ensures
            r == (get_field(self.raw(), 1u32, 1) == 1),
    {
        let v = read_field(self.raw_value, 1, 1);
        v == 1
    }

    /// Passed since the last read.
    pub fn pass(&self) -> (r: bool)
        ensures
            r == (get_field(self.raw(), 0u32, 1) == 1),
    {
        let v = read_field(self.raw_value, 0, 1);
        v == 1
    }

}

impl TleMsg for CurrentProfileDetectionFeedback {
    open spec fn spec_raw(&self) -> u32 {
        self.raw()
    }

    fn from_raw(val: u32) -> (r: Self) {
        Self::new_with_raw_value(val)
    }

    fn into_raw(&self) -> (r: u32) {
        self.raw_value
    }

    fn id_match(&self, other: u32) -> (r: bool) {
        self.raw_value & CMD_MATCH_MASK == other & CMD_MATCH_MASK
    }

    fn is_read(&self) -> (r: bool) {
        self.raw_value & WRITE_MATCH_MASK == 0
    }
}

/// Generic flags read-out.
#[derive(Clone, Copy)]
pub struct ReadGenericFlags {
    raw_value: u32,
}

impl ReadGenericFlags {
    /// The raw word.
    pub closed spec fn raw(&self) -> u32 {
        self.raw_value
    }

    /// The message with the given raw word.
    pub fn new_with_raw_value(raw_value: u32) -> (r: Self)
        ensures
            r.raw() == raw_value,
    {
        ReadGenericFlags { raw_value }
    }

    /// The raw word.
    pub fn raw_value(&self) -> (r: u32)
        ensures
            r == self.raw(),
    {
        self.raw_value
    }

    /// A new message with the message identifier set.
    pub fn new_with_id() -> (r: Self)
        ensures
            r.raw() == id_word(120),
    {
        Self::new_with_raw_value(make_id_word(120))
    }

    /// Overvoltage happened since the last read.
    pub fn ov(&self) -> (r: bool)
        ensures
            r == (get_field(self.raw(), 3u32, 1) == 1),
    {
        let v = read_field(self.raw_value, 3, 1);
        v == 1
    }

    /// Phase sync happened since the last read.
    pub fn ps(&self) -> (r: bool)
        ensures
            r == (get_field(self.raw(), 2u32, 1) == 1),
    {
        let v = read_field(self.raw_value, 2, 1);
        v == 1
    }

    /// Enable latch.
    pub fn en_l(&self) -> (r: bool)
        ensures
            r == (get_field(self.raw(), 1u32, 1) == 1),
    {
        let v = read_field(self.raw_value, 1, 1);
        v == 1
    }

    /// RESET_B latch.
    pub fn rb_l(&self) -> (r: bool)
        ensures
            r == (get_field(self.raw(), 0u32, 1) == 1),
    {
        let v = read_field(self.raw_value, 0, 1);
        v == 1
    }

}

impl TleMsg for ReadGenericFlags {
    open spec fn spec_raw(&self) -> u32 {
        self.raw()
    }

    fn from_raw(val: u32) -> (r: Self) {
        Self::new_with_raw_value(val)
    }

    fn into_raw(&self) -> (r: u32) {
        self.raw_value
    }

    fn id_match(&self, other: u32) -> (r: bool) {
        self.raw_value & CMD_MATCH_MASK == other & CMD_MATCH_MASK
    }

    fn is_read(&self) -> (r: bool) {
        self.raw_value & WRITE_MATCH_MASK == 0
    }
}

} // verus!
