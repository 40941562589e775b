//! Calibration data: the structure signatures that tell stored
//! calibrations apart, the hydraulic calibration, and the EGS count-down
//! timers.
use vstd::prelude::*;

verus! {

/// Number of shift circuits in the calibration arrays.
pub const SHIFT_ARRAY_LEN: usize = 8;

/// Calibrations of the gearbox (none yet).
#[derive(Clone, Copy)]
pub struct Calibrations {}

/// Hydraulic calibration.
#[derive(Clone, Copy)]
pub struct HydrCal {
    pub p_multi_1: u16,
    pub p_multi_other: u16,
    pub lp_reg_spring_pressure: u16,
    pub overlap_circuit_factor_spc: [u16; 8],
    pub overlap_circuit_factor_mpc: [u16; 8],
    pub overlap_circuit_spring_pressure: [i16; 8],
    pub shift_reg_spring_pressure: u16,
    pub shift_spc_gain: [u16; 8],
    pub min_mpc_pressure: u16,
    pub filter_factor: u8,
    pub mpc_flush_temp_threshold: u8,
    pub mpc_no_flush_time: u16,
    pub mpc_flush_time: u16,
    pub extra_p_not_shifting: u16,
    pub shift_pressure_addr_percent: u16,
    pub inlet_pressure_offset: u16,
    pub inlet_pressure_input_min: u16,
    pub inlet_pressure_input_max: u16,
    pub inlet_pressure_output_min: u16,
    pub inlet_pressure_output_max: u16,
    pub extra_pressure_pump_speed_min: u16,
    pub extra_pressure_pump_speed_max: u16,
    pub extra_pressure_adder_r1_1: u16,
    pub extra_pressure_adder_other_gears: u16,
    pub shift_pressure_factor_percent: u16,
    pub pcs_map_x: [u16; 7],
    pub pcs_map_y: [u16; 4],
    pub pcs_map_z: [u16; 28],
}

/// The signature of a structure descriptor (its field names and types as
/// text): the sum, modulo 2^32, of every byte plus its index.
pub open spec fn signature_of(d: Seq<u8>) -> u32
    decreases d.len(),
{
    if d.len() == 0 {
        0
    } else {
        let n = (d.len() - 1) as int;
        ((signature_of(d.drop_last()) as int + d.last() as int + n) % 0x1_0000_0000) as u32
    }
}

/// Computes the signature of a structure descriptor.
pub fn create_struct_signature(descriptor: &[u8]) -> (r: u32)
    requires
        descriptor@.len() <= u32::MAX,
    ensures
        r == signature_of(descriptor@),
{
    let n = descriptor.len();
    let mut hash: u32 = 0;
    let mut idx: usize = 0;
    while idx < n
        invariant
            n == descriptor@.len(),
            n <= u32::MAX,
            idx <= n,
            hash == signature_of(descriptor@.subrange(0, idx as int)),
        decreases n - idx,
    {
        proof {
            assert(descriptor@.subrange(0, idx + 1).drop_last() =~= descriptor@.subrange(0, idx as int));
        }
        hash = hash.wrapping_add(descriptor[idx] as u32).wrapping_add(idx as u32);
        idx = idx + 1;
    }
    proof {
        assert(descriptor@.subrange(0, n as int) =~= descriptor@);
    }
    hash
}

/// A count-down timer ticked once per EGS cycle.
pub struct EgsCountDownTimer(pub u16);

impl EgsCountDownTimer {
    /// Counts one cycle down (wrapping below zero).
    pub fn decrement(&mut self)
        ensures
            final(self).0 == (if old(self).0 == 0 { u16::MAX } else { (old(self).0 - 1) as u16 }),
    {
        self.0 = self.0.wrapping_sub(1);
    }

    /// Clears the timer.
    pub fn reset(&mut self)
        ensures
            final(self).0 == 0,
    {
        self.0 = 0;
    }
}

} // verus!
