//! The torque converter clutch solenoid. Its 1 kHz electrical PWM is
//! switched on and off at 100 Hz to form a hydraulic PWM: in each 10 ms
//! window the solenoid gets an inrush phase (99 % duty, at most 2.5 ms),
//! then a hold phase (25 % duty) for the rest of the requested on time,
//! then it is shut off hard through its Zener cut-off. Below 3000/65535
//! it stays off, above 62000/65535 it stays on at 25 %.
use vstd::prelude::*;

verus! {

/// Requests below this are off.
pub const TCC_OFF_BELOW: u16 = 3000;
/// Requests above this are continuously on.
pub const TCC_ON_ABOVE: u16 = 62000;

/// The timing and duties of one hydraulic period.
#[derive(Clone, Copy, PartialEq, Eq, Structural)]
pub struct TccPhases {
    /// Timer count that ends the inrush phase (`u32::MAX`: never).
    pub phase_1_count: u32,
    /// Timer count that ends the hold phase (`u32::MAX`: no hold phase).
    pub phase_2_count: u32,
    /// Electrical duty of the first phase.
    pub phase_1_pwm: u32,
    /// Electrical duty of the hold phase.
    pub phase_2_pwm: u32,
}

/// The phases for a request of `pwm` out of 65535, with `full` timer
/// counts per window and a maximal electrical duty of `max_duty`. The on
/// time is `pwm * full / 65535` counts, the inrush at most a quarter of
/// the window; both are computed exactly (the single precision formula
/// may differ by one count), as is the 99 % duty.
pub open spec fn tcc_phases(pwm: u16, full: u32, max_duty: u32) -> TccPhases {
    if pwm < TCC_OFF_BELOW {
        TccPhases { phase_1_count: u32::MAX, phase_2_count: u32::MAX, phase_1_pwm: 0, phase_2_pwm: 0 }
    } else if pwm > TCC_ON_ABOVE {
        TccPhases { phase_1_count: u32::MAX, phase_2_count: u32::MAX, phase_1_pwm: max_duty / 4, phase_2_pwm: 0 }
    } else {
        let on = (pwm as int * full as int / 65535) as u32;
        let inrush_max = full / 4;
        let inrush = if on < inrush_max { on } else { inrush_max };
        let hold = (on - inrush) as u32;
        let duty_99 = (max_duty as int * 99 / 100) as u32;
        if hold != 0 {
            TccPhases { phase_1_count: inrush, phase_2_count: (inrush + hold) as u32, phase_1_pwm: duty_99, phase_2_pwm: max_duty / 4 }
        } else {
            TccPhases { phase_1_count: inrush, phase_2_count: u32::MAX, phase_1_pwm: duty_99, phase_2_pwm: 0 }
        }
    }
}

/// What to program at the start of a period: the two timer watch points
/// and the electrical duty.
#[derive(Clone, Copy, PartialEq, Eq, Structural)]
pub struct TccPeriodStart {
    pub watch_1: u32,
    pub watch_2: u32,
    pub duty: u32,
}

/// The torque converter solenoid controller.
pub struct TccSol {
    max_duty: u32,
    full_window_cycles: u32,
    phases: TccPhases,
    fdbk_timer_val: u32,
    req_pwm: u16,
}

impl TccSol {
    /// The phases in use.
    pub closed spec fn spec_phases(&self) -> TccPhases {
        self.phases
    }

    /// The last request.
    pub closed spec fn spec_req_pwm(&self) -> u16 {
        self.req_pwm
    }

    /// The timer count of the last feedback pulse.
    pub closed spec fn spec_fdbk(&self) -> u32 {
        self.fdbk_timer_val
    }

    /// Timer counts per window.
    pub closed spec fn spec_full_window(&self) -> u32 {
        self.full_window_cycles
    }

    /// Maximal electrical duty.
    pub closed spec fn spec_max_duty(&self) -> u32 {
        self.max_duty
    }

    /// A solenoid that is off, for a PWM with `max_duty` and a timer with
    /// `full_window_cycles` counts per 10 ms.
    pub fn new(max_duty: u32, full_window_cycles: u32) -> (r: Self)
        ensures
            r.spec_phases() == tcc_phases(0, full_window_cycles, max_duty),
            r.spec_req_pwm() == 0,
            r.spec_fdbk() == 0,
            r.spec_full_window() == full_window_cycles,
            r.spec_max_duty() == max_duty,
    {
        TccSol {
            max_duty,
            full_window_cycles,
            phases: TccPhases { phase_1_count: u32::MAX, phase_2_count: u32::MAX, phase_1_pwm: 0, phase_2_pwm: 0 },
            fdbk_timer_val: 0,
            req_pwm: 0,
        }
    }

    /// Requests a hydraulic duty of `pwm` out of 65535.
    pub fn write_tcc_sol(&mut self, pwm: u16)
        ensures
            final(self).spec_phases() == tcc_phases(pwm, old(self).spec_full_window(), old(self).spec_max_duty()),
            final(self).spec_req_pwm() == pwm,
            final(self).spec_fdbk() == old(self).spec_fdbk(),
            final(self).spec_full_window() == old(self).spec_full_window(),
            final(self).spec_max_duty() == old(self).spec_max_duty(),
    {
        self.req_pwm = pwm;
        let full = self.full_window_cycles;
        let max_duty = self.max_duty;
        if pwm < TCC_OFF_BELOW {
            self.phases = TccPhases { phase_1_count: u32::MAX, phase_2_count: u32::MAX, phase_1_pwm: 0, phase_2_pwm: 0 };
        } else if pwm > TCC_ON_ABOVE {
            self.phases = TccPhases { phase_1_count: u32::MAX, phase_2_count: u32::MAX, phase_1_pwm: max_duty / 4, phase_2_pwm: 0 };
        } else {
            proof {
                assert((pwm as int) * (full as int) / 65535 <= full as int) by (nonlinear_arith)
                    requires
                        pwm <= 65535,
                ;
                assert((max_duty as int) * 99 / 100 <= max_duty as int) by (nonlinear_arith);
            }
            let on = ((pwm as u64) * (full as u64) / 65535) as u32;
            let inrush_max = full / 4;
            let inrush = if on < inrush_max { on } else { inrush_max };
            let hold = on - inrush;
            let duty_99 = ((max_duty as u64) * 99 / 100) as u32;
            if hold != 0 {
                self.phases = TccPhases { phase_1_count: inrush, phase_2_count: inrush + hold, phase_1_pwm: duty_99, phase_2_pwm: max_duty / 4 };
            } else {
                self.phases = TccPhases { phase_1_count: inrush, phase_2_count: u32::MAX, phase_1_pwm: duty_99, phase_2_pwm: 0 };
            }
        }
    }

    /// At the end of a window: keeps the feedback count of the window
    /// (`fdbk`) and gives the watch points and duty of the next one.
    pub fn on_tcc_ovf(&mut self, fdbk: u32) -> (r: TccPeriodStart)
        ensures
            r == (if old(self).spec_phases().phase_2_count != u32::MAX {
                TccPeriodStart { watch_1: old(self).spec_phases().phase_1_count, watch_2: u32::MAX, duty: old(self).spec_phases().phase_1_pwm }
            } else {
                TccPeriodStart {
                    watch_1: old(self).spec_phases().phase_2_count,
                    watch_2: old(self).spec_phases().phase_1_count,
                    duty: old(self).spec_phases().phase_1_pwm,
                }
            }),
            final(self).spec_fdbk() == fdbk,
            final(self).spec_phases() == old(self).spec_phases(),
            final(self).spec_req_pwm() == old(self).spec_req_pwm(),
            final(self).spec_full_window() == old(self).spec_full_window(),
            final(self).spec_max_duty() == old(self).spec_max_duty(),
    {
        let r = if self.phases.phase_2_count != u32::MAX {
            TccPeriodStart { watch_1: self.phases.phase_1_count, watch_2: u32::MAX, duty: self.phases.phase_1_pwm }
        } else {
            TccPeriodStart { watch_1: self.phases.phase_2_count, watch_2: self.phases.phase_1_count, duty: self.phases.phase_1_pwm }
        };
        self.fdbk_timer_val = fdbk;
        r
    }

    /// At the first watch point the solenoid is switched off.
    pub fn on_tcc_mc1(&self) -> (r: u32)
        ensures
            r == 0,
    {
        0
    }

    /// At the second watch point the hold phase starts.
    pub fn on_tcc_mc2(&self) -> (r: u32)
        ensures
            r == self.spec_phases().phase_2_pwm,
    {
        self.phases.phase_2_pwm
    }

    /// The hydraulic duty seen, out of 65535: the request itself when it
    /// is off or continuously on (there is no feedback pulse then), else
    /// the feedback count as a share of the window, rounded down and
    /// capped at 65535.
    pub fn get_observed_pwm(&self) -> (r: u16)
        requires
            self.spec_full_window() > 0,
        ensures
            r == (if self.spec_req_pwm() < TCC_OFF_BELOW || self.spec_req_pwm() > TCC_ON_ABOVE {
                self.spec_req_pwm()
            } else {
                let v = self.spec_fdbk() as int * 65535 / self.spec_full_window() as int;
                if v > 65535 { 65535u16 } else { v as u16 }
            }),
    {
        if self.req_pwm < TCC_OFF_BELOW || self.req_pwm > TCC_ON_ABOVE {
            self.req_pwm
        } else {
            let v = (self.fdbk_timer_val as u64) * 65535 / (self.full_window_cycles as u64);
            if v > 65535 {
                65535
            } else {
                v as u16
            }
        }
    }
}

/// In the controlled range the inrush lasts at most a quarter of the
/// window (2.5 ms), and the inrush and hold phases together last exactly
/// the requested on time.
pub proof fn lemma_tcc_phase_budget(pwm: u16, full: u32, max_duty: u32)
    requires
        TCC_OFF_BELOW <= pwm <= TCC_ON_ABOVE,
    ensures
        tcc_phases(pwm, full, max_duty).phase_1_count <= full / 4,
        ({
            let p = tcc_phases(pwm, full, max_duty);
            let on = pwm as int * full as int / 65535;
            if p.phase_2_count == u32::MAX { p.phase_1_count == on } else { p.phase_2_count == on }
        }),
{
    assert((pwm as int) * (full as int) / 65535 <= full as int) by (nonlinear_arith)
        requires
            pwm <= 65535,
    ;
    assert((pwm as int) * (full as int) / 65535 < 0xFFFF_FFFF) by (nonlinear_arith)
        requires
            pwm <= 62000,
            full <= 0xFFFF_FFFFu32,
    ;
}

} // verus!
