//! The actuator's duty, as a percentage and as a driver value.

use vstd::prelude::*;

verus! {

/// A requested percentage brought into `0..=100`.
pub open spec fn clamp_percent(percent: int) -> int {
    if percent > 100 {
        100
    } else if percent < 0 {
        0
    } else {
        percent
    }
}

/// The duty of the actuator. The percentage is always within `0..=100`.
#[derive(Clone, Copy, Debug, PartialEq, Eq, Structural)]
pub struct PwmController {
    pub percent: i64,
}

impl PwmController {
    /// The percentage is within its range.
    pub open spec fn wf(&self) -> bool {
        0 <= self.percent <= 100
    }

    /// A controller at rest.
    pub fn new() -> (pwm: Self)
        ensures
            pwm.wf(),
            pwm.percent == 0,
    {
        PwmController { percent: 0 }
    }

    pub fn get_percent(&self) -> (percent: i64)
        ensures
            percent == self.percent,
    {
        self.percent
    }

    /// Sets the duty to `percent`, clamped to `0..=100`.
    pub fn set_percent(&mut self, percent: i64)
        ensures
            final(self).percent == clamp_percent(percent as int),
            final(self).wf(),
    {
        self.percent = if percent > 100 {
            100
        } else if percent < 0 {
            0
        } else {
            percent
        };
    }

    /// The driver value of the current duty on a scale of `max_duty`.
    pub fn duty(&self, max_duty: u32) -> (duty: u32)
        requires
            self.wf(),
        ensures
            duty == self.percent * max_duty / 100,
            duty <= max_duty,
    {
        let percent: u64 = self.percent as u64;
        let scale: u64 = max_duty as u64;
        assert(percent * scale <= 100 * scale) by (nonlinear_arith)
            requires
                percent <= 100,
        ;
        let wide: u64 = percent * scale;
        assert(wide / 100 <= max_duty);
        (wide / 100) as u32
    }
}

} // verus!
