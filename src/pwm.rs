//! Settings for the PWM check of the command line: which action to take, and
//! the period and duty time of a signal.
use vstd::prelude::*;

verus! {

/// Nanoseconds in a second.
pub const NS_PER_SEC: u32 = 1_000_000_000;

#[derive(Debug, Clone, Copy, PartialEq, Eq, Structural)]
pub enum PwmAction {
    /// Run channel `pwm` at `frequency` Hz with a duty cycle of `duty` percent.
    Enable { pwm: u32, frequency: u32, duty: u32 },
    Disable { pwm: u32 },
    Nothing,
}

/// Picks the action: disabling wins over enabling at a given frequency;
/// with neither asked for, nothing is done.
pub fn pwm_action(pwm: u32, disable: bool, enable: Option<u32>, duty: u32) -> (r: PwmAction)
    ensures
        disable ==> r == (PwmAction::Disable { pwm }),
        !disable && (enable is Some) ==> r == (PwmAction::Enable { pwm, frequency: enable->0, duty }),
        !disable && (enable is None) ==> r == PwmAction::Nothing,
{
    if disable {
        PwmAction::Disable { pwm }
    } else {
        match enable {
            Some(frequency) => PwmAction::Enable { pwm, frequency, duty },
            None => PwmAction::Nothing,
        }
    }
}

/// Whether the duty time of a signal at `frequency` Hz and `duty` percent
/// fits the nanosecond counters of the PWM interface.
pub open spec fn timing_fits(frequency: u32, duty: u32) -> bool {
    frequency > 0 && (NS_PER_SEC / frequency) * duty <= u32::MAX
}

/// The period and the duty time, in nanoseconds, of a signal at `frequency`
/// Hz that is high `duty` percent of the time (both rounded down).
pub fn timing(frequency: u32, duty: u32) -> (r: (u32, u32))
    requires
        timing_fits(frequency, duty),
    ensures
        r.0 == NS_PER_SEC / frequency,
        r.1 == (NS_PER_SEC / frequency) * duty / 100,
{
    let period = NS_PER_SEC / frequency;
    let duty_time = period * duty / 100;
    (period, duty_time)
}

} // verus!
