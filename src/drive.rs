//! The per-tick output to the motor driver: duty cycle, direction and brake.

use vstd::prelude::*;

verus! {

/// Largest duty cycle, in percent.
pub const MAX_DUTY_PERCENT: u8 = 100;

/// What the driver applies this tick.
#[derive(PartialEq, Eq, Structural, Clone, Copy, Debug)]
pub struct DriveOutput {
    /// Duty cycle in percent, at most [`MAX_DUTY_PERCENT`].
    pub duty_percent: u8,
    /// Drive in the negative direction.
    pub reverse: bool,
    /// Pulse the brake line this tick.
    pub brake_pulse: bool,
    /// Keep the brake line released.
    pub brake_released: bool,
}

/// Brake bookkeeping of one motor: the brake is pulsed once when the target
/// velocity becomes zero and released when motion is requested again.
#[derive(PartialEq, Eq, Structural, Clone, Copy, Debug)]
pub struct BrakeControl {
    pub applied: bool,
}

impl BrakeControl {
    pub fn new() -> (r: BrakeControl)
        ensures
            !r.applied,
    {
        BrakeControl { applied: false }
    }

    /// The output for a regulator effort of `magnitude_percent` in direction
    /// `reverse`, when the target velocity is zero or not. A zero target forces
    /// zero duty and pulses the brake on its first tick; otherwise the duty follows
    /// the effort, capped at 100 %, and the brake is released.
    pub fn drive(&mut self, magnitude_percent: u8, reverse: bool, target_is_zero: bool) -> (r:
        DriveOutput)
        ensures
            r.reverse == reverse,
            r.duty_percent <= MAX_DUTY_PERCENT,
            target_is_zero ==> {
                &&& r.duty_percent == 0
                &&& r.brake_pulse == !old(self).applied
                &&& !r.brake_released
                &&& final(self).applied
            },
            !target_is_zero ==> {
                &&& r.duty_percent == if magnitude_percent > MAX_DUTY_PERCENT {
                    MAX_DUTY_PERCENT
                } else {
                    magnitude_percent
                }
                &&& !r.brake_pulse
                &&& r.brake_released
                &&& !final(self).applied
            },
    {
        if target_is_zero {
            let pulse = !self.applied;
            self.applied = true;
            DriveOutput { duty_percent: 0, reverse, brake_pulse: pulse, brake_released: false }
        } else {
            self.applied = false;
            let duty = if magnitude_percent > MAX_DUTY_PERCENT {
                MAX_DUTY_PERCENT
            } else {
                magnitude_percent
            };
            DriveOutput { duty_percent: duty, reverse, brake_pulse: false, brake_released: true }
        }
    }
}

} // verus!
