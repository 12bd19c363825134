//! Status of the jerk-limited trajectory interpolator as the sequencer sees it.

use vstd::prelude::*;

verus! {

/// Progress of the current trajectory profile.
#[derive(PartialEq, Eq, Structural, Clone, Copy, Debug)]
pub enum InterpolationStatus {
    Done,
    Busy,
    Error,
}

impl Default for InterpolationStatus {
    fn default() -> (r: InterpolationStatus)
        ensures
            r == InterpolationStatus::Done,
    {
        InterpolationStatus::Done
    }
}

/// Phase of the deceleration that ends a profile.
#[derive(PartialEq, Eq, Structural, Clone, Copy, Debug)]
pub enum DecelerationStage {
    /// Jerk drives the acceleration down to its minimum.
    RampDown,
    /// Constant minimum acceleration.
    Plateau,
    /// Jerk brings the acceleration back to the end value.
    RampUp,
    /// The deceleration is over: the profile is done.
    Finished,
}

/// Tick boundaries of the deceleration phases, counted from its first tick.
#[derive(PartialEq, Eq, Structural, Clone, Copy, Debug)]
pub struct DecelerationWindows {
    pub ramp_down_end: usize,
    pub plateau_end: usize,
    pub ramp_up_end: usize,
}

/// The phase that tick `elapsed` of the deceleration falls in; each window is
/// closed at both ends and the earlier window wins.
pub open spec fn stage_spec(elapsed: usize, w: DecelerationWindows) -> DecelerationStage {
    if elapsed <= w.ramp_down_end {
        DecelerationStage::RampDown
    } else if w.ramp_down_end <= elapsed && elapsed <= w.plateau_end {
        DecelerationStage::Plateau
    } else if w.plateau_end <= elapsed && elapsed <= w.ramp_up_end {
        DecelerationStage::RampUp
    } else {
        DecelerationStage::Finished
    }
}

impl DecelerationWindows {
    /// The phase of tick `elapsed` of the deceleration.
    pub fn stage(&self, elapsed: usize) -> (r: DecelerationStage)
        ensures
            r == stage_spec(elapsed, *self),
    {
        if elapsed <= self.ramp_down_end {
            DecelerationStage::RampDown
        } else if self.ramp_down_end <= elapsed && elapsed <= self.plateau_end {
            DecelerationStage::Plateau
        } else if self.plateau_end <= elapsed && elapsed <= self.ramp_up_end {
            DecelerationStage::RampUp
        } else {
            DecelerationStage::Finished
        }
    }
}

/// A deceleration finishes exactly on the first tick past all of its windows,
/// and is finished on every later tick.
pub proof fn lemma_deceleration_finishes(w: DecelerationWindows, elapsed: usize)
    ensures
        stage_spec(elapsed, w) == DecelerationStage::Finished <==> (elapsed > w.ramp_down_end
            && elapsed > w.plateau_end && elapsed > w.ramp_up_end),
        forall|later: usize|
            later >= elapsed && stage_spec(elapsed, w) == DecelerationStage::Finished
                ==> #[trigger] stage_spec(later, w) == DecelerationStage::Finished,
{
}

} // verus!
