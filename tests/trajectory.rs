use wheel_motion::trajectory::{DecelerationStage, DecelerationWindows, InterpolationStatus};

#[test]
fn deceleration_stages_in_order() {
    let w = DecelerationWindows { ramp_down_end: 2, plateau_end: 5, ramp_up_end: 7 };
    assert_eq!(w.stage(0), DecelerationStage::RampDown);
    assert_eq!(w.stage(2), DecelerationStage::RampDown);
    assert_eq!(w.stage(3), DecelerationStage::Plateau);
    assert_eq!(w.stage(5), DecelerationStage::Plateau);
    assert_eq!(w.stage(6), DecelerationStage::RampUp);
    assert_eq!(w.stage(7), DecelerationStage::RampUp);
    assert_eq!(w.stage(8), DecelerationStage::Finished);
    assert_eq!(w.stage(1000), DecelerationStage::Finished);
}

#[test]
fn deceleration_without_plateau() {
    // Triangular profile: the plateau window ends before the ramp-down does.
    let w = DecelerationWindows { ramp_down_end: 3, plateau_end: 2, ramp_up_end: 6 };
    assert_eq!(w.stage(3), DecelerationStage::RampDown);
    assert_eq!(w.stage(4), DecelerationStage::RampUp);
    assert_eq!(w.stage(7), DecelerationStage::Finished);
}

#[test]
fn zero_length_deceleration_finishes_on_second_tick() {
    let w = DecelerationWindows { ramp_down_end: 0, plateau_end: 0, ramp_up_end: 0 };
    assert_eq!(w.stage(0), DecelerationStage::RampDown);
    assert_eq!(w.stage(1), DecelerationStage::Finished);
}

#[test]
fn interpolation_status_default_is_done() {
    assert_eq!(InterpolationStatus::default(), InterpolationStatus::Done);
}
