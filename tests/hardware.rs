use wheel_motion::drive::{BrakeControl, DriveOutput, MAX_DUTY_PERCENT};
use wheel_motion::encoder::EncoderCount;

#[test]
fn brake_pulses_once_on_zero_target() {
    let mut b = BrakeControl::new();
    let out = b.drive(40, true, true);
    assert_eq!(
        out,
        DriveOutput { duty_percent: 0, reverse: true, brake_pulse: true, brake_released: false }
    );
    let out = b.drive(40, false, true);
    assert!(!out.brake_pulse);
    assert_eq!(out.duty_percent, 0);
    let out = b.drive(40, false, false);
    assert_eq!(
        out,
        DriveOutput { duty_percent: 40, reverse: false, brake_pulse: false, brake_released: true }
    );
    assert!(!b.applied);
}

#[test]
fn duty_is_capped() {
    let mut b = BrakeControl::new();
    assert_eq!(b.drive(250, false, false).duty_percent, MAX_DUTY_PERCENT);
}

#[test]
fn encoder_counts_across_wraparound() {
    let mut e = EncoderCount::new();
    assert_eq!(e.update(100), 100);
    assert_eq!(e.update(32760), 32660);
    // The counter wraps from 32767 to -32768: forward motion of 16 counts.
    assert_eq!(e.update(-32760), 16);
    assert_eq!(e.get_enc_count(), 100 + 32660 + 16);
    // Backwards across the wrap.
    assert_eq!(e.update(32765), -11);
    assert_eq!(e.get_enc_count(), 100 + 32660 + 16 - 11);
}
