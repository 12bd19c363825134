use wheel_motion::ring_buffer::RingBuffer;
use wheel_motion::tuning::PeakHistory;

#[test]
fn ring_buffer_keeps_latest_values() {
    let mut rb: RingBuffer<i32> = RingBuffer::new(3, 0);
    assert_eq!(rb.capacity(), 3);
    assert_eq!(rb.len(), 0);
    rb.push(1);
    rb.push(2);
    assert_eq!(rb.len(), 2);
    assert!(!rb.is_full());
    assert_eq!((rb.get(0), rb.get(1)), (1, 2));
    rb.push(3);
    assert!(rb.is_full());
    rb.push(4);
    rb.push(5);
    assert_eq!(rb.len(), 3);
    assert_eq!((rb.get(0), rb.get(1), rb.get(2)), (3, 4, 5));
    assert_eq!(rb.count(), 5);
    rb.clear();
    assert_eq!(rb.len(), 0);
    assert_eq!(rb.count(), 0);
}

#[test]
fn ring_buffer_of_one_slot() {
    let mut rb: RingBuffer<u8> = RingBuffer::new(1, 9);
    rb.push(7);
    rb.push(8);
    assert_eq!(rb.len(), 1);
    assert_eq!(rb.get(0), 8);
}

#[test]
fn tuning_completes_after_a_full_history() {
    let mut h: PeakHistory<f32> = PeakHistory::new(10, 0.0);
    for k in 0..9 {
        assert!(!h.record(0.1 * (k + 1) as f32, 50.0));
    }
    assert!(h.record(1.0, 50.0));
    assert_eq!(h.len(), 10);
    assert_eq!(h.capacity(), 10);
    assert_eq!(h.period(0), 0.1);
    assert_eq!(h.period(9), 1.0);
    assert_eq!(h.amplitude(9), 50.0);
    // Once full, each further record keeps it complete and drops the oldest.
    assert!(h.record(2.0, 60.0));
    assert_eq!(h.period(0), 0.2);
    assert_eq!(h.amplitude(9), 60.0);
    h.clear();
    assert_eq!(h.len(), 0);
}
