//! Quadrature count accumulation across wraparounds of the 16-bit hardware counter.

use vstd::prelude::*;

verus! {

/// The 16-bit reading that a counter shows after moving `d` counts from `prev`,
/// for `|d|` at most one counter range.
pub open spec fn reading_after(prev: i16, d: int) -> i16 {
    let x = prev + d;
    if x > i16::MAX {
        (x - 65536) as i16
    } else if x < i16::MIN {
        (x + 65536) as i16
    } else {
        x as i16
    }
}

/// Accumulated encoder count of one wheel, fed with successive readings of the
/// wrapping 16-bit hardware counter.
pub struct EncoderCount {
    count: i32,
    prev_qei: i16,
}

impl EncoderCount {
    pub closed spec fn count_spec(&self) -> i32 {
        self.count
    }

    pub closed spec fn last_reading(&self) -> i16 {
        self.prev_qei
    }

    pub fn new() -> (r: EncoderCount)
        ensures
            r.count_spec() == 0,
            r.last_reading() == 0,
    {
        EncoderCount { count: 0, prev_qei: 0 }
    }

    pub fn get_enc_count(&self) -> (r: i32)
        ensures
            r == self.count_spec(),
    {
        self.count
    }

    /// Takes a new counter reading and returns the counts moved since the last
    /// one, the difference of the readings modulo 2^16 as a signed value; the
    /// accumulated count moves by as much (wrapping at the `i32` range).
    pub fn update(&mut self, qei: i16) -> (diff: i32)
        ensures
            diff == qei.wrapping_sub(old(self).last_reading()) as i32,
            final(self).last_reading() == qei,
            final(self).count_spec() == old(self).count_spec().wrapping_add(diff),
    {
        let step = qei.wrapping_sub(self.prev_qei) as i32;
        self.count = self.count.wrapping_add(step);
        self.prev_qei = qei;
        step
    }
}

/// Between two readings the counted movement is the true movement, whenever the
/// wheel moved by less than half the counter range.
pub proof fn lemma_update_recovers_motion(prev: i16, d: int)
    requires
        i16::MIN <= d <= i16::MAX,
    ensures
        reading_after(prev, d).wrapping_sub(prev) == d,
{
}

} // verus!
