//! Bookkeeping of relay auto-tuning: the amplitude and period of the most recent
//! half-cycles, and when enough of them have been seen to compute gains.

use vstd::prelude::*;
use crate::ring_buffer::RingBuffer;

verus! {

/// Length of a history after one more record, with room for `capacity` entries.
pub open spec fn len_after_record(len: nat, capacity: nat) -> nat {
    if len < capacity {
        len + 1
    } else {
        capacity
    }
}

/// Length of a history after `n` more records.
pub open spec fn len_after_records(len: nat, capacity: nat, n: nat) -> nat
    decreases n,
{
    if n == 0 {
        len
    } else {
        len_after_records(len_after_record(len, capacity), capacity, (n - 1) as nat)
    }
}

/// Periods and amplitudes of the last half-cycles, newest last.
pub struct PeakHistory<T> {
    periods: RingBuffer<T>,
    amplitudes: RingBuffer<T>,
}

impl<T: Copy> PeakHistory<T> {
    pub closed spec fn periods(&self) -> Seq<T> {
        self.periods.items()
    }

    pub closed spec fn amplitudes(&self) -> Seq<T> {
        self.amplitudes.items()
    }

    pub closed spec fn capacity_spec(&self) -> nat {
        self.periods.capacity_spec()
    }

    pub closed spec fn wf(&self) -> bool {
        &&& self.periods.wf()
        &&& self.amplitudes.wf()
        &&& self.periods.capacity_spec() == self.amplitudes.capacity_spec()
        &&& self.periods.items().len() == self.amplitudes.items().len()
    }

    /// An empty history with room for `capacity` half-cycles.
    pub fn new(capacity: usize, fill: T) -> (r: Self)
        requires
            capacity > 0,
        ensures
            r.wf(),
            r.capacity_spec() == capacity,
            r.periods() == Seq::<T>::empty(),
            r.amplitudes() == Seq::<T>::empty(),
    {
        PeakHistory {
            periods: RingBuffer::new(capacity, fill),
            amplitudes: RingBuffer::new(capacity, fill),
        }
    }

    pub fn capacity(&self) -> (r: usize)
        requires
            self.wf(),
        ensures
            r == self.capacity_spec(),
    {
        self.periods.capacity()
    }

    pub fn len(&self) -> (r: usize)
        requires
            self.wf(),
        ensures
            r == self.periods().len(),
    {
        self.periods.len()
    }

    /// The `k`-th oldest recorded period.
    pub fn period(&self, k: usize) -> (r: T)
        requires
            self.wf(),
            k < self.periods().len(),
        ensures
            r == self.periods()[k as int],
    {
        self.periods.get(k)
    }

    /// The `k`-th oldest recorded amplitude.
    pub fn amplitude(&self, k: usize) -> (r: T)
        requires
            self.wf(),
            k < self.amplitudes().len(),
        ensures
            r == self.amplitudes()[k as int],
    {
        self.amplitudes.get(k)
    }

    /// Records one half-cycle, dropping the oldest when full, and tells whether the
    /// history is now complete (full), so that gains can be computed.
    pub fn record(&mut self, period: T, amplitude: T) -> (complete: bool)
        requires
            old(self).wf(),
        ensures
            final(self).wf(),
            final(self).capacity_spec() == old(self).capacity_spec(),
            final(self).periods().len() == len_after_record(
                old(self).periods().len(),
                old(self).capacity_spec(),
            ),
            final(self).periods().last() == period,
            final(self).amplitudes().last() == amplitude,
            final(self).periods() == (if old(self).periods().len() < old(self).capacity_spec() {
                old(self).periods()
            } else {
                old(self).periods().drop_first()
            }).push(period),
            final(self).amplitudes() == (if old(self).amplitudes().len()
                < old(self).capacity_spec() {
                old(self).amplitudes()
            } else {
                old(self).amplitudes().drop_first()
            }).push(amplitude),
            complete <==> final(self).periods().len() == final(self).capacity_spec(),
    {
        proof {
            self.periods.lemma_len_bounded();
            self.amplitudes.lemma_len_bounded();
        }
        self.periods.push(period);
        self.amplitudes.push(amplitude);
        self.periods.is_full()
    }

    /// Forgets every recorded half-cycle.
    pub fn clear(&mut self)
        requires
            old(self).wf(),
        ensures
            final(self).wf(),
            final(self).capacity_spec() == old(self).capacity_spec(),
            final(self).periods() == Seq::<T>::empty(),
            final(self).amplitudes() == Seq::<T>::empty(),
    {
        self.periods.clear();
        self.amplitudes.clear();
    }
}

/// Recording half-cycles never overfills the history, and from any length,
/// `capacity` more records always complete it: tuning always ends.
pub proof fn lemma_records_complete(len: nat, capacity: nat, n: nat)
    requires
        len <= capacity,
    ensures
        len_after_records(len, capacity, n) <= capacity,
        len_after_records(len, capacity, n) == if len + n < capacity {
            len + n
        } else {
            capacity
        },
        n >= capacity ==> len_after_records(len, capacity, n) == capacity,
    decreases n,
{
    if n > 0 {
        lemma_records_complete(len_after_record(len, capacity), capacity, (n - 1) as nat);
    }
}

} // verus!
