//! Fixed-capacity circular history of the most recent measurements.

use vstd::prelude::*;

verus! {

/// `i` brought back into `0..cap`, for `i < 2 * cap`.
pub open spec fn wrap(i: int, cap: int) -> int {
    if i < cap {
        i
    } else {
        i - cap
    }
}

/// The last `capacity` values pushed, oldest first. Pushing into a full buffer
/// overwrites the oldest value in place.
pub struct RingBuffer<T> {
    buf: Vec<T>,
    head: usize,
    len: usize,
    count: usize,
    history: Ghost<Seq<T>>,
}

impl<T: Copy> RingBuffer<T> {
    /// The values held, oldest first.
    pub closed spec fn items(&self) -> Seq<T> {
        self.history@
    }

    pub closed spec fn capacity_spec(&self) -> nat {
        self.buf@.len()
    }

    /// How many values were accepted since the buffer was made or cleared,
    /// saturating at `usize::MAX`.
    pub closed spec fn pushed(&self) -> nat {
        self.count as nat
    }

    pub closed spec fn wf(&self) -> bool {
        &&& self.buf@.len() > 0
        &&& self.head < self.buf@.len()
        &&& self.len <= self.buf@.len()
        &&& self.history@.len() == self.len
        &&& self.len <= self.count
        &&& forall|k: int|
            0 <= k < self.len ==> #[trigger] self.history@[k] == self.buf@[wrap(
                self.head + k,
                self.buf@.len() as int,
            )]
    }

    /// A buffer never holds more values than it has slots.
    pub proof fn lemma_len_bounded(&self)
        requires
            self.wf(),
        ensures
            self.items().len() <= self.capacity_spec(),
            self.capacity_spec() > 0,
    {
    }

    /// An empty buffer of `capacity` slots, each first filled with `fill`.
    pub fn new(capacity: usize, fill: T) -> (r: Self)
        requires
            capacity > 0,
        ensures
            r.wf(),
            r.capacity_spec() == capacity,
            r.items() == Seq::<T>::empty(),
            r.pushed() == 0,
    {
        let mut buf: Vec<T> = Vec::new();
        let mut i: usize = 0;
        while i < capacity
            invariant
                i <= capacity,
                buf@.len() == i,
            decreases capacity - i,
        {
            buf.push(fill);
            i = i + 1;
        }
        RingBuffer { buf, head: 0, len: 0, count: 0, history: Ghost(Seq::empty()) }
    }

    pub fn capacity(&self) -> (r: usize)
        ensures
            r == self.capacity_spec(),
    {
        self.buf.len()
    }

    pub fn len(&self) -> (r: usize)
        requires
            self.wf(),
        ensures
            r == self.items().len(),
    {
        self.len
    }

    pub fn is_full(&self) -> (r: bool)
        requires
            self.wf(),
        ensures
            r <==> self.items().len() == self.capacity_spec(),
    {
        self.len == self.buf.len()
    }

    /// Number of values accepted since the buffer was made or cleared (saturating).
    pub fn count(&self) -> (r: usize)
        ensures
            r == self.pushed(),
    {
        self.count
    }

    /// The `k`-th oldest value held.
    pub fn get(&self, k: usize) -> (r: T)
        requires
            self.wf(),
            k < self.items().len(),
        ensures
            r == self.items()[k as int],
    {
        let cap = self.buf.len();
        let i = if self.head < cap - k {
            self.head + k
        } else {
            self.head - (cap - k)
        };
        self.buf[i]
    }

    /// Records `x` as the newest value; when full, the oldest value is dropped.
    pub fn push(&mut self, x: T)
        requires
            old(self).wf(),
        ensures
            final(self).wf(),
            final(self).capacity_spec() == old(self).capacity_spec(),
            final(self).pushed() == if old(self).pushed() < usize::MAX {
                old(self).pushed() + 1
            } else {
                old(self).pushed()
            },
            old(self).items().len() < old(self).capacity_spec() ==> final(self).items() == old(
                self,
            ).items().push(x),
            old(self).items().len() == old(self).capacity_spec() ==> final(self).items() == old(
                self,
            ).items().drop_first().push(x),
    {
        let cap = self.buf.len();
        let ghost old_hist = self.history@;
        let ghost old_head = self.head as int;
        if self.len < cap {
            let w = if self.head < cap - self.len {
                self.head + self.len
            } else {
                self.head - (cap - self.len)
            };
            self.buf.set(w, x);
            self.len = self.len + 1;
            self.history = Ghost(old_hist.push(x));
            assert forall|k: int| 0 <= k < self.len implies #[trigger] self.history@[k]
                == self.buf@[wrap(self.head + k, cap as int)] by {
                if k < old_hist.len() {
                    assert(self.history@[k] == old_hist[k]);
                }
            }
        } else {
            let h = self.head;
            self.buf.set(h, x);
            self.head = if h + 1 < cap {
                h + 1
            } else {
                0
            };
            self.history = Ghost(old_hist.drop_first().push(x));
            assert forall|k: int| 0 <= k < self.len implies #[trigger] self.history@[k]
                == self.buf@[wrap(self.head + k, cap as int)] by {
                if k < cap - 1 {
                    assert(self.history@[k] == old_hist[k + 1]);
                    assert(wrap(self.head + k, cap as int) == wrap(old_head + k + 1, cap as int));
                }
            }
        }
        if self.count < usize::MAX {
            self.count = self.count + 1;
        }
    }

    /// Forgets every value held and restarts the count.
    pub fn clear(&mut self)
        requires
            old(self).wf(),
        ensures
            final(self).wf(),
            final(self).capacity_spec() == old(self).capacity_spec(),
            final(self).items() == Seq::<T>::empty(),
            final(self).pushed() == 0,
    {
        self.head = 0;
        self.len = 0;
        self.count = 0;
        self.history = Ghost(Seq::empty());
    }
}

} // verus!
