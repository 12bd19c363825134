//! A byte of field-presence flags.

use vstd::prelude::*;

verus! {

/// Whether bit `i` of `b` is set.
pub open spec fn bit_at(b: u8, i: u8) -> bool {
    (b >> i) & 1u8 == 1u8
}

/// The numbers of the fields whose flags are set in `b`.
pub open spec fn flags_of(b: u8) -> Set<int> {
    Set::new(|i: int| 0 <= i < 8 && bit_at(b, i as u8))
}

proof fn lemma_or_bit(b: u8, i: u8)
    requires
        i < 8,
    ensures
        flags_of(b | (1u8 << i)) == flags_of(b).insert(i as int),
{
    assert forall|j: int| #[trigger] flags_of(b | (1u8 << i)).contains(j) <==> flags_of(
        b,
    ).insert(i as int).contains(j) by {
        if 0 <= j < 8 {
            let k = j as u8;
            assert(bit_at(b | (1u8 << i), k) <==> (k == i || bit_at(b, k))) by (bit_vector)
                requires
                    i < 8,
                    k < 8,
            ;
        }
    }
    assert(flags_of(b | (1u8 << i)) =~= flags_of(b).insert(i as int));
}

proof fn lemma_and_not_bit(b: u8, i: u8)
    requires
        i < 8,
    ensures
        flags_of(b & !(1u8 << i)) == flags_of(b).remove(i as int),
{
    assert forall|j: int| #[trigger] flags_of(b & !(1u8 << i)).contains(j) <==> flags_of(
        b,
    ).remove(i as int).contains(j) by {
        if 0 <= j < 8 {
            let k = j as u8;
            assert(bit_at(b & !(1u8 << i), k) <==> (k != i && bit_at(b, k))) by (bit_vector)
                requires
                    i < 8,
                    k < 8,
            ;
        }
    }
    assert(flags_of(b & !(1u8 << i)) =~= flags_of(b).remove(i as int));
}

/// Presence flags of up to eight optional fields.
#[derive(PartialEq, Eq, Structural, Clone, Copy, Debug)]
pub struct Presence {
    bits: u8,
}

impl View for Presence {
    type V = Set<int>;

    closed spec fn view(&self) -> Set<int> {
        flags_of(self.bits)
    }
}

impl Presence {
    /// No field present.
    pub fn new() -> (r: Presence)
        ensures
            r@ == Set::<int>::empty(),
    {
        let r = Presence { bits: 0 };
        assert forall|j: int| !#[trigger] flags_of(0u8).contains(j) by {
            if 0 <= j < 8 {
                let k = j as u8;
                assert(!bit_at(0u8, k)) by (bit_vector);
            }
        }
        assert(r@ =~= Set::<int>::empty());
        r
    }

    /// Whether field `i` is present.
    pub fn has(&self, i: u8) -> (r: bool)
        requires
            i < 8,
        ensures
            r == self@.contains(i as int),
    {
        let b = self.bits;
        assert(((b & (1u8 << i)) != 0) == bit_at(b, i)) by (bit_vector)
            requires
                i < 8,
        ;
        (self.bits & (1u8 << i)) != 0
    }

    /// Marks field `i` present.
    pub fn insert(&mut self, i: u8)
        requires
            i < 8,
        ensures
            final(self)@ == old(self)@.insert(i as int),
    {
        proof {
            lemma_or_bit(self.bits, i);
        }
        self.bits = self.bits | (1u8 << i);
    }

    /// Marks field `i` absent.
    pub fn remove(&mut self, i: u8)
        requires
            i < 8,
        ensures
            final(self)@ == old(self)@.remove(i as int),
    {
        proof {
            lemma_and_not_bit(self.bits, i);
        }
        self.bits = self.bits & !(1u8 << i);
    }
}

} // verus!
