use vstd::prelude::*;

verus! {

/// An unsigned 256-bit machine word, held as two 128-bit halves.
#[derive(Clone, Copy, Debug, PartialEq, Eq, Structural)]
pub struct M256 {
    pub hi: u128,
    pub lo: u128,
}

pub open spec fn two_pow_128() -> int {
    u128::MAX as int + 1
}

/// A word with a nonzero high half is at least 2^128.
pub proof fn lemma_value_bounds(w: M256)
    ensures
        w.hi == 0 ==> w.value() == w.lo,
        w.hi > 0 ==> w.value() >= two_pow_128(),
        w.value() >= 0,
{
    assert(w.hi * two_pow_128() >= 0) by (nonlinear_arith)
        requires w.hi >= 0, two_pow_128() > 0;
    if w.hi == 0 {
        assert(w.hi * two_pow_128() == 0) by (nonlinear_arith)
            requires w.hi == 0;
    } else {
        assert(w.hi * two_pow_128() >= two_pow_128()) by (nonlinear_arith)
            requires w.hi >= 1, two_pow_128() > 0;
    }
}

impl M256 {
    /// The number this word stands for.
    pub open spec fn value(self) -> int {
        self.hi * two_pow_128() + self.lo
    }

    pub fn zero() -> (r: M256)
        ensures
            r.value() == 0,
            r == (M256 { hi: 0, lo: 0 }),
    {
        M256 { hi: 0, lo: 0 }
    }

    pub fn from_u64(v: u64) -> (r: M256)
        ensures
            r.value() == v,
            r == (M256 { hi: 0, lo: v as u128 }),
    {
        M256 { hi: 0, lo: v as u128 }
    }

    pub fn is_zero(&self) -> (r: bool)
        ensures
            r == (self.value() == 0),
    {
        proof {
            lemma_value_bounds(*self);
        }
        self.hi == 0 && self.lo == 0
    }

    /// The word as an index, where it fits in `usize`.
    pub fn as_usize(&self) -> (r: Option<usize>)
        ensures
            r == (if 0 <= self.value() <= usize::MAX {
                Some(self.value() as usize)
            } else {
                None::<usize>
            }),
    {
        proof {
            lemma_value_bounds(*self);
        }
        if self.hi == 0 && self.lo <= usize::MAX as u128 {
            Some(self.lo as usize)
        } else {
            None
        }
    }
}

} // verus!
