use vstd::prelude::*;

verus! {

/// `v` forced into the closed range `[lo, hi]`.
pub open spec fn clamp_int(v: int, lo: int, hi: int) -> int {
    if v < lo {
        lo
    } else if v > hi {
        hi
    } else {
        v
    }
}

/// `value` forced into the closed range `[lo, hi]`, as `Ord::clamp` does it.
pub fn clamp_usize(value: usize, lo: usize, hi: usize) -> (r: usize)
    requires
        lo <= hi,
    ensures
        r == clamp_int(value as int, lo as int, hi as int),
        lo <= r <= hi,
        value < lo ==> r == lo,
        value > hi ==> r == hi,
        lo <= value <= hi ==> r == value,
{
    if value < lo {
        lo
    } else if value > hi {
        hi
    } else {
        value
    }
}

/// Clamping is idempotent, and a value already in the range is a fixed point.
pub proof fn lemma_clamp_idempotent(v: int, lo: int, hi: int)
    requires
        lo <= hi,
    ensures
        lo <= clamp_int(v, lo, hi) <= hi,
        clamp_int(clamp_int(v, lo, hi), lo, hi) == clamp_int(v, lo, hi),
        lo <= v <= hi ==> clamp_int(v, lo, hi) == v,
{
}

/// Clamping preserves order.
pub proof fn lemma_clamp_monotone(v: int, w: int, lo: int, hi: int)
    requires
        lo <= hi,
        v <= w,
    ensures
        clamp_int(v, lo, hi) <= clamp_int(w, lo, hi),
{
}

} // verus!
