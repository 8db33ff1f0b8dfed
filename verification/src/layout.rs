//! How a two-dimensional block lies in flat storage: run after run, the
//! entry `i` of run `c` at place `c * inner + i`.
use vstd::prelude::*;

verus! {

/// An entry of a block with `outer` runs of `inner` entries each lies inside
/// the block's flat storage.
pub proof fn lemma_flat_bound(c: int, i: int, outer: int, inner: int)
    requires
        0 <= c < outer,
        0 <= i < inner,
    ensures
        0 <= c * inner + i < outer * inner,
        c * inner + inner <= outer * inner,
{
    assert(c * inner >= 0) by (nonlinear_arith)
        requires
            c >= 0,
            inner >= 0,
    ;
    assert((c + 1) * inner <= outer * inner) by (nonlinear_arith)
        requires
            c + 1 <= outer,
            inner >= 0,
    ;
    assert((c + 1) * inner == c * inner + inner) by (nonlinear_arith);
}

/// Two entries of a block share a place in the flat storage only when they
/// are the same entry.
pub proof fn lemma_flat_distinct(c1: int, i1: int, c2: int, i2: int, inner: int)
    requires
        0 <= i1 < inner,
        0 <= i2 < inner,
        c1 * inner + i1 == c2 * inner + i2,
    ensures
        c1 == c2,
        i1 == i2,
{
    if c1 < c2 {
        assert((c1 + 1) * inner <= c2 * inner) by (nonlinear_arith)
            requires
                c1 + 1 <= c2,
                inner >= 0,
        ;
        assert((c1 + 1) * inner == c1 * inner + inner) by (nonlinear_arith);
    } else if c2 < c1 {
        assert((c2 + 1) * inner <= c1 * inner) by (nonlinear_arith)
            requires
                c2 + 1 <= c1,
                inner >= 0,
        ;
        assert((c2 + 1) * inner == c2 * inner + inner) by (nonlinear_arith);
    }
}

} // verus!
