//! Rounding sizes and offsets up to an alignment boundary.
//!
//! The operating system hands out memory in whole pages, and allocations are
//! served on 8-byte boundaries, so the arena constantly rounds byte counts up
//! to the next multiple of some positive granularity.

use vstd::arithmetic::div_mod::{
    lemma_div_is_ordered, lemma_fundamental_div_mod, lemma_fundamental_div_mod_converse_div,
    lemma_mod_bound, lemma_mod_multiples_basic, lemma_mod_self_0, lemma_small_mod,
};
use vstd::arithmetic::mul::lemma_mul_inequality;
use vstd::prelude::*;

verus! {

/// `n` rounded up to the next multiple of `align`.
pub open spec fn spec_align_up(n: int, align: int) -> int
    recommends
        0 < align,
{
    ((n + align - 1) / align) * align
}

/// The rounded value is a multiple of `align` and lies within one
/// granule above `n`.
pub proof fn lemma_align_up(n: int, align: int)
    requires
        0 <= n,
        0 < align,
    ensures
        spec_align_up(n, align) % align == 0,
        n <= spec_align_up(n, align) < n + align,
{
    let q = (n + align - 1) / align;
    lemma_fundamental_div_mod(n + align - 1, align);
    lemma_mod_bound(n + align - 1, align);
    lemma_mod_multiples_basic(q, align);
}

/// Rounding up is monotone in the value being rounded.
pub proof fn lemma_align_up_monotone(n1: int, n2: int, align: int)
    requires
        n1 <= n2,
        0 < align,
    ensures
        spec_align_up(n1, align) <= spec_align_up(n2, align),
{
    lemma_div_is_ordered(n1 + align - 1, n2 + align - 1, align);
    lemma_mul_inequality((n1 + align - 1) / align, (n2 + align - 1) / align, align);
}

/// The distance from `n` up to the next multiple of `align`.
pub open spec fn spec_align_pad(n: int, align: int) -> int
    recommends
        0 < align,
{
    (align - n % align) % align
}

/// Rounding up adds exactly the padding distance, which never reaches a
/// full granule.  This form lets the padding be computed and compared
/// before any addition, so the computation cannot overflow.
pub proof fn lemma_align_up_pad(n: int, align: int)
    requires
        0 <= n,
        0 < align,
    ensures
        spec_align_up(n, align) == n + spec_align_pad(n, align),
        0 <= spec_align_pad(n, align) < align,
{
    let q = n / align;
    let r0 = n % align;
    lemma_fundamental_div_mod(n, align);
    lemma_mod_bound(n, align);
    lemma_mod_self_0(align);
    if r0 == 0 {
        lemma_fundamental_div_mod_converse_div(n + align - 1, align, q, align - 1);
        lemma_mod_multiples_basic(q, align);
    } else {
        lemma_small_mod((align - r0) as nat, align as nat);
        assert((q + 1) * align == q * align + align) by (nonlinear_arith);
        lemma_fundamental_div_mod_converse_div(n + align - 1, align, q + 1, r0 - 1);
    }
}

/// A nonnegative multiple of a multiple of `p` is itself a multiple of `p`.
pub proof fn lemma_multiple_of_multiple(x: int, c: int, p: int)
    requires
        0 <= x,
        0 < c,
        0 < p,
        x % c == 0,
        c % p == 0,
    ensures
        x % p == 0,
{
    lemma_fundamental_div_mod(x, c);
    lemma_fundamental_div_mod(c, p);
    let qx = x / c;
    let qc = c / p;
    assert(x == (qc * qx) * p) by (nonlinear_arith)
        requires
            x == c * qx,
            c == p * qc,
    ;
    lemma_mod_multiples_basic(qc * qx, p);
}

/// Rounds `n` up to the next multiple of `align`.
pub fn align_up(n: usize, align: usize) -> (r: usize)
    requires
        align > 0,
        n + align - 1 <= usize::MAX,
    ensures
        r == spec_align_up(n as int, align as int),
        r % align == 0,
        n <= r < n + align,
{
    proof {
        lemma_align_up(n as int, align as int);
    }
    ((n + (align - 1)) / align) * align
}

} // verus!
