//! Whole-number square roots of credit amounts.

use vstd::prelude::*;

verus! {

/// `r` is the square root of `c`, rounded down to a whole number.
pub open spec fn is_whole_root(c: int, r: int) -> bool {
    0 <= r && r * r <= c < (r + 1) * (r + 1)
}

/// The square root of `c`, rounded down to a whole number; nothing where `c`
/// is negative and has no root.
pub open spec fn whole_root(c: int) -> int {
    if c < 0 {
        0
    } else {
        choose|r: int| is_whole_root(c, r)
    }
}

/// No number has two rounded-down square roots.
pub proof fn lemma_whole_root_unique(c: int, r1: int, r2: int)
    requires
        is_whole_root(c, r1),
        is_whole_root(c, r2),
    ensures
        r1 == r2,
{
    if r1 < r2 {
        assert((r1 + 1) * (r1 + 1) <= r2 * r2) by (nonlinear_arith)
            requires
                0 <= r1,
                r1 + 1 <= r2,
        ;
    } else if r2 < r1 {
        assert((r2 + 1) * (r2 + 1) <= r1 * r1) by (nonlinear_arith)
            requires
                0 <= r2,
                r2 + 1 <= r1,
        ;
    }
}

/// A rounded-down square root is the one that `whole_root` names.
pub proof fn lemma_whole_root_is(c: int, r: int)
    requires
        is_whole_root(c, r),
    ensures
        whole_root(c) == r,
{
    lemma_whole_root_unique(c, r, whole_root(c));
}

/// The whole votes that `credits` buy: the square root of `credits`, rounded
/// down. This is the number shown beside a voter in the results. A negative
/// number of credits buys nothing.
pub fn whole_votes(credits: i32) -> (votes: i32)
    ensures
        votes as int == whole_root(credits as int),
        credits >= 0 ==> is_whole_root(credits as int, votes as int),
        credits < 0 ==> votes == 0,
{
    if credits < 0 {
        return 0;
    }
    let c: i64 = credits as i64;
    let mut low: i64 = 0;
    let mut high: i64 = 46341;
    assert(46341 * 46341 > i32::MAX) by (nonlinear_arith);
    while high - low > 1
        invariant
            0 <= low < high <= 46341,
            low * low <= c < high * high,
            c == credits,
        decreases high - low,
    {
        let mid: i64 = low + (high - low) / 2;
        assert(0 <= mid * mid <= 46341 * 46341) by (nonlinear_arith)
            requires
                0 <= mid <= 46341,
        ;
        if mid * mid <= c {
            low = mid;
        } else {
            high = mid;
        }
    }
    proof {
        assert(high == low + 1);
        lemma_whole_root_is(credits as int, low as int);
    }
    low as i32
}

} // verus!
