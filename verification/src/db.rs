//! The consistency verifier of the block store: the heights that the store
//! holds must add up to the sum of the range from its lowest to its top
//! height.

use vstd::prelude::*;

verus! {

/// The sum of the heights `lo, lo + 1, ..., hi`; zero when `hi < lo`.
pub open spec fn range_sum(lo: int, hi: int) -> int
    decreases hi - lo + 1,
{
    if hi < lo {
        0
    } else {
        hi + range_sum(lo, hi - 1)
    }
}

/// The sum of a range is half the number of its terms times the sum of its
/// ends.
pub proof fn lemma_range_sum_closed(lo: int, hi: int)
    requires
        lo <= hi + 1,
    ensures
        2 * range_sum(lo, hi) == (hi - lo + 1) * (lo + hi),
    decreases hi - lo + 1,
{
    if hi < lo {
        assert((hi - lo + 1) * (lo + hi) == 0) by (nonlinear_arith)
            requires
                hi - lo + 1 == 0,
        ;
    } else {
        lemma_range_sum_closed(lo, hi - 1);
        assert((hi - lo + 1) * (lo + hi) == (hi - lo) * (lo + hi - 1) + 2 * hi) by (nonlinear_arith);
    }
}

/// What the store's own queries give over the heights of its blocks.
#[derive(Debug, Clone, Copy, PartialEq, Eq, Structural)]
pub struct Aggregates {
    /// The top height.
    pub max: u64,
    /// The lowest height.
    pub min: u64,
    /// The sum of all heights, as the store adds them up.
    pub sum: u64,
}

/// The store's sum of heights is not the sum of the range it spans: blocks
/// were lost or stored twice.
#[derive(Debug, Clone, Copy, PartialEq, Eq, Structural)]
pub struct InvariantViolation {
    /// The sum of the range from the lowest to the top height.
    pub computed: u128,
    /// The sum that the store gave.
    pub stored: u64,
}

/// Adds up the heights from `min` to `top`.
pub fn height_sum(min: u64, top: u64) -> (res: u128)
    ensures
        res == range_sum(min as int, top as int),
{
    if top < min {
        return 0;
    }
    let count: u128 = (top - min) as u128 + 1;
    let ends: u128 = min as u128 + top as u128;
    proof {
        lemma_range_sum_closed(min as int, top as int);
    }
    if count % 2 == 0 {
        let half: u128 = count / 2;
        assert(half * ends == range_sum(min as int, top as int) && half * ends
            < 0x1_0000_0000_0000_0000_0000_0000_0000_0000) by (nonlinear_arith)
            requires
                2 * range_sum(min as int, top as int) == count * ends,
                count == 2 * half,
                half <= 0x8000_0000_0000_0000,
                ends <= 0x1_ffff_ffff_ffff_fffe,
        ;
        half * ends
    } else {
        let half: u128 = ends / 2;
        assert(ends % 2 == 0) by (nonlinear_arith)
            requires
                count % 2 == 1,
                count == top - min + 1,
                ends == min + top,
        ;
        assert(count * half == range_sum(min as int, top as int) && count * half
            < 0x1_0000_0000_0000_0000_0000_0000_0000_0000) by (nonlinear_arith)
            requires
                2 * range_sum(min as int, top as int) == count * ends,
                ends == 2 * half,
                half <= 0xffff_ffff_ffff_ffff,
                count <= 0x1_0000_0000_0000_0000,
        ;
        count * half
    }
}

/// Holds the store's sum of heights against the sum of the range from
/// `min` to `top`. The result is `Ok` exactly when the two agree; when they
/// differ the error holds both.
pub fn verify(min: u64, top: u64, stored_sum: u64) -> (res: Result<(), InvariantViolation>)
    ensures
        res is Ok <==> range_sum(min as int, top as int) == stored_sum,
        res matches Err(violation) ==> violation.computed == range_sum(min as int, top as int)
            && violation.stored == stored_sum,
{
    let computed: u128 = height_sum(min, top);
    if computed == stored_sum as u128 {
        Ok(())
    } else {
        Err(InvariantViolation { computed, stored: stored_sum })
    }
}

/// The top height of a store whose sums agree. The store's answers are
/// `None` while it holds no block.
pub open spec fn toprec_spec(aggregates: Option<Aggregates>) -> Result<Option<u64>, InvariantViolation> {
    match aggregates {
        None => Ok(None),
        Some(a) => if range_sum(a.min as int, a.max as int) == a.sum {
            Ok(Some(a.max))
        } else {
            Err(
                InvariantViolation {
                    computed: range_sum(a.min as int, a.max as int) as u128,
                    stored: a.sum,
                },
            )
        },
    }
}

/// Verifies the store at start-up and gives its top height.
pub fn toprec(aggregates: Option<Aggregates>) -> (res: Result<Option<u64>, InvariantViolation>)
    ensures
        res == toprec_spec(aggregates),
{
    match aggregates {
        None => Ok(None),
        Some(a) => match verify(a.min, a.max, a.sum) {
            Ok(()) => Ok(Some(a.max)),
            Err(violation) => Err(violation),
        },
    }
}

/// Whether the store begins above height zero, which is worth a warning and
/// no more.
pub fn starts_late(aggregates: &Aggregates) -> (res: bool)
    ensures
        res == (aggregates.min != 0),
{
    aggregates.min != 0
}

// ---------------------------------------------------------------------------
// What the comparison of the sums shows of a store
// ---------------------------------------------------------------------------

/// The sum of a column of heights.
pub open spec fn column_sum(heights: Seq<u64>) -> int
    decreases heights.len(),
{
    if heights.len() == 0 {
        0
    } else {
        column_sum(heights.drop_last()) + heights.last()
    }
}

/// The heights stand in ascending order, none twice.
pub open spec fn ascending(heights: Seq<u64>) -> bool {
    forall|i: int, j: int| 0 <= i < j < heights.len() ==> heights[i] < heights[j]
}

/// The heights `lo, lo + 1, ..., hi`, each once, in order.
pub open spec fn full_range(lo: int, hi: int) -> Seq<u64> {
    Seq::new((hi - lo + 1) as nat, |i: int| (lo + i) as u64)
}

/// A range that reaches further up adds up to more.
pub proof fn lemma_range_sum_grows(lo: int, p: int, q: int)
    requires
        0 <= lo <= p < q,
    ensures
        0 <= range_sum(lo, p) < range_sum(lo, q),
    decreases q - lo,
{
    if lo < p {
        lemma_range_sum_grows(lo, p - 1, p);
    } else {
        assert(range_sum(lo, lo - 1) == 0);
    }
    if p + 1 < q {
        lemma_range_sum_grows(lo, p, q - 1);
    }
}

/// A store without gaps is accepted: the heights of a full range add
/// up to the sum of the range.
pub proof fn lemma_full_range_sum(lo: int, hi: int)
    requires
        0 <= lo <= hi + 1,
        hi <= u64::MAX,
    ensures
        column_sum(full_range(lo, hi)) == range_sum(lo, hi),
    decreases hi - lo + 1,
{
    if lo <= hi {
        lemma_full_range_sum(lo, hi - 1);
        assert(full_range(lo, hi).drop_last() =~= full_range(lo, hi - 1));
    }
}

/// A store that holds each height at most once, from its lowest height `lo`
/// to its top height `hi`, adds up to no more than the range, and to as much
/// only if it holds every height of the range.
pub proof fn lemma_sum_detects_gaps(heights: Seq<u64>, lo: int, hi: int)
    requires
        ascending(heights),
        heights.len() > 0,
        heights[0] == lo,
        heights.last() == hi,
    ensures
        column_sum(heights) <= range_sum(lo, hi),
        column_sum(heights) == range_sum(lo, hi) <==> heights == full_range(lo, hi),
    decreases heights.len(),
{
    if heights.len() == 1 {
        assert(column_sum(heights.drop_last()) == 0);
        assert(range_sum(lo, lo - 1) == 0);
        assert(heights =~= full_range(lo, hi));
    } else {
        let rest = heights.drop_last();
        let p = rest.last() as int;
        assert(heights =~= rest.push(heights.last()));
        assert(column_sum(heights) == column_sum(rest) + hi);
        assert(range_sum(lo, hi) == hi + range_sum(lo, hi - 1));
        assert(p == heights[heights.len() - 2]);
        assert(lo <= p < hi) by {
            if heights.len() > 2 {
                assert(heights[0] < heights[heights.len() - 2]);
            }
        }
        lemma_sum_detects_gaps(rest, lo, p);
        if p < hi - 1 {
            lemma_range_sum_grows(lo, p, hi - 1);
            assert(heights != full_range(lo, hi)) by {
                if heights == full_range(lo, hi) {
                    assert(full_range(lo, hi)[hi - lo - 1] == hi - 1);
                }
            }
        } else {
            if rest == full_range(lo, p) {
                assert(heights =~= full_range(lo, hi));
            }
            if heights == full_range(lo, hi) {
                assert(rest =~= full_range(lo, p));
            }
        }
    }
}

/// A store that has lost one height between its lowest and its top height
/// is rejected.
pub proof fn lemma_skipped_height_fails(lo: int, hi: int, skipped: int)
    requires
        0 <= lo < skipped < hi <= u64::MAX,
    ensures
        column_sum(full_range(lo, skipped - 1) + full_range(skipped + 1, hi)) != range_sum(lo, hi),
{
    let heights = full_range(lo, skipped - 1) + full_range(skipped + 1, hi);
    assert(heights[0] == lo);
    assert(heights.last() == hi);
    lemma_sum_detects_gaps(heights, lo, hi);
    assert(heights.len() != full_range(lo, hi).len());
}

} // verus!
