//! Finding the first index at which something holds.

use vstd::prelude::*;

verus! {

/// The least index in `start..bound` at which `wanted` holds, or `bound` if
/// it holds at none.
pub open spec fn first_where(wanted: spec_fn(int) -> bool, start: int, bound: int) -> int
    decreases bound - start,
{
    if start >= bound {
        bound
    } else if wanted(start) {
        start
    } else {
        first_where(wanted, start + 1, bound)
    }
}

/// `first_where` answers with an index between `start` and `bound`, before
/// which `wanted` fails everywhere from `start` on, and at which it holds
/// unless the answer is `bound`.
pub proof fn first_where_is_least(wanted: spec_fn(int) -> bool, start: int, bound: int)
    requires
        start <= bound,
    ensures
        start <= first_where(wanted, start, bound) <= bound,
        forall|q: int| start <= q < first_where(wanted, start, bound) ==> !(#[trigger] wanted(q)),
        first_where(wanted, start, bound) < bound ==> wanted(first_where(wanted, start, bound)),
    decreases bound - start,
{
    if start < bound && !wanted(start) {
        first_where_is_least(wanted, start + 1, bound);
    }
}

} // verus!
