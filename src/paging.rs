use vstd::prelude::*;

verus! {

/// The page size actually served for a `requested` one: `max` when more is
/// asked for, `min` when less is, the request itself otherwise.
pub open spec fn clamped(min: u64, max: u64, requested: u64) -> u64 {
    if requested > max {
        max
    } else if requested < min {
        min
    } else {
        requested
    }
}

/// Clamps a requested number of results per page into `[min, max]`.
pub fn results_per_page(min: u64, max: u64, requested: u64) -> (r: u64)
    ensures
        r == clamped(min, max, requested),
        min <= max ==> min <= r <= max,
{
    if requested > max {
        return max;
    }
    if requested < min {
        return min;
    }
    requested
}


/// How many results come before page `page` (counted from zero) of pages of
/// `results` each; `None` where that number does not fit in a `u64`.
pub fn results_to_skip(page: u64, results: u64) -> (r: Option<u64>)
    ensures
        page * results <= u64::MAX ==> r == Some((page * results) as u64),
        page * results > u64::MAX ==> r is None,
{
    page.checked_mul(results)
}

} // verus!
