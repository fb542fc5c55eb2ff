use vstd::prelude::*;

verus! {

/// `x` limited to the interval from `lo` to `hi`: the smaller of `hi` and
/// the larger of `lo` and `x`. Where `lo > hi` the interval is empty and the
/// value is `hi`.
pub open spec fn clamped(x: int, lo: int, hi: int) -> int {
    let raised = if x < lo { lo } else { x };
    if raised > hi { hi } else { raised }
}

/// Limits `x` to the interval from `min` to `max`.
///
/// The function is total: it never panics, also where `min > max`.
pub fn clamp(x: i64, min: i64, max: i64) -> (r: i64)
    ensures
        r == clamped(x as int, min as int, max as int),
        min <= max ==> min <= r <= max,
        min <= x <= max ==> r == x,
{
    let raised: i64 = if x < min { min } else { x };
    if raised > max { max } else { raised }
}

} // verus!
