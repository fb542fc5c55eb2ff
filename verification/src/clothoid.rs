use vstd::prelude::*;

verus! {

/// The sign of the curvature for a turning sense: `-1` for a clockwise
/// spiral, `+1` for a counter-clockwise one.
pub open spec fn direction_of(clockwise: bool) -> int {
    if clockwise { -1 } else { 1 }
}

/// Collapses the turning sense to the signed multiplier of the curvature.
pub fn direction(clockwise: bool) -> (dir: i8)
    ensures
        dir == direction_of(clockwise),
        dir == 1 || dir == -1,
{
    if clockwise { -1 } else { 1 }
}

/// How a parameter compares with zero. A parameter that is no number
/// compares with nothing and is `Unordered`.
#[derive(Clone, Copy, Debug, PartialEq, Eq, Structural)]
pub enum Sign {
    Negative,
    Zero,
    Positive,
    Unordered,
}

/// Why a spiral segment cannot be made from its parameters.
#[derive(Clone, Copy, Debug, PartialEq, Eq, Structural)]
pub enum ClothoidError {
    /// The spiral scale is zero, so the curvature has no value.
    ZeroScale,
    /// The arc length is zero or less, so the segment is empty.
    NonPositiveLength,
}

/// The error, if any, of a segment whose spiral scale and arc length
/// compare with zero as `scale` and `length` say. A zero scale is named
/// before a length that is not positive.
pub open spec fn parameter_error(scale: Sign, length: Sign) -> Option<ClothoidError> {
    if scale == Sign::Zero {
        Some(ClothoidError::ZeroScale)
    } else if length == Sign::Zero || length == Sign::Negative {
        Some(ClothoidError::NonPositiveLength)
    } else {
        None
    }
}

/// Accepts or rejects the parameters of a segment by their signs.
///
/// A segment needs a scale other than zero and an arc length above zero.
/// Parameters that are no numbers are not judged here.
pub fn validate(scale: Sign, length: Sign) -> (checked: Result<(), ClothoidError>)
    ensures
        checked == (match parameter_error(scale, length) {
            Some(error) => Err::<(), ClothoidError>(error),
            None => Ok::<(), ClothoidError>(()),
        }),
        checked is Ok <==> scale != Sign::Zero && length != Sign::Zero && length != Sign::Negative,
        checked == Err::<(), ClothoidError>(ClothoidError::ZeroScale) <==> scale == Sign::Zero,
        checked == Err::<(), ClothoidError>(ClothoidError::NonPositiveLength) <==> scale
            != Sign::Zero && (length == Sign::Zero || length == Sign::Negative),
{
    match scale {
        Sign::Zero => Err(ClothoidError::ZeroScale),
        _ => match length {
            Sign::Zero | Sign::Negative => Err(ClothoidError::NonPositiveLength),
            _ => Ok(()),
        },
    }
}

} // verus!
