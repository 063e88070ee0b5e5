//! Size estimates in the form that HTTP machinery reads them,
//! `http_body::SizeHint`.
//!
//! The declarations on `SizeHint` are trusted; the conversion from a source's
//! estimate is verified against them.

use vstd::prelude::*;
use http_body::SizeHint;

verus! {

/// `http_body::SizeHint`, opaque to Verus.
#[verifier::external_type_specification]
#[verifier::external_body]
pub struct ExSizeHint(SizeHint);

/// The two bounds that a hint holds, in bytes: the lower bound and, where
/// known, the upper bound.
pub uninterp spec fn bounds(hint: SizeHint) -> (u64, Option<u64>);

/// `SizeHint::new` gives the hint that knows nothing: at least 0 bytes, no
/// upper bound.
pub assume_specification[ SizeHint::new ]() -> (hint: SizeHint)
    ensures
        bounds(hint) == (0u64, None::<u64>),
;

/// `SizeHint::with_exact` sets both bounds to the given value.
pub assume_specification[ SizeHint::with_exact ](value: u64) -> (hint: SizeHint)
    ensures
        bounds(hint) == (value, Some(value)),
;

/// `SizeHint::lower` reads the lower bound.
pub assume_specification[ SizeHint::lower ](hint: &SizeHint) -> (lower: u64)
    ensures
        lower == bounds(*hint).0,
;

/// `SizeHint::upper` reads the upper bound.
pub assume_specification[ SizeHint::upper ](hint: &SizeHint) -> (upper: Option<u64>)
    ensures
        upper == bounds(*hint).1,
;

/// `SizeHint::set_lower` replaces the lower bound. It panics on a value above
/// the upper bound, so such a value is not admitted.
pub assume_specification[ SizeHint::set_lower ](hint: &mut SizeHint, value: u64)
    requires
        bounds(*old(hint)).1 matches Some(upper) ==> value <= upper,
    ensures
        bounds(*final(hint)) == (value, bounds(*old(hint)).1),
;

/// `SizeHint::set_upper` replaces the upper bound. It panics on a value below
/// the lower bound, so such a value is not admitted.
pub assume_specification[ SizeHint::set_upper ](hint: &mut SizeHint, value: u64)
    requires
        bounds(*old(hint)).0 <= value,
    ensures
        bounds(*final(hint)) == (bounds(*old(hint)).0, Some(value)),
;

/// What a well-formed estimate in items of `usize` is as a pair of `u64`
/// bounds: the same two numbers.
pub open spec fn widened(lower: usize, upper: Option<usize>) -> (u64, Option<u64>) {
    (
        lower as u64,
        match upper {
            Some(u) => Some(u as u64),
            None => None,
        },
    )
}

/// Builds the hint that carries a source's estimate unchanged.
///
/// The estimate must be well formed: a hint cannot hold an upper bound below
/// its lower bound.
pub fn hint_from_estimate(lower: usize, upper: Option<usize>) -> (hint: SizeHint)
    requires
        upper matches Some(u) ==> lower <= u,
    ensures
        bounds(hint) == widened(lower, upper),
{
    let mut hint = SizeHint::new();
    hint.set_lower(lower as u64);
    match upper {
        Some(u) => {
            hint.set_upper(u as u64);
        },
        None => {},
    }
    hint
}

} // verus!
