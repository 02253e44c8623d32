//! Key ranges over the store's key space.
//!
//! A range is built from a lower and an upper bound, each inclusive,
//! exclusive, or absent. The host refuses the doubly-unbounded range,
//! and refuses as an invalid key any pair of bounds that no key can
//! satisfy; both refusals are decided here.

use vstd::prelude::*;
use crate::error::Error;

verus! {

/// One end of a key range.
#[derive(Clone, Copy, Debug, PartialEq, Eq, Structural)]
pub enum KeyBound {
    /// No bound at this end.
    Unbounded,
    /// The key itself lies inside the range.
    Included(u64),
    /// The key itself lies outside the range.
    Excluded(u64),
}

/// A range of keys, as handed to the host with a ranged request.
#[derive(Clone, Copy, Debug, PartialEq, Eq, Structural)]
pub struct KeyRange {
    /// The lower end.
    pub lower: KeyBound,
    /// The upper end.
    pub upper: KeyBound,
}

/// Whether a key lies above the lower bound.
pub open spec fn above_lower(b: KeyBound, k: u64) -> bool {
    match b {
        KeyBound::Unbounded => true,
        KeyBound::Included(l) => l <= k,
        KeyBound::Excluded(l) => l < k,
    }
}

/// Whether a key lies below the upper bound.
pub open spec fn below_upper(b: KeyBound, k: u64) -> bool {
    match b {
        KeyBound::Unbounded => true,
        KeyBound::Included(u) => k <= u,
        KeyBound::Excluded(u) => k < u,
    }
}

/// Whether a key lies in a range.
pub open spec fn range_contains(r: KeyRange, k: u64) -> bool {
    above_lower(r.lower, k) && below_upper(r.upper, k)
}

/// Whether a pair of bounds is one the host accepts: not both absent,
/// and not ordered so that the range is trivially empty.
pub open spec fn bounds_acceptable(lower: KeyBound, upper: KeyBound) -> bool {
    &&& !(lower is Unbounded && upper is Unbounded)
    &&& match (lower, upper) {
        (KeyBound::Included(l), KeyBound::Included(u)) => l <= u,
        (KeyBound::Included(l), KeyBound::Excluded(u)) => l < u,
        (KeyBound::Excluded(l), KeyBound::Included(u)) => l < u,
        (KeyBound::Excluded(l), KeyBound::Excluded(u)) => l < u,
        _ => true,
    }
}

/// Build the key range with the given bounds, exactly as the host does:
/// the doubly-unbounded range is refused as an invalid range, and a
/// bounded pair in the wrong order is refused as an invalid key.
pub fn make_key_range(lower: KeyBound, upper: KeyBound) -> (r: core::result::Result<
    KeyRange,
    Error,
>)
    ensures
        lower is Unbounded && upper is Unbounded ==> r == core::result::Result::<
            KeyRange,
            Error,
        >::Err(Error::InvalidRange),
        !(lower is Unbounded && upper is Unbounded) && !bounds_acceptable(lower, upper) ==> r
            == core::result::Result::<KeyRange, Error>::Err(Error::InvalidKey),
        bounds_acceptable(lower, upper) ==> r == core::result::Result::<KeyRange, Error>::Ok(
            KeyRange { lower, upper },
        ),
{
    match (lower, upper) {
        (KeyBound::Unbounded, KeyBound::Unbounded) => Err(Error::InvalidRange),
        (KeyBound::Included(l), KeyBound::Included(u)) => {
            if l <= u {
                Ok(KeyRange { lower, upper })
            } else {
                Err(Error::InvalidKey)
            }
        },
        (KeyBound::Included(l), KeyBound::Excluded(u)) => {
            if l < u {
                Ok(KeyRange { lower, upper })
            } else {
                Err(Error::InvalidKey)
            }
        },
        (KeyBound::Excluded(l), KeyBound::Included(u)) => {
            if l < u {
                Ok(KeyRange { lower, upper })
            } else {
                Err(Error::InvalidKey)
            }
        },
        (KeyBound::Excluded(l), KeyBound::Excluded(u)) => {
            if l < u {
                Ok(KeyRange { lower, upper })
            } else {
                Err(Error::InvalidKey)
            }
        },
        _ => Ok(KeyRange { lower, upper }),
    }
}

/// Whether a key lies in a range, decided as the host decides it.
pub fn key_in_range(r: &KeyRange, k: u64) -> (b: bool)
    ensures
        b == range_contains(*r, k),
{
    let lo = match r.lower {
        KeyBound::Unbounded => true,
        KeyBound::Included(l) => l <= k,
        KeyBound::Excluded(l) => l < k,
    };
    let hi = match r.upper {
        KeyBound::Unbounded => true,
        KeyBound::Included(u) => k <= u,
        KeyBound::Excluded(u) => k < u,
    };
    lo && hi
}

} // verus!
