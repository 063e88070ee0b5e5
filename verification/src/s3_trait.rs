//! The storage backend that a service serves.

use vstd::prelude::*;

verus! {

/// An implementation of the S3 operations.
///
/// The service carries such a value to the dispatcher and never looks into
/// it, so nothing is asked of it here: the operations themselves are declared
/// beside the dispatcher that calls them.
pub trait S3 {

}

} // verus!
