//! The provider of credentials that a service may be given.

use vstd::prelude::*;

verus! {

/// A source of the secrets by which requests are authenticated.
///
/// The service carries such a value to the dispatcher and never looks into
/// it, so nothing is asked of it here.
pub trait S3Auth {

}

} // verus!
