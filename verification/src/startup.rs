//! Settings that the service hands to its routes.

use vstd::prelude::*;

verus! {

/// The address under which the service is reached from outside.
#[derive(Debug, PartialEq, Eq)]
pub struct ApplicationBaseUrl(pub String);

} // verus!
