//! What the service is started with.

use vstd::prelude::*;

verus! {

/// The public base URL of the service, under which the links that it
/// sends out are reached.
#[derive(Debug, PartialEq, Eq)]
pub struct ApplicationBaseUrl(pub String);

} // verus!
