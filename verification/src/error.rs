//! The closed set of failures a mod service can report.

use vstd::prelude::*;

verus! {

/// Why a service call failed: the transport could not deliver a response,
/// the response body did not match the wire schema, or the provider knows
/// no item under the requested id.
#[derive(Clone, Copy, Debug, PartialEq, Eq, Structural)]
pub enum ServiceError {
    Transport,
    Decode,
    NotFound,
}

} // verus!
