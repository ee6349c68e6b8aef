//! The client-type identifier of the Rollkit light client.

use vstd::prelude::*;
use vstd::string::{StrSliceExecFns, StringSliceAdditionalSpecFns};

verus! {

/// Marker type naming the Rollkit light client.
#[derive(Clone, Copy, Debug, PartialEq, Eq, Structural)]
pub struct RollkitClient;

/// The client-type identifier, as a byte sequence.
pub open spec fn spec_rollkit_client_type() -> Seq<u8> {
    "07-rollkit".spec_bytes()
}

/// Returns the client-type identifier for the Rollkit light client.
pub fn rollkit_client_type() -> (r: Vec<u8>)
    ensures
        r@ == spec_rollkit_client_type(),
{
    let s: &str = "07-rollkit";
    s.as_bytes_vec()
}

} // verus!
