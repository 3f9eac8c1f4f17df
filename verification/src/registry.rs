//! The OCI publishing capability. The pull/publish protocol is out of
//! scope and unimplemented; only the capability's identity exists.

use vstd::prelude::*;

verus! {

/// Publishes skills to an OCI registry; the protocol is not implemented
/// yet, so the publisher carries no state.
pub struct OciPublisher {}

impl OciPublisher {
    /// The publisher, which carries no state.
    pub fn new() -> (r: Self) {
        OciPublisher {  }
    }
}

} // verus!
