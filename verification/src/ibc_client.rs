//! The client-layer records the channel data model refers to: revision
//! heights and identified client states.

use vstd::prelude::*;

verus! {

/// Height is a monotonically increasing data type
/// that can be compared against another Height for the purposes of updating
/// and freezing clients.
#[derive(Clone, Copy, Debug, PartialEq, Eq, Structural)]
pub struct Height {
    /// the revision that the client is currently on
    pub revision_number: u64,
    /// the height within the given revision
    pub revision_height: u64,
}

/// IdentifiedClientState defines a client state with an additional client
/// identifier field.
#[derive(Clone, Debug, PartialEq)]
pub struct IdentifiedClientState {
    /// client identifier
    pub client_id: String,
    /// client state
    pub client_state: Option<crate::protobuf_any::Any>,
}

} // verus!
