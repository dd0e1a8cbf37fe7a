//! The packet payload shared by both sides of the interchain-accounts
//! application.

use vstd::prelude::*;

verus! {

/// InterchainAccountPacketData is comprised of a raw transaction, the kind
/// of transaction and an optional memo field.
#[derive(Clone, Debug, PartialEq)]
pub struct InterchainAccountPacketData {
    pub packet_type: i32,
    pub data: Vec<u8>,
    pub memo: String,
}

} // verus!
