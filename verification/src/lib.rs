//! A verified interpreter for the ucs03-zkgm cross-chain instruction protocol.
//!
//! A packet carries a tree of versioned instructions (fungible-asset orders,
//! batches, multiplex calls, tags).  The library decodes such a tree, and
//! executes, acknowledges, or times it out, producing token-movement effects
//! and a binary acknowledgement while maintaining the per-channel escrow
//! ledger and the wrapped-token registries.

pub mod codec;
pub mod cosmos_query;
pub mod decode;
pub mod execute;
pub mod ibc_channel;
pub mod ibc_client;
pub mod ica_controller;
pub mod ica_host;
pub mod interchain_accounts;
pub mod laws;
pub mod ledger;
pub mod protobuf_any;
pub mod protocol;
pub mod settle;
pub mod transfer;
pub mod types;
pub mod u256;
