//! The host side of the interchain-accounts application, as its protocol
//! definitions lay it out.

use vstd::prelude::*;

verus! {

/// Params defines the set of on-chain interchain accounts parameters.
/// The following parameters may be used to disable the host submodule.
#[derive(Clone, Debug, PartialEq)]
pub struct Params {
    /// host_enabled enables or disables the host submodule.
    pub host_enabled: bool,
    /// allow_messages defines a list of sdk message typeURLs allowed to be executed on a host chain.
    pub allow_messages: Vec<String>,
}
/// QueryRequest defines the parameters for a particular query request
/// by an interchain account.
#[derive(Clone, Debug, PartialEq)]
pub struct QueryRequest {
    /// path defines the path of the query request as defined by ADR-021.
    /// <https://github.com/cosmos/cosmos-sdk/blob/main/docs/architecture/adr-021-protobuf-query-encoding.md#custom-query-registration-and-routing>
    pub path: String,
    /// data defines the payload of the query request as defined by ADR-021.
    /// <https://github.com/cosmos/cosmos-sdk/blob/main/docs/architecture/adr-021-protobuf-query-encoding.md#custom-query-registration-and-routing>
    pub data: Vec<u8>,
}
/// QueryParamsRequest is the request type for the Query/Params RPC method.
#[derive(Clone, Debug, PartialEq)]
pub struct QueryParamsRequest {}
/// QueryParamsResponse is the response type for the Query/Params RPC method.
#[derive(Clone, Debug, PartialEq)]
pub struct QueryParamsResponse {
    /// params defines the parameters of the module.
    pub params: Option<Params>,
}
/// MsgUpdateParams defines the payload for Msg/UpdateParams
#[derive(Clone, Debug, PartialEq)]
pub struct MsgUpdateParams {
    /// signer address
    pub signer: String,
    /// params defines the 27-interchain-accounts/host parameters to update.
    ///
    /// NOTE: All parameters must be supplied.
    pub params: Option<Params>,
}
/// MsgUpdateParamsResponse defines the response for Msg/UpdateParams
#[derive(Clone, Debug, PartialEq)]
pub struct MsgUpdateParamsResponse {}
/// MsgModuleQuerySafe defines the payload for Msg/ModuleQuerySafe
#[derive(Clone, Debug, PartialEq)]
pub struct MsgModuleQuerySafe {
    /// signer address
    pub signer: String,
    /// requests defines the module safe queries to execute.
    pub requests: Vec<QueryRequest>,
}
/// MsgModuleQuerySafeResponse defines the response for Msg/ModuleQuerySafe
#[derive(Clone, Debug, PartialEq)]
pub struct MsgModuleQuerySafeResponse {
    /// height at which the responses were queried
    pub height: u64,
    /// protobuf encoded responses for each query
    pub responses: Vec<Vec<u8>>,
}

} // verus!
