//! The controller side of the interchain-accounts application, as its
//! protocol definitions lay it out.

use vstd::prelude::*;

verus! {

/// Params defines the set of on-chain interchain accounts parameters.
/// The following parameters may be used to disable the controller submodule.
#[derive(Clone, Debug, PartialEq)]
pub struct Params {
    /// controller_enabled enables or disables the controller submodule.
    pub controller_enabled: bool,
}
/// QueryInterchainAccountRequest is the request type for the Query/InterchainAccount RPC method.
#[derive(Clone, Debug, PartialEq)]
pub struct QueryInterchainAccountRequest {
    pub owner: String,
    pub connection_id: String,
}
/// QueryInterchainAccountResponse the response type for the Query/InterchainAccount RPC method.
#[derive(Clone, Debug, PartialEq)]
pub struct QueryInterchainAccountResponse {
    pub address: String,
}
/// QueryParamsRequest is the request type for the Query/Params RPC method.
#[derive(Clone, Debug, PartialEq)]
pub struct QueryParamsRequest {}
/// QueryParamsResponse is the response type for the Query/Params RPC method.
#[derive(Clone, Debug, PartialEq)]
pub struct QueryParamsResponse {
    /// params defines the parameters of the module.
    pub params: Option<Params>,
}
/// MsgRegisterInterchainAccount defines the payload for Msg/RegisterAccount
#[derive(Clone, Debug, PartialEq)]
pub struct MsgRegisterInterchainAccount {
    pub owner: String,
    pub connection_id: String,
    pub version: String,
    pub ordering: i32,
}
/// MsgRegisterInterchainAccountResponse defines the response for Msg/RegisterAccount
#[derive(Clone, Debug, PartialEq)]
pub struct MsgRegisterInterchainAccountResponse {
    pub channel_id: String,
    pub port_id: String,
}
/// MsgSendTx defines the payload for Msg/SendTx
#[derive(Clone, Debug, PartialEq)]
pub struct MsgSendTx {
    pub owner: String,
    pub connection_id: String,
    pub packet_data: Option<crate::interchain_accounts::InterchainAccountPacketData>,
    /// Relative timeout timestamp provided will be added to the current block time during transaction execution.
    /// The timeout timestamp must be non-zero.
    pub relative_timeout: u64,
}
/// MsgSendTxResponse defines the response for MsgSendTx
#[derive(Clone, Debug, PartialEq)]
pub struct MsgSendTxResponse {
    pub sequence: u64,
}
/// MsgUpdateParams defines the payload for Msg/UpdateParams
#[derive(Clone, Debug, PartialEq)]
pub struct MsgUpdateParams {
    /// signer address
    pub signer: String,
    /// params defines the 27-interchain-accounts/controller parameters to update.
    ///
    /// NOTE: All parameters must be supplied.
    pub params: Option<Params>,
}
/// MsgUpdateParamsResponse defines the response for Msg/UpdateParams
#[derive(Clone, Debug, PartialEq)]
pub struct MsgUpdateParamsResponse {}

} // verus!
