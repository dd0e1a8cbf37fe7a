//! The channel data model of the host's packet layer, as its protocol
//! definitions lay it out: channel and packet records, the channel state
//! and ordering enumerations, and the query and handshake message types.

use vstd::prelude::*;

/// Nested message and enum types in `Acknowledgement`.
pub mod acknowledgement;

verus! {

/// Channel defines pipeline for exactly-once packet delivery between specific
/// modules on separate blockchains, which has at least one end capable of
/// sending packets and one end capable of receiving packets.
#[derive(Clone, Debug, PartialEq)]
pub struct Channel {
    /// current state of the channel end
    pub state: i32,
    /// whether the channel is ordered or unordered
    pub ordering: i32,
    /// counterparty channel end
    pub counterparty: Option<Counterparty>,
    /// list of connection identifiers, in order, along which packets sent on
    /// this channel will travel
    pub connection_hops: Vec<String>,
    /// opaque channel version, which is agreed upon during the handshake
    pub version: String,
    /// upgrade sequence indicates the latest upgrade attempt performed by this channel
    /// the value of 0 indicates the channel has never been upgraded
    pub upgrade_sequence: u64,
}
/// IdentifiedChannel defines a channel with additional port and channel
/// identifier fields.
#[derive(Clone, Debug, PartialEq)]
pub struct IdentifiedChannel {
    /// current state of the channel end
    pub state: i32,
    /// whether the channel is ordered or unordered
    pub ordering: i32,
    /// counterparty channel end
    pub counterparty: Option<Counterparty>,
    /// list of connection identifiers, in order, along which packets sent on
    /// this channel will travel
    pub connection_hops: Vec<String>,
    /// opaque channel version, which is agreed upon during the handshake
    pub version: String,
    /// port identifier
    pub port_id: String,
    /// channel identifier
    pub channel_id: String,
    /// upgrade sequence indicates the latest upgrade attempt performed by this channel
    /// the value of 0 indicates the channel has never been upgraded
    pub upgrade_sequence: u64,
}
/// Counterparty defines a channel end counterparty
#[derive(Clone, Debug, PartialEq)]
pub struct Counterparty {
    /// port on the counterparty chain which owns the other end of the channel.
    pub port_id: String,
    /// channel end on the counterparty chain
    pub channel_id: String,
}
/// Packet defines a type that carries data across different chains through IBC
#[derive(Clone, Debug, PartialEq)]
pub struct Packet {
    /// number corresponds to the order of sends and receives, where a Packet
    /// with an earlier sequence number must be sent and received before a Packet
    /// with a later sequence number.
    pub sequence: u64,
    /// identifies the port on the sending chain.
    pub source_port: String,
    /// identifies the channel end on the sending chain.
    pub source_channel: String,
    /// identifies the port on the receiving chain.
    pub destination_port: String,
    /// identifies the channel end on the receiving chain.
    pub destination_channel: String,
    /// actual opaque bytes transferred directly to the application module
    pub data: Vec<u8>,
    /// block height after which the packet times out
    pub timeout_height: Option<crate::ibc_client::Height>,
    /// block timestamp (in nanoseconds) after which the packet times out
    pub timeout_timestamp: u64,
}
/// PacketState defines the generic type necessary to retrieve and store
/// packet commitments, acknowledgements, and receipts.
/// Caller is responsible for knowing the context necessary to interpret this
/// state as a commitment, acknowledgement, or a receipt.
#[derive(Clone, Debug, PartialEq)]
pub struct PacketState {
    /// channel port identifier.
    pub port_id: String,
    /// channel unique identifier.
    pub channel_id: String,
    /// packet sequence.
    pub sequence: u64,
    /// embedded data that represents packet state.
    pub data: Vec<u8>,
}
/// PacketId is an identifer for a unique Packet
/// Source chains refer to packets by source port/channel
/// Destination chains refer to packets by destination port/channel
#[derive(Clone, Debug, PartialEq)]
pub struct PacketId {
    /// channel port identifier
    pub port_id: String,
    /// channel unique identifier
    pub channel_id: String,
    /// packet sequence
    pub sequence: u64,
}
/// Acknowledgement is the recommended acknowledgement format to be used by
/// app-specific protocols.
/// NOTE: The field numbers 21 and 22 were explicitly chosen to avoid accidental
/// conflicts with other protobuf message formats used for acknowledgements.
/// The first byte of any message with this format will be the non-ASCII values
/// `0xaa` (result) or `0xb2` (error). Implemented as defined by ICS:
/// <https://github.com/cosmos/ibc/tree/master/spec/core/ics-004-channel-and-packet-semantics#acknowledgement-envelope>
#[derive(Clone, Debug, PartialEq)]
pub struct Acknowledgement {
    /// response contains either a result or an error and must be non-empty
    pub response: Option<acknowledgement::Response>,
}
/// Timeout defines an execution deadline structure for 04-channel handlers.
/// This includes packet lifecycle handlers as well as the upgrade handshake handlers.
/// A valid Timeout contains either one or both of a timestamp and block height (sequence).
#[derive(Clone, Debug, PartialEq)]
pub struct Timeout {
    /// block height after which the packet or upgrade times out
    pub height: Option<crate::ibc_client::Height>,
    /// block timestamp (in nanoseconds) after which the packet or upgrade times out
    pub timestamp: u64,
}
/// Params defines the set of IBC channel parameters.
#[derive(Clone, Debug, PartialEq)]
pub struct Params {
    /// the relative timeout after which channel upgrades will time out.
    pub upgrade_timeout: Option<Timeout>,
}
/// State defines if a channel is in one of the following states:
/// CLOSED, INIT, TRYOPEN, OPEN, FLUSHING, FLUSHCOMPLETE or UNINITIALIZED.
#[derive(Clone, Copy, Debug, PartialEq, Eq, Hash, PartialOrd, Ord)]
pub enum State {
    /// Default State
    UninitializedUnspecified,
    /// A channel has just started the opening handshake.
    Init,
    /// A channel has acknowledged the handshake step on the counterparty chain.
    Tryopen,
    /// A channel has completed the handshake. Open channels are
    /// ready to send and receive packets.
    Open,
    /// A channel has been closed and can no longer be used to send or receive
    /// packets.
    Closed,
    /// A channel has just accepted the upgrade handshake attempt and is flushing in-flight packets.
    Flushing,
    /// A channel has just completed flushing any in-flight packets.
    Flushcomplete,
}
/// The name of a channel state, as the protocol definition spells it.
pub open spec fn state_name(s: State) -> Seq<char> {
    match s {
        State::UninitializedUnspecified => "STATE_UNINITIALIZED_UNSPECIFIED"@,
        State::Init => "STATE_INIT"@,
        State::Tryopen => "STATE_TRYOPEN"@,
        State::Open => "STATE_OPEN"@,
        State::Closed => "STATE_CLOSED"@,
        State::Flushing => "STATE_FLUSHING"@,
        State::Flushcomplete => "STATE_FLUSHCOMPLETE"@,
    }
}

/// The channel state a name denotes, if any.
pub open spec fn state_of_name(v: Seq<char>) -> Option<State> {
    if v == "STATE_UNINITIALIZED_UNSPECIFIED"@ {
        Some(State::UninitializedUnspecified)
    } else if v == "STATE_INIT"@ {
        Some(State::Init)
    } else if v == "STATE_TRYOPEN"@ {
        Some(State::Tryopen)
    } else if v == "STATE_OPEN"@ {
        Some(State::Open)
    } else if v == "STATE_CLOSED"@ {
        Some(State::Closed)
    } else if v == "STATE_FLUSHING"@ {
        Some(State::Flushing)
    } else if v == "STATE_FLUSHCOMPLETE"@ {
        Some(State::Flushcomplete)
    } else {
        None
    }
}

impl State {
    /// String value of the enum field names used in the ProtoBuf definition.
    ///
    /// The values are not transformed in any way and thus are considered stable
    /// (if the ProtoBuf definition does not change) and safe for programmatic use.
    pub fn as_str_name(&self) -> (r: &'static str)
        ensures
            r@ == state_name(*self),
    {
        match self {
            State::UninitializedUnspecified => "STATE_UNINITIALIZED_UNSPECIFIED",
            State::Init => "STATE_INIT",
            State::Tryopen => "STATE_TRYOPEN",
            State::Open => "STATE_OPEN",
            State::Closed => "STATE_CLOSED",
            State::Flushing => "STATE_FLUSHING",
            State::Flushcomplete => "STATE_FLUSHCOMPLETE",
        }
    }

    /// Creates an enum from field names used in the ProtoBuf definition.
    pub fn from_str_name(value: &str) -> (r: Option<Self>)
        ensures
            r == state_of_name(value@),
    {
        let v = value.to_owned();
        if v == "STATE_UNINITIALIZED_UNSPECIFIED".to_owned() {
            Some(State::UninitializedUnspecified)
        } else if v == "STATE_INIT".to_owned() {
            Some(State::Init)
        } else if v == "STATE_TRYOPEN".to_owned() {
            Some(State::Tryopen)
        } else if v == "STATE_OPEN".to_owned() {
            Some(State::Open)
        } else if v == "STATE_CLOSED".to_owned() {
            Some(State::Closed)
        } else if v == "STATE_FLUSHING".to_owned() {
            Some(State::Flushing)
        } else if v == "STATE_FLUSHCOMPLETE".to_owned() {
            Some(State::Flushcomplete)
        } else {
            None
        }
    }
}
/// Order defines if a channel is ORDERED or UNORDERED
#[derive(Clone, Copy, Debug, PartialEq, Eq, Hash, PartialOrd, Ord)]
pub enum Order {
    /// zero-value for channel ordering
    NoneUnspecified,
    /// packets can be delivered in any order, which may differ from the order in
    /// which they were sent.
    Unordered,
    /// packets are delivered exactly in the order which they were sent
    Ordered,
}
/// The name of a channel ordering, as the protocol definition spells it.
pub open spec fn order_name(o: Order) -> Seq<char> {
    match o {
        Order::NoneUnspecified => "ORDER_NONE_UNSPECIFIED"@,
        Order::Unordered => "ORDER_UNORDERED"@,
        Order::Ordered => "ORDER_ORDERED"@,
    }
}

/// The channel ordering a name denotes, if any.
pub open spec fn order_of_name(v: Seq<char>) -> Option<Order> {
    if v == "ORDER_NONE_UNSPECIFIED"@ {
        Some(Order::NoneUnspecified)
    } else if v == "ORDER_UNORDERED"@ {
        Some(Order::Unordered)
    } else if v == "ORDER_ORDERED"@ {
        Some(Order::Ordered)
    } else {
        None
    }
}

impl Order {
    /// String value of the enum field names used in the ProtoBuf definition.
    ///
    /// The values are not transformed in any way and thus are considered stable
    /// (if the ProtoBuf definition does not change) and safe for programmatic use.
    pub fn as_str_name(&self) -> (r: &'static str)
        ensures
            r@ == order_name(*self),
    {
        match self {
            Order::NoneUnspecified => "ORDER_NONE_UNSPECIFIED",
            Order::Unordered => "ORDER_UNORDERED",
            Order::Ordered => "ORDER_ORDERED",
        }
    }

    /// Creates an enum from field names used in the ProtoBuf definition.
    pub fn from_str_name(value: &str) -> (r: Option<Self>)
        ensures
            r == order_of_name(value@),
    {
        let v = value.to_owned();
        if v == "ORDER_NONE_UNSPECIFIED".to_owned() {
            Some(Order::NoneUnspecified)
        } else if v == "ORDER_UNORDERED".to_owned() {
            Some(Order::Unordered)
        } else if v == "ORDER_ORDERED".to_owned() {
            Some(Order::Ordered)
        } else {
            None
        }
    }
}
/// GenesisState defines the ibc channel submodule's genesis state.
#[derive(Clone, Debug, PartialEq)]
pub struct GenesisState {
    pub channels: Vec<IdentifiedChannel>,
    pub acknowledgements: Vec<PacketState>,
    pub commitments: Vec<PacketState>,
    pub receipts: Vec<PacketState>,
    pub send_sequences: Vec<PacketSequence>,
    pub recv_sequences: Vec<PacketSequence>,
    pub ack_sequences: Vec<PacketSequence>,
    /// the sequence for the next generated channel identifier
    pub next_channel_sequence: u64,
    pub params: Option<Params>,
}
/// PacketSequence defines the genesis type necessary to retrieve and store
/// next send and receive sequences.
#[derive(Clone, Debug, PartialEq)]
pub struct PacketSequence {
    pub port_id: String,
    pub channel_id: String,
    pub sequence: u64,
}
/// Upgrade is a verifiable type which contains the relevant information
/// for an attempted upgrade. It provides the proposed changes to the channel
/// end, the timeout for this upgrade attempt and the next packet sequence
/// which allows the counterparty to efficiently know the highest sequence it has received.
/// The next sequence send is used for pruning and upgrading from unordered to ordered channels.
#[derive(Clone, Debug, PartialEq)]
pub struct Upgrade {
    pub fields: Option<UpgradeFields>,
    pub timeout: Option<Timeout>,
    pub next_sequence_send: u64,
}
/// UpgradeFields are the fields in a channel end which may be changed
/// during a channel upgrade.
#[derive(Clone, Debug, PartialEq)]
pub struct UpgradeFields {
    pub ordering: i32,
    pub connection_hops: Vec<String>,
    pub version: String,
}
/// ErrorReceipt defines a type which encapsulates the upgrade sequence and error associated with the
/// upgrade handshake failure. When a channel upgrade handshake is aborted both chains are expected to increment to the
/// next sequence.
#[derive(Clone, Debug, PartialEq)]
pub struct ErrorReceipt {
    /// the channel upgrade sequence
    pub sequence: u64,
    /// the error message detailing the cause of failure
    pub message: String,
}
/// QueryChannelRequest is the request type for the Query/Channel RPC method
#[derive(Clone, Debug, PartialEq)]
pub struct QueryChannelRequest {
    /// port unique identifier
    pub port_id: String,
    /// channel unique identifier
    pub channel_id: String,
}
/// QueryChannelResponse is the response type for the Query/Channel RPC method.
/// Besides the Channel end, it includes a proof and the height from which the
/// proof was retrieved.
#[derive(Clone, Debug, PartialEq)]
pub struct QueryChannelResponse {
    /// channel associated with the request identifiers
    pub channel: Option<Channel>,
    /// merkle proof of existence
    pub proof: Vec<u8>,
    /// height at which the proof was retrieved
    pub proof_height: Option<crate::ibc_client::Height>,
}
/// QueryChannelsRequest is the request type for the Query/Channels RPC method
#[derive(Clone, Debug, PartialEq)]
pub struct QueryChannelsRequest {
    /// pagination request
    pub pagination: Option<
        crate::cosmos_query::PageRequest,
    >,
}
/// QueryChannelsResponse is the response type for the Query/Channels RPC method.
#[derive(Clone, Debug, PartialEq)]
pub struct QueryChannelsResponse {
    /// list of stored channels of the chain.
    pub channels: Vec<IdentifiedChannel>,
    /// pagination response
    pub pagination: Option<
        crate::cosmos_query::PageResponse,
    >,
    /// query block height
    pub height: Option<crate::ibc_client::Height>,
}
/// QueryConnectionChannelsRequest is the request type for the
/// Query/QueryConnectionChannels RPC method
#[derive(Clone, Debug, PartialEq)]
pub struct QueryConnectionChannelsRequest {
    /// connection unique identifier
    pub connection: String,
    /// pagination request
    pub pagination: Option<
        crate::cosmos_query::PageRequest,
    >,
}
/// QueryConnectionChannelsResponse is the Response type for the
/// Query/QueryConnectionChannels RPC method
#[derive(Clone, Debug, PartialEq)]
pub struct QueryConnectionChannelsResponse {
    /// list of channels associated with a connection.
    pub channels: Vec<IdentifiedChannel>,
    /// pagination response
    pub pagination: Option<
        crate::cosmos_query::PageResponse,
    >,
    /// query block height
    pub height: Option<crate::ibc_client::Height>,
}
/// QueryChannelClientStateRequest is the request type for the Query/ClientState
/// RPC method
#[derive(Clone, Debug, PartialEq)]
pub struct QueryChannelClientStateRequest {
    /// port unique identifier
    pub port_id: String,
    /// channel unique identifier
    pub channel_id: String,
}
/// QueryChannelClientStateResponse is the Response type for the
/// Query/QueryChannelClientState RPC method
#[derive(Clone, Debug, PartialEq)]
pub struct QueryChannelClientStateResponse {
    /// client state associated with the channel
    pub identified_client_state:
        Option<crate::ibc_client::IdentifiedClientState>,
    /// merkle proof of existence
    pub proof: Vec<u8>,
    /// height at which the proof was retrieved
    pub proof_height: Option<crate::ibc_client::Height>,
}
/// QueryChannelConsensusStateRequest is the request type for the
/// Query/ConsensusState RPC method
#[derive(Clone, Debug, PartialEq)]
pub struct QueryChannelConsensusStateRequest {
    /// port unique identifier
    pub port_id: String,
    /// channel unique identifier
    pub channel_id: String,
    /// revision number of the consensus state
    pub revision_number: u64,
    /// revision height of the consensus state
    pub revision_height: u64,
}
/// QueryChannelClientStateResponse is the Response type for the
/// Query/QueryChannelClientState RPC method
#[derive(Clone, Debug, PartialEq)]
pub struct QueryChannelConsensusStateResponse {
    /// consensus state associated with the channel
    pub consensus_state: Option<crate::protobuf_any::Any>,
    /// client ID associated with the consensus state
    pub client_id: String,
    /// merkle proof of existence
    pub proof: Vec<u8>,
    /// height at which the proof was retrieved
    pub proof_height: Option<crate::ibc_client::Height>,
}
/// QueryPacketCommitmentRequest is the request type for the
/// Query/PacketCommitment RPC method
#[derive(Clone, Debug, PartialEq)]
pub struct QueryPacketCommitmentRequest {
    /// port unique identifier
    pub port_id: String,
    /// channel unique identifier
    pub channel_id: String,
    /// packet sequence
    pub sequence: u64,
}
/// QueryPacketCommitmentResponse defines the client query response for a packet
/// which also includes a proof and the height from which the proof was
/// retrieved
#[derive(Clone, Debug, PartialEq)]
pub struct QueryPacketCommitmentResponse {
    /// packet associated with the request fields
    pub commitment: Vec<u8>,
    /// merkle proof of existence
    pub proof: Vec<u8>,
    /// height at which the proof was retrieved
    pub proof_height: Option<crate::ibc_client::Height>,
}
/// QueryPacketCommitmentsRequest is the request type for the
/// Query/QueryPacketCommitments RPC method
#[derive(Clone, Debug, PartialEq)]
pub struct QueryPacketCommitmentsRequest {
    /// port unique identifier
    pub port_id: String,
    /// channel unique identifier
    pub channel_id: String,
    /// pagination request
    pub pagination: Option<
        crate::cosmos_query::PageRequest,
    >,
}
/// QueryPacketCommitmentsResponse is the request type for the
/// Query/QueryPacketCommitments RPC method
#[derive(Clone, Debug, PartialEq)]
pub struct QueryPacketCommitmentsResponse {
    pub commitments: Vec<PacketState>,
    /// pagination response
    pub pagination: Option<
        crate::cosmos_query::PageResponse,
    >,
    /// query block height
    pub height: Option<crate::ibc_client::Height>,
}
/// QueryPacketReceiptRequest is the request type for the
/// Query/PacketReceipt RPC method
#[derive(Clone, Debug, PartialEq)]
pub struct QueryPacketReceiptRequest {
    /// port unique identifier
    pub port_id: String,
    /// channel unique identifier
    pub channel_id: String,
    /// packet sequence
    pub sequence: u64,
}
/// QueryPacketReceiptResponse defines the client query response for a packet
/// receipt which also includes a proof, and the height from which the proof was
/// retrieved
#[derive(Clone, Debug, PartialEq)]
pub struct QueryPacketReceiptResponse {
    /// success flag for if receipt exists
    pub received: bool,
    /// merkle proof of existence
    pub proof: Vec<u8>,
    /// height at which the proof was retrieved
    pub proof_height: Option<crate::ibc_client::Height>,
}
/// QueryPacketAcknowledgementRequest is the request type for the
/// Query/PacketAcknowledgement RPC method
#[derive(Clone, Debug, PartialEq)]
pub struct QueryPacketAcknowledgementRequest {
    /// port unique identifier
    pub port_id: String,
    /// channel unique identifier
    pub channel_id: String,
    /// packet sequence
    pub sequence: u64,
}
/// QueryPacketAcknowledgementResponse defines the client query response for a
/// packet which also includes a proof and the height from which the
/// proof was retrieved
#[derive(Clone, Debug, PartialEq)]
pub struct QueryPacketAcknowledgementResponse {
    /// packet associated with the request fields
    pub acknowledgement: Vec<u8>,
    /// merkle proof of existence
    pub proof: Vec<u8>,
    /// height at which the proof was retrieved
    pub proof_height: Option<crate::ibc_client::Height>,
}
/// QueryPacketAcknowledgementsRequest is the request type for the
/// Query/QueryPacketCommitments RPC method
#[derive(Clone, Debug, PartialEq)]
pub struct QueryPacketAcknowledgementsRequest {
    /// port unique identifier
    pub port_id: String,
    /// channel unique identifier
    pub channel_id: String,
    /// pagination request
    pub pagination: Option<
        crate::cosmos_query::PageRequest,
    >,
    /// list of packet sequences
    pub packet_commitment_sequences: Vec<u64>,
}
/// QueryPacketAcknowledgemetsResponse is the request type for the
/// Query/QueryPacketAcknowledgements RPC method
#[derive(Clone, Debug, PartialEq)]
pub struct QueryPacketAcknowledgementsResponse {
    pub acknowledgements: Vec<PacketState>,
    /// pagination response
    pub pagination: Option<
        crate::cosmos_query::PageResponse,
    >,
    /// query block height
    pub height: Option<crate::ibc_client::Height>,
}
/// QueryUnreceivedPacketsRequest is the request type for the
/// Query/UnreceivedPackets RPC method
#[derive(Clone, Debug, PartialEq)]
pub struct QueryUnreceivedPacketsRequest {
    /// port unique identifier
    pub port_id: String,
    /// channel unique identifier
    pub channel_id: String,
    /// list of packet sequences
    pub packet_commitment_sequences: Vec<u64>,
}
/// QueryUnreceivedPacketsResponse is the response type for the
/// Query/UnreceivedPacketCommitments RPC method
#[derive(Clone, Debug, PartialEq)]
pub struct QueryUnreceivedPacketsResponse {
    /// list of unreceived packet sequences
    pub sequences: Vec<u64>,
    /// query block height
    pub height: Option<crate::ibc_client::Height>,
}
/// QueryUnreceivedAcks is the request type for the
/// Query/UnreceivedAcks RPC method
#[derive(Clone, Debug, PartialEq)]
pub struct QueryUnreceivedAcksRequest {
    /// port unique identifier
    pub port_id: String,
    /// channel unique identifier
    pub channel_id: String,
    /// list of acknowledgement sequences
    pub packet_ack_sequences: Vec<u64>,
}
/// QueryUnreceivedAcksResponse is the response type for the
/// Query/UnreceivedAcks RPC method
#[derive(Clone, Debug, PartialEq)]
pub struct QueryUnreceivedAcksResponse {
    /// list of unreceived acknowledgement sequences
    pub sequences: Vec<u64>,
    /// query block height
    pub height: Option<crate::ibc_client::Height>,
}
/// QueryNextSequenceReceiveRequest is the request type for the
/// Query/QueryNextSequenceReceiveRequest RPC method
#[derive(Clone, Debug, PartialEq)]
pub struct QueryNextSequenceReceiveRequest {
    /// port unique identifier
    pub port_id: String,
    /// channel unique identifier
    pub channel_id: String,
}
/// QuerySequenceResponse is the response type for the
/// Query/QueryNextSequenceReceiveResponse RPC method
#[derive(Clone, Debug, PartialEq)]
pub struct QueryNextSequenceReceiveResponse {
    /// next sequence receive number
    pub next_sequence_receive: u64,
    /// merkle proof of existence
    pub proof: Vec<u8>,
    /// height at which the proof was retrieved
    pub proof_height: Option<crate::ibc_client::Height>,
}
/// QueryNextSequenceSendRequest is the request type for the
/// Query/QueryNextSequenceSend RPC method
#[derive(Clone, Debug, PartialEq)]
pub struct QueryNextSequenceSendRequest {
    /// port unique identifier
    pub port_id: String,
    /// channel unique identifier
    pub channel_id: String,
}
/// QueryNextSequenceSendResponse is the request type for the
/// Query/QueryNextSequenceSend RPC method
#[derive(Clone, Debug, PartialEq)]
pub struct QueryNextSequenceSendResponse {
    /// next sequence send number
    pub next_sequence_send: u64,
    /// merkle proof of existence
    pub proof: Vec<u8>,
    /// height at which the proof was retrieved
    pub proof_height: Option<crate::ibc_client::Height>,
}
/// QueryUpgradeErrorRequest is the request type for the Query/QueryUpgradeError RPC method
#[derive(Clone, Debug, PartialEq)]
pub struct QueryUpgradeErrorRequest {
    pub port_id: String,
    pub channel_id: String,
}
/// QueryUpgradeErrorResponse is the response type for the Query/QueryUpgradeError RPC method
#[derive(Clone, Debug, PartialEq)]
pub struct QueryUpgradeErrorResponse {
    pub error_receipt: Option<ErrorReceipt>,
    /// merkle proof of existence
    pub proof: Vec<u8>,
    /// height at which the proof was retrieved
    pub proof_height: Option<crate::ibc_client::Height>,
}
/// QueryUpgradeRequest is the request type for the QueryUpgradeRequest RPC method
#[derive(Clone, Debug, PartialEq)]
pub struct QueryUpgradeRequest {
    pub port_id: String,
    pub channel_id: String,
}
/// QueryUpgradeResponse is the response type for the QueryUpgradeResponse RPC method
#[derive(Clone, Debug, PartialEq)]
pub struct QueryUpgradeResponse {
    pub upgrade: Option<Upgrade>,
    /// merkle proof of existence
    pub proof: Vec<u8>,
    /// height at which the proof was retrieved
    pub proof_height: Option<crate::ibc_client::Height>,
}
/// QueryChannelParamsRequest is the request type for the Query/ChannelParams RPC method.
#[derive(Clone, Debug, PartialEq)]
pub struct QueryChannelParamsRequest {}
/// QueryChannelParamsResponse is the response type for the Query/ChannelParams RPC method.
#[derive(Clone, Debug, PartialEq)]
pub struct QueryChannelParamsResponse {
    /// params defines the parameters of the module.
    pub params: Option<Params>,
}
/// MsgChannelOpenInit defines an sdk.Msg to initialize a channel handshake. It
/// is called by a relayer on Chain A.
#[derive(Clone, Debug, PartialEq)]
pub struct MsgChannelOpenInit {
    pub port_id: String,
    pub channel: Option<Channel>,
    pub signer: String,
}
/// MsgChannelOpenInitResponse defines the Msg/ChannelOpenInit response type.
#[derive(Clone, Debug, PartialEq)]
pub struct MsgChannelOpenInitResponse {
    pub channel_id: String,
    pub version: String,
}
/// MsgChannelOpenInit defines a msg sent by a Relayer to try to open a channel
/// on Chain B. The version field within the Channel field has been deprecated. Its
/// value will be ignored by core IBC.
#[derive(Clone, Debug, PartialEq)]
pub struct MsgChannelOpenTry {
    pub port_id: String,
    /// Deprecated: this field is unused. Crossing hello's are no longer supported in core IBC.
    pub previous_channel_id: String,
    /// NOTE: the version field within the channel has been deprecated. Its value will be ignored by core IBC.
    pub channel: Option<Channel>,
    pub counterparty_version: String,
    pub proof_init: Vec<u8>,
    pub proof_height: Option<crate::ibc_client::Height>,
    pub signer: String,
}
/// MsgChannelOpenTryResponse defines the Msg/ChannelOpenTry response type.
#[derive(Clone, Debug, PartialEq)]
pub struct MsgChannelOpenTryResponse {
    pub version: String,
    pub channel_id: String,
}
/// MsgChannelOpenAck defines a msg sent by a Relayer to Chain A to acknowledge
/// the change of channel state to TRYOPEN on Chain B.
/// WARNING: a channel upgrade MUST NOT initialize an upgrade for this channel
/// in the same block as executing this message otherwise the counterparty will
/// be incapable of opening.
#[derive(Clone, Debug, PartialEq)]
pub struct MsgChannelOpenAck {
    pub port_id: String,
    pub channel_id: String,
    pub counterparty_channel_id: String,
    pub counterparty_version: String,
    pub proof_try: Vec<u8>,
    pub proof_height: Option<crate::ibc_client::Height>,
    pub signer: String,
}
/// MsgChannelOpenAckResponse defines the Msg/ChannelOpenAck response type.
#[derive(Clone, Debug, PartialEq)]
pub struct MsgChannelOpenAckResponse {}
/// MsgChannelOpenConfirm defines a msg sent by a Relayer to Chain B to
/// acknowledge the change of channel state to OPEN on Chain A.
#[derive(Clone, Debug, PartialEq)]
pub struct MsgChannelOpenConfirm {
    pub port_id: String,
    pub channel_id: String,
    pub proof_ack: Vec<u8>,
    pub proof_height: Option<crate::ibc_client::Height>,
    pub signer: String,
}
/// MsgChannelOpenConfirmResponse defines the Msg/ChannelOpenConfirm response
/// type.
#[derive(Clone, Debug, PartialEq)]
pub struct MsgChannelOpenConfirmResponse {}
/// MsgChannelCloseInit defines a msg sent by a Relayer to Chain A
/// to close a channel with Chain B.
#[derive(Clone, Debug, PartialEq)]
pub struct MsgChannelCloseInit {
    pub port_id: String,
    pub channel_id: String,
    pub signer: String,
}
/// MsgChannelCloseInitResponse defines the Msg/ChannelCloseInit response type.
#[derive(Clone, Debug, PartialEq)]
pub struct MsgChannelCloseInitResponse {}
/// MsgChannelCloseConfirm defines a msg sent by a Relayer to Chain B
/// to acknowledge the change of channel state to CLOSED on Chain A.
#[derive(Clone, Debug, PartialEq)]
pub struct MsgChannelCloseConfirm {
    pub port_id: String,
    pub channel_id: String,
    pub proof_init: Vec<u8>,
    pub proof_height: Option<crate::ibc_client::Height>,
    pub signer: String,
    pub counterparty_upgrade_sequence: u64,
}
/// MsgChannelCloseConfirmResponse defines the Msg/ChannelCloseConfirm response
/// type.
#[derive(Clone, Debug, PartialEq)]
pub struct MsgChannelCloseConfirmResponse {}
/// MsgRecvPacket receives incoming IBC packet
#[derive(Clone, Debug, PartialEq)]
pub struct MsgRecvPacket {
    pub packet: Option<Packet>,
    pub proof_commitment: Vec<u8>,
    pub proof_height: Option<crate::ibc_client::Height>,
    pub signer: String,
}
/// MsgRecvPacketResponse defines the Msg/RecvPacket response type.
#[derive(Clone, Debug, PartialEq)]
pub struct MsgRecvPacketResponse {
    pub result: i32,
}
/// MsgTimeout receives timed-out packet
#[derive(Clone, Debug, PartialEq)]
pub struct MsgTimeout {
    pub packet: Option<Packet>,
    pub proof_unreceived: Vec<u8>,
    pub proof_height: Option<crate::ibc_client::Height>,
    pub next_sequence_recv: u64,
    pub signer: String,
}
/// MsgTimeoutResponse defines the Msg/Timeout response type.
#[derive(Clone, Debug, PartialEq)]
pub struct MsgTimeoutResponse {
    pub result: i32,
}
/// MsgTimeoutOnClose timed-out packet upon counterparty channel closure.
#[derive(Clone, Debug, PartialEq)]
pub struct MsgTimeoutOnClose {
    pub packet: Option<Packet>,
    pub proof_unreceived: Vec<u8>,
    pub proof_close: Vec<u8>,
    pub proof_height: Option<crate::ibc_client::Height>,
    pub next_sequence_recv: u64,
    pub signer: String,
    pub counterparty_upgrade_sequence: u64,
}
/// MsgTimeoutOnCloseResponse defines the Msg/TimeoutOnClose response type.
#[derive(Clone, Debug, PartialEq)]
pub struct MsgTimeoutOnCloseResponse {
    pub result: i32,
}
/// MsgAcknowledgement receives incoming IBC acknowledgement
#[derive(Clone, Debug, PartialEq)]
pub struct MsgAcknowledgement {
    pub packet: Option<Packet>,
    pub acknowledgement: Vec<u8>,
    pub proof_acked: Vec<u8>,
    pub proof_height: Option<crate::ibc_client::Height>,
    pub signer: String,
}
/// MsgAcknowledgementResponse defines the Msg/Acknowledgement response type.
#[derive(Clone, Debug, PartialEq)]
pub struct MsgAcknowledgementResponse {
    pub result: i32,
}
/// MsgChannelUpgradeInit defines the request type for the ChannelUpgradeInit rpc
/// WARNING: Initializing a channel upgrade in the same block as opening the channel
/// may result in the counterparty being incapable of opening.
#[derive(Clone, Debug, PartialEq)]
pub struct MsgChannelUpgradeInit {
    pub port_id: String,
    pub channel_id: String,
    pub fields: Option<UpgradeFields>,
    pub signer: String,
}
/// MsgChannelUpgradeInitResponse defines the MsgChannelUpgradeInit response type
#[derive(Clone, Debug, PartialEq)]
pub struct MsgChannelUpgradeInitResponse {
    pub upgrade: Option<Upgrade>,
    pub upgrade_sequence: u64,
}
/// MsgChannelUpgradeTry defines the request type for the ChannelUpgradeTry rpc
#[derive(Clone, Debug, PartialEq)]
pub struct MsgChannelUpgradeTry {
    pub port_id: String,
    pub channel_id: String,
    pub proposed_upgrade_connection_hops: Vec<String>,
    pub counterparty_upgrade_fields: Option<UpgradeFields>,
    pub counterparty_upgrade_sequence: u64,
    pub proof_channel: Vec<u8>,
    pub proof_upgrade: Vec<u8>,
    pub proof_height: Option<crate::ibc_client::Height>,
    pub signer: String,
}
/// MsgChannelUpgradeTryResponse defines the MsgChannelUpgradeTry response type
#[derive(Clone, Debug, PartialEq)]
pub struct MsgChannelUpgradeTryResponse {
    pub upgrade: Option<Upgrade>,
    pub upgrade_sequence: u64,
    pub result: i32,
}
/// MsgChannelUpgradeAck defines the request type for the ChannelUpgradeAck rpc
#[derive(Clone, Debug, PartialEq)]
pub struct MsgChannelUpgradeAck {
    pub port_id: String,
    pub channel_id: String,
    pub counterparty_upgrade: Option<Upgrade>,
    pub proof_channel: Vec<u8>,
    pub proof_upgrade: Vec<u8>,
    pub proof_height: Option<crate::ibc_client::Height>,
    pub signer: String,
}
/// MsgChannelUpgradeAckResponse defines MsgChannelUpgradeAck response type
#[derive(Clone, Debug, PartialEq)]
pub struct MsgChannelUpgradeAckResponse {
    pub result: i32,
}
/// MsgChannelUpgradeConfirm defines the request type for the ChannelUpgradeConfirm rpc
#[derive(Clone, Debug, PartialEq)]
pub struct MsgChannelUpgradeConfirm {
    pub port_id: String,
    pub channel_id: String,
    pub counterparty_channel_state: i32,
    pub counterparty_upgrade: Option<Upgrade>,
    pub proof_channel: Vec<u8>,
    pub proof_upgrade: Vec<u8>,
    pub proof_height: Option<crate::ibc_client::Height>,
    pub signer: String,
}
/// MsgChannelUpgradeConfirmResponse defines MsgChannelUpgradeConfirm response type
#[derive(Clone, Debug, PartialEq)]
pub struct MsgChannelUpgradeConfirmResponse {
    pub result: i32,
}
/// MsgChannelUpgradeOpen defines the request type for the ChannelUpgradeOpen rpc
#[derive(Clone, Debug, PartialEq)]
pub struct MsgChannelUpgradeOpen {
    pub port_id: String,
    pub channel_id: String,
    pub counterparty_channel_state: i32,
    pub counterparty_upgrade_sequence: u64,
    pub proof_channel: Vec<u8>,
    pub proof_height: Option<crate::ibc_client::Height>,
    pub signer: String,
}
/// MsgChannelUpgradeOpenResponse defines the MsgChannelUpgradeOpen response type
#[derive(Clone, Debug, PartialEq)]
pub struct MsgChannelUpgradeOpenResponse {}
/// MsgChannelUpgradeTimeout defines the request type for the ChannelUpgradeTimeout rpc
#[derive(Clone, Debug, PartialEq)]
pub struct MsgChannelUpgradeTimeout {
    pub port_id: String,
    pub channel_id: String,
    pub counterparty_channel: Option<Channel>,
    pub proof_channel: Vec<u8>,
    pub proof_height: Option<crate::ibc_client::Height>,
    pub signer: String,
}
/// MsgChannelUpgradeTimeoutRepsonse defines the MsgChannelUpgradeTimeout response type
#[derive(Clone, Debug, PartialEq)]
pub struct MsgChannelUpgradeTimeoutResponse {}
/// MsgChannelUpgradeCancel defines the request type for the ChannelUpgradeCancel rpc
#[derive(Clone, Debug, PartialEq)]
pub struct MsgChannelUpgradeCancel {
    pub port_id: String,
    pub channel_id: String,
    pub error_receipt: Option<ErrorReceipt>,
    pub proof_error_receipt: Vec<u8>,
    pub proof_height: Option<crate::ibc_client::Height>,
    pub signer: String,
}
/// MsgChannelUpgradeCancelResponse defines the MsgChannelUpgradeCancel response type
#[derive(Clone, Debug, PartialEq)]
pub struct MsgChannelUpgradeCancelResponse {}
/// MsgUpdateParams is the MsgUpdateParams request type.
#[derive(Clone, Debug, PartialEq)]
pub struct MsgUpdateParams {
    /// authority is the address that controls the module (defaults to x/gov unless overwritten).
    pub authority: String,
    /// params defines the channel parameters to update.
    ///
    /// NOTE: All parameters must be supplied.
    pub params: Option<Params>,
}
/// MsgUpdateParamsResponse defines the MsgUpdateParams response type.
#[derive(Clone, Debug, PartialEq)]
pub struct MsgUpdateParamsResponse {}
/// MsgPruneAcknowledgements defines the request type for the PruneAcknowledgements rpc.
#[derive(Clone, Debug, PartialEq)]
pub struct MsgPruneAcknowledgements {
    pub port_id: String,
    pub channel_id: String,
    pub limit: u64,
    pub signer: String,
}
/// MsgPruneAcknowledgementsResponse defines the response type for the PruneAcknowledgements rpc.
#[derive(Clone, Debug, PartialEq)]
pub struct MsgPruneAcknowledgementsResponse {
    /// Number of sequences pruned (includes both packet acknowledgements and packet receipts where appropriate).
    pub total_pruned_sequences: u64,
    /// Number of sequences left after pruning.
    pub total_remaining_sequences: u64,
}
/// ResponseResultType defines the possible outcomes of the execution of a message
#[derive(Clone, Copy, Debug, PartialEq, Eq, Hash, PartialOrd, Ord)]
pub enum ResponseResultType {
    /// Default zero value enumeration
    Unspecified,
    /// The message did not call the IBC application callbacks (because, for example, the packet had already been relayed)
    Noop,
    /// The message was executed successfully
    Success,
    /// The message was executed unsuccessfully
    Failure,
}
/// The name of a packet-handling result, as the protocol definition
/// spells it.
pub open spec fn response_result_type_name(t: ResponseResultType) -> Seq<char> {
    match t {
        ResponseResultType::Unspecified => "RESPONSE_RESULT_TYPE_UNSPECIFIED"@,
        ResponseResultType::Noop => "RESPONSE_RESULT_TYPE_NOOP"@,
        ResponseResultType::Success => "RESPONSE_RESULT_TYPE_SUCCESS"@,
        ResponseResultType::Failure => "RESPONSE_RESULT_TYPE_FAILURE"@,
    }
}

/// The packet-handling result a name denotes, if any.
pub open spec fn response_result_type_of_name(v: Seq<char>) -> Option<ResponseResultType> {
    if v == "RESPONSE_RESULT_TYPE_UNSPECIFIED"@ {
        Some(ResponseResultType::Unspecified)
    } else if v == "RESPONSE_RESULT_TYPE_NOOP"@ {
        Some(ResponseResultType::Noop)
    } else if v == "RESPONSE_RESULT_TYPE_SUCCESS"@ {
        Some(ResponseResultType::Success)
    } else if v == "RESPONSE_RESULT_TYPE_FAILURE"@ {
        Some(ResponseResultType::Failure)
    } else {
        None
    }
}

impl ResponseResultType {
    /// String value of the enum field names used in the ProtoBuf definition.
    ///
    /// The values are not transformed in any way and thus are considered stable
    /// (if the ProtoBuf definition does not change) and safe for programmatic use.
    pub fn as_str_name(&self) -> (r: &'static str)
        ensures
            r@ == response_result_type_name(*self),
    {
        match self {
            ResponseResultType::Unspecified => "RESPONSE_RESULT_TYPE_UNSPECIFIED",
            ResponseResultType::Noop => "RESPONSE_RESULT_TYPE_NOOP",
            ResponseResultType::Success => "RESPONSE_RESULT_TYPE_SUCCESS",
            ResponseResultType::Failure => "RESPONSE_RESULT_TYPE_FAILURE",
        }
    }

    /// Creates an enum from field names used in the ProtoBuf definition.
    pub fn from_str_name(value: &str) -> (r: Option<Self>)
        ensures
            r == response_result_type_of_name(value@),
    {
        let v = value.to_owned();
        if v == "RESPONSE_RESULT_TYPE_UNSPECIFIED".to_owned() {
            Some(ResponseResultType::Unspecified)
        } else if v == "RESPONSE_RESULT_TYPE_NOOP".to_owned() {
            Some(ResponseResultType::Noop)
        } else if v == "RESPONSE_RESULT_TYPE_SUCCESS".to_owned() {
            Some(ResponseResultType::Success)
        } else if v == "RESPONSE_RESULT_TYPE_FAILURE".to_owned() {
            Some(ResponseResultType::Failure)
        } else {
            None
        }
    }
}

} // verus!
