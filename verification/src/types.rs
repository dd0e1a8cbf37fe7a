//! The instruction model: opcodes, wire structures, decoded instruction
//! trees, acknowledgements, errors and token-movement effects.

use vstd::prelude::*;

verus! {

use crate::u256::U256;

/// No-op instruction, present only for off-chain indexing.
pub const OP_TAG: u8 = 0x00;

/// Deliver an opaque payload to a contract on the receiving chain.
pub const OP_MULTIPLEX: u8 = 0x01;

/// An ordered list of sub-instructions handled as a unit.
pub const OP_BATCH: u8 = 0x02;

/// Move value of one token, possibly minting a wrapped representation.
pub const OP_FUNGIBLE_ASSET_ORDER: u8 = 0x03;

pub const INSTR_VERSION_0: u8 = 0x00;

pub const INSTR_VERSION_1: u8 = 0x01;

/// Acknowledgement envelope tag for a failed execution.
pub const TAG_ACK_FAILURE: u64 = 0x00;

/// Acknowledgement envelope tag for a successful execution.
pub const TAG_ACK_SUCCESS: u64 = 0x01;

/// The order was auto-filled by the protocol itself.
pub const FILL_TYPE_PROTOCOL: u64 = 0xB0CAD0;

/// The order was filled by a market maker advancing funds.
pub const FILL_TYPE_MARKETMAKER: u64 = 0xD1CEC45E;

/// The sentinel acknowledgement that asks a market maker to replay the
/// packet.  It is four bytes long, while every legitimately encoded
/// acknowledgement is a multiple of thirty-two bytes, so it cannot collide.
pub open spec fn only_maker_bytes() -> Seq<u8> {
    seq![0xDEu8, 0xADu8, 0xC0u8, 0xDEu8]
}

/// The maker-only sentinel as a byte vector.
pub fn ack_err_only_maker() -> (r: Vec<u8>)
    ensures
        r@ == only_maker_bytes(),
{
    let mut v: Vec<u8> = Vec::new();
    v.push(0xDE);
    v.push(0xAD);
    v.push(0xC0);
    v.push(0xDE);
    proof {
        assert(v@ =~= only_maker_bytes());
    }
    v
}

/// One opcode-tagged operation in wire form; the operand's meaning depends
/// on the opcode and version.
#[derive(Clone, Debug, PartialEq)]
pub struct Instruction {
    pub version: u8,
    pub opcode: u8,
    pub operand: Vec<u8>,
}

pub struct InstructionV {
    pub version: u8,
    pub opcode: u8,
    pub operand: Seq<u8>,
}

impl View for Instruction {
    type V = InstructionV;

    open spec fn view(&self) -> InstructionV {
        InstructionV { version: self.version, opcode: self.opcode, operand: self.operand@ }
    }
}

/// The top-level payload of one cross-chain packet.
#[derive(Clone, Debug, PartialEq)]
pub struct ZkgmPacket {
    /// Seeds the sub-instruction salts; 32 bytes.
    pub salt: Vec<u8>,
    /// Reserved for multi-hop forwarding; zero on every packet sent.
    pub path: U256,
    pub instruction: Instruction,
}

pub struct ZkgmPacketV {
    pub salt: Seq<u8>,
    pub path: U256,
    pub instruction: InstructionV,
}

impl View for ZkgmPacket {
    type V = ZkgmPacketV;

    open spec fn view(&self) -> ZkgmPacketV {
        ZkgmPacketV { salt: self.salt@, path: self.path, instruction: self.instruction@ }
    }
}

/// An order moving `base_amount` of `base_token`; the difference to
/// `quote_amount` is the relayer fee.
#[derive(Clone, Debug, PartialEq)]
pub struct FungibleAssetOrder {
    pub sender: Vec<u8>,
    pub receiver: Vec<u8>,
    pub base_token: Vec<u8>,
    pub base_amount: U256,
    pub base_token_symbol: String,
    pub base_token_name: String,
    pub base_token_decimals: u8,
    pub base_token_path: U256,
    pub quote_token: Vec<u8>,
    pub quote_amount: U256,
}

pub struct FungibleAssetOrderV {
    pub sender: Seq<u8>,
    pub receiver: Seq<u8>,
    pub base_token: Seq<u8>,
    pub base_amount: U256,
    pub base_token_symbol: Seq<char>,
    pub base_token_name: Seq<char>,
    pub base_token_decimals: u8,
    pub base_token_path: U256,
    pub quote_token: Seq<u8>,
    pub quote_amount: U256,
}

impl View for FungibleAssetOrder {
    type V = FungibleAssetOrderV;

    open spec fn view(&self) -> FungibleAssetOrderV {
        FungibleAssetOrderV {
            sender: self.sender@,
            receiver: self.receiver@,
            base_token: self.base_token@,
            base_amount: self.base_amount,
            base_token_symbol: self.base_token_symbol@,
            base_token_name: self.base_token_name@,
            base_token_decimals: self.base_token_decimals,
            base_token_path: self.base_token_path,
            quote_token: self.quote_token@,
            quote_amount: self.quote_amount,
        }
    }
}

/// Delivery of an opaque payload to a contract on the receiving chain.
/// Only the `eureka` calling convention is implemented.
#[derive(Clone, Debug, PartialEq)]
pub struct Multiplex {
    pub sender: Vec<u8>,
    pub contract_address: Vec<u8>,
    pub contract_calldata: Vec<u8>,
    pub eureka: bool,
}

pub struct MultiplexV {
    pub sender: Seq<u8>,
    pub contract_address: Seq<u8>,
    pub contract_calldata: Seq<u8>,
    pub eureka: bool,
}

impl View for Multiplex {
    type V = MultiplexV;

    open spec fn view(&self) -> MultiplexV {
        MultiplexV {
            sender: self.sender@,
            contract_address: self.contract_address@,
            contract_calldata: self.contract_calldata@,
            eureka: self.eureka,
        }
    }
}

/// The top-level acknowledgement envelope.
#[derive(Clone, Debug, PartialEq)]
pub struct Ack {
    pub tag: U256,
    pub inner_ack: Vec<u8>,
}

pub struct AckV {
    pub tag: U256,
    pub inner_ack: Seq<u8>,
}

impl View for Ack {
    type V = AckV;

    open spec fn view(&self) -> AckV {
        AckV { tag: self.tag, inner_ack: self.inner_ack@ }
    }
}

impl Ack {
    /// Whether the envelope reports a successful execution.
    pub fn is_success(&self) -> (r: bool)
        ensures
            r == (self.tag.as_nat() == TAG_ACK_SUCCESS),
    {
        self.tag.same(&U256::from_u64(TAG_ACK_SUCCESS))
    }
}

/// The acknowledgement of one fungible-asset order, present only under a
/// successful envelope.
#[derive(Clone, Debug, PartialEq)]
pub struct FungibleAssetOrderAck {
    pub fill_type: U256,
    pub market_maker: Vec<u8>,
}

pub struct FungibleAssetOrderAckV {
    pub fill_type: U256,
    pub market_maker: Seq<u8>,
}

impl View for FungibleAssetOrderAck {
    type V = FungibleAssetOrderAckV;

    open spec fn view(&self) -> FungibleAssetOrderAckV {
        FungibleAssetOrderAckV { fill_type: self.fill_type, market_maker: self.market_maker@ }
    }
}

/// A fully decoded instruction tree: the closed set of opcodes, with
/// versions already checked against each opcode's maximum.
pub enum Tree {
    Order(FungibleAssetOrder),
    Batch(Vec<Tree>),
    Multiplex(Multiplex),
    Tag,
}

/// Everything the traversals can fail with.  Decode errors and ledger
/// violations abort a whole traversal; the maker-only policy rejection is
/// not an error but a distinguished acknowledgement.
#[derive(Clone, Copy, Debug, PartialEq, Eq, Structural)]
pub enum ZkgmError {
    /// The opcode is outside the closed instruction set.
    UnknownOpcode { opcode: u8 },
    /// The version exceeds the opcode's maximum known version.
    UnsupportedVersion { version: u8 },
    /// The operand bytes do not decode for the opcode.
    OperandDecode,
    /// The acknowledgement bytes do not decode.
    AckDecode,
    /// A batch acknowledgement has a different entry count than the batch.
    BatchAckLength,
    /// The fill type of an order acknowledgement is neither protocol nor
    /// market maker.
    UnknownFillType,
    /// A 256-bit amount does not fit the native integer width.
    AmountOverflow,
    /// The order's sender bytes are not valid UTF-8.
    InvalidSender,
    /// The order's receiver bytes (or the market maker's) are not valid
    /// UTF-8.
    InvalidReceiver,
    /// The base token bytes are not a valid denomination string.
    InvalidBaseToken,
    /// The quote token bytes are not a valid denomination string.
    InvalidQuoteToken,
    /// The multiplex target bytes are not a valid address string.
    InvalidContractAddress,
    /// The channel escrow balance would go negative, or overflow.
    InvalidChannelBalance,
    /// A transfer of zero tokens.
    InvalidAmount,
    /// No wrapped-denomination prediction was supplied for an order; the
    /// minter query it stands for failed.
    MissingWrappedDenom,
    /// The non-eureka multiplex path is intentionally unimplemented.
    Unimplemented,
    /// The packet must be replayed by a market maker; execution broke the
    /// transaction on purpose.
    OnlyMaker,
    /// A channel handshake offered a version other than the protocol's.
    InvalidIbcVersion,
}

/// One token-movement or outbound-message side effect, accumulated by the
/// traversals and applied by the host only when a call succeeds as a whole.
#[derive(Clone, Debug, PartialEq)]
pub enum Effect {
    /// Register and create a new wrapped denomination with its metadata.
    CreateDenom {
        denom: String,
        name: String,
        symbol: String,
        decimals: u8,
        path: U256,
        channel_id: u32,
        token: Vec<u8>,
    },
    /// Mint wrapped tokens to an address.
    Mint { denom: String, amount: u128, to: String },
    /// Release escrowed native tokens to an address.
    Unescrow { denom: String, to: String, amount: u128 },
    /// Burn wrapped tokens on behalf of the sender.
    Burn { denom: String, amount: u128, sender: String },
    /// Lock native tokens from the sender into escrow.
    Escrow { from: String, denom: String, amount: u128 },
    /// Deliver multiplex calldata to a contract as an inbound call.
    CallContract { address: String, channel_id: u32, sender: Vec<u8>, calldata: Vec<u8> },
    /// Hand a newly built packet to the host for sending.
    SendPacket { channel_id: u32, timeout_height: u64, timeout_timestamp: u64, data: Vec<u8> },
}

pub enum EffectV {
    CreateDenom {
        denom: Seq<char>,
        name: Seq<char>,
        symbol: Seq<char>,
        decimals: u8,
        path: U256,
        channel_id: u32,
        token: Seq<u8>,
    },
    Mint { denom: Seq<char>, amount: u128, to: Seq<char> },
    Unescrow { denom: Seq<char>, to: Seq<char>, amount: u128 },
    Burn { denom: Seq<char>, amount: u128, sender: Seq<char> },
    Escrow { from: Seq<char>, denom: Seq<char>, amount: u128 },
    CallContract { address: Seq<char>, channel_id: u32, sender: Seq<u8>, calldata: Seq<u8> },
    SendPacket { channel_id: u32, timeout_height: u64, timeout_timestamp: u64, data: Seq<u8> },
}

impl View for Effect {
    type V = EffectV;

    open spec fn view(&self) -> EffectV {
        match self {
            Effect::CreateDenom { denom, name, symbol, decimals, path, channel_id, token } => {
                EffectV::CreateDenom {
                    denom: denom@,
                    name: name@,
                    symbol: symbol@,
                    decimals: *decimals,
                    path: *path,
                    channel_id: *channel_id,
                    token: token@,
                }
            },
            Effect::Mint { denom, amount, to } => {
                EffectV::Mint { denom: denom@, amount: *amount, to: to@ }
            },
            Effect::Unescrow { denom, to, amount } => {
                EffectV::Unescrow { denom: denom@, to: to@, amount: *amount }
            },
            Effect::Burn { denom, amount, sender } => {
                EffectV::Burn { denom: denom@, amount: *amount, sender: sender@ }
            },
            Effect::Escrow { from, denom, amount } => {
                EffectV::Escrow { from: from@, denom: denom@, amount: *amount }
            },
            Effect::CallContract { address, channel_id, sender, calldata } => {
                EffectV::CallContract {
                    address: address@,
                    channel_id: *channel_id,
                    sender: sender@,
                    calldata: calldata@,
                }
            },
            Effect::SendPacket { channel_id, timeout_height, timeout_timestamp, data } => {
                EffectV::SendPacket {
                    channel_id: *channel_id,
                    timeout_height: *timeout_height,
                    timeout_timestamp: *timeout_timestamp,
                    data: data@,
                }
            },
        }
    }
}

/// The views of a sequence of effects.
pub open spec fn effects_view(s: Seq<Effect>) -> Seq<EffectV> {
    s.map_values(|e: Effect| e@)
}

/// Packet metadata that the traversals read: the two channel endpoints and
/// the relayer's (host-validated) address.
#[derive(Clone, Debug, PartialEq)]
pub struct TraversalCtx {
    pub source_channel_id: u32,
    pub destination_channel_id: u32,
    pub relayer: String,
}

pub struct CtxV {
    pub source_channel_id: u32,
    pub destination_channel_id: u32,
    pub relayer: Seq<char>,
}

impl View for TraversalCtx {
    type V = CtxV;

    open spec fn view(&self) -> CtxV {
        CtxV {
            source_channel_id: self.source_channel_id,
            destination_channel_id: self.destination_channel_id,
            relayer: self.relayer@,
        }
    }
}

/// The views of a sequence of byte vectors.
pub open spec fn bytes_list_view(s: Seq<Vec<u8>>) -> Seq<Seq<u8>> {
    s.map_values(|v: Vec<u8>| v@)
}

} // verus!
