//! The wire codec.  Every structured value travels as the Ethereum ABI
//! encoding of a tuple in the field order of its type, and sub-instruction
//! salts are keccak-256 hashes; both primitives come from the `alloy`
//! crates and are relied upon here.  Each encoding or decoding result is a
//! pure function of the input bytes alone, so it is given a name that the
//! callers' contracts speak of.

use vstd::prelude::*;

verus! {

use alloy_sol_types::SolType;
use alloy_sol_types::sol_data;
use crate::types::{
    Ack,
    AckV,
    FungibleAssetOrder,
    FungibleAssetOrderAck,
    FungibleAssetOrderAckV,
    FungibleAssetOrderV,
    Instruction,
    InstructionV,
    Multiplex,
    MultiplexV,
    ZkgmPacket,
    ZkgmPacketV,
};
use crate::u256::U256;

/// A 256-bit unsigned integer of the `alloy` crates, opaque here; it only
/// passes through the codec wrappers.
#[verifier::external_type_specification]
#[verifier::external_body]
pub struct ExRuintUint<const BITS: usize, const LIMBS: usize>(
    alloy_primitives::ruint::Uint<BITS, LIMBS>,
);

/// Relies on `ruint::Uint::into_limbs`: the little-endian 64-bit limbs of
/// the value, which are this library's own number representation.
#[verifier::external_body]
fn u256_of(x: alloy_primitives::U256) -> U256 {
    let l = x.into_limbs();
    U256 { w0: l[0], w1: l[1], w2: l[2], w3: l[3] }
}

/// Relies on `ruint::Uint::from_limbs`: the inverse of `into_limbs`.
#[verifier::external_body]
fn alloy_of(x: &U256) -> alloy_primitives::U256 {
    alloy_primitives::U256::from_limbs([x.w0, x.w1, x.w2, x.w3])
}

/// The keccak-256 digest of a byte string.
pub uninterp spec fn keccak256_of(b: Seq<u8>) -> Seq<u8>;

/// Relies on `alloy_primitives::keccak256`: a 32-byte digest determined by
/// the input bytes alone.
#[verifier::external_body]
fn keccak256_bytes(b: &[u8]) -> (r: Vec<u8>)
    ensures
        r@ == keccak256_of(b@),
        r@.len() == 32,
{
    alloy_primitives::keccak256(b).to_vec()
}

/// What a zkgm packet's bytes decode to, if anything.
pub uninterp spec fn zkgm_decoded(b: Seq<u8>) -> Option<ZkgmPacketV>;

/// Relies on alloy's validating ABI decoding of the parameter tuple
/// `(bytes32, uint256, (uint8, uint8, bytes))`.  The salt is a `bytes32`,
/// so a decoded packet's salt always has 32 bytes.
#[verifier::external_body]
pub(crate) fn decode_zkgm_packet(b: &[u8]) -> (r: Option<ZkgmPacket>)
    ensures
        r matches Some(p) ==> zkgm_decoded(b@) == Some(p@) && p.salt@.len() == 32,
        r is None ==> zkgm_decoded(b@) is None,
{
    let (salt, path, (version, opcode, operand)) =
        <(sol_data::FixedBytes<32>, sol_data::Uint<256>, (sol_data::Uint<8>, sol_data::Uint<8>, sol_data::Bytes)) as SolType>::abi_decode_params_validate(b).ok()?;
    Some(ZkgmPacket {
        salt: salt.to_vec(),
        path: u256_of(path),
        instruction: Instruction { version, opcode, operand: operand.to_vec() },
    })
}

/// The ABI encoding of a zkgm packet.
pub uninterp spec fn zkgm_bytes(p: ZkgmPacketV) -> Seq<u8>;

/// Relies on alloy's ABI encoding of the parameter tuple
/// `(bytes32, uint256, (uint8, uint8, bytes))`.
#[verifier::external_body]
pub(crate) fn encode_zkgm_packet(p: &ZkgmPacket) -> (r: Vec<u8>)
    requires
        p.salt@.len() == 32,
    ensures
        r@ == zkgm_bytes(p@),
{
    let salt = alloy_primitives::B256::from_slice(p.salt.as_slice());
    let instr = (p.instruction.version, p.instruction.opcode, p.instruction.operand.clone());
    <(sol_data::FixedBytes<32>, sol_data::Uint<256>, (sol_data::Uint<8>, sol_data::Uint<8>, sol_data::Bytes)) as SolType>::abi_encode_params(&(salt, alloy_of(&p.path), instr))
}

/// What a fungible-asset-order operand decodes to, if anything.
pub uninterp spec fn order_decoded(b: Seq<u8>) -> Option<FungibleAssetOrderV>;

/// Relies on alloy's validating ABI decoding of the parameter tuple
/// `(bytes, bytes, bytes, uint256, string, string, uint8, uint256, bytes,
/// uint256)`.
#[verifier::external_body]
pub(crate) fn decode_order(b: &[u8]) -> (r: Option<FungibleAssetOrder>)
    ensures
        r matches Some(o) ==> order_decoded(b@) == Some(o@),
        r is None ==> order_decoded(b@) is None,
{
    let t = <(sol_data::Bytes, sol_data::Bytes, sol_data::Bytes, sol_data::Uint<256>, sol_data::String, sol_data::String, sol_data::Uint<8>, sol_data::Uint<256>, sol_data::Bytes, sol_data::Uint<256>) as SolType>::abi_decode_params_validate(b).ok()?;
    Some(FungibleAssetOrder {
        sender: t.0.to_vec(), receiver: t.1.to_vec(), base_token: t.2.to_vec(),
        base_amount: u256_of(t.3), base_token_symbol: t.4, base_token_name: t.5,
        base_token_decimals: t.6, base_token_path: u256_of(t.7),
        quote_token: t.8.to_vec(), quote_amount: u256_of(t.9),
    })
}

/// The ABI encoding of a fungible-asset order.
pub uninterp spec fn order_bytes(o: FungibleAssetOrderV) -> Seq<u8>;

/// Relies on alloy's ABI encoding of the same ten-field parameter tuple
/// that [`decode_order`] reads.
#[verifier::external_body]
pub(crate) fn encode_order(o: &FungibleAssetOrder) -> (r: Vec<u8>)
    ensures
        r@ == order_bytes(o@),
{
    let v = (
        o.sender.clone(), o.receiver.clone(), o.base_token.clone(), alloy_of(&o.base_amount),
        o.base_token_symbol.clone(), o.base_token_name.clone(), o.base_token_decimals,
        alloy_of(&o.base_token_path), o.quote_token.clone(), alloy_of(&o.quote_amount),
    );
    <(sol_data::Bytes, sol_data::Bytes, sol_data::Bytes, sol_data::Uint<256>, sol_data::String, sol_data::String, sol_data::Uint<8>, sol_data::Uint<256>, sol_data::Bytes, sol_data::Uint<256>) as SolType>::abi_encode_params(&v)
}

/// What a batch operand decodes to, if anything: the wire instructions of
/// the batch, in order.
pub uninterp spec fn batch_decoded(b: Seq<u8>) -> Option<Seq<InstructionV>>;

/// Relies on alloy's validating ABI decoding of the parameter tuple
/// `((uint8, uint8, bytes)[],)`.  Each decoded operand is a strict
/// sub-slice of the input — the encoding spends at least the offset and
/// length words on top of it — so its length is strictly below the
/// input's.
#[verifier::external_body]
pub(crate) fn decode_batch(b: &[u8]) -> (r: Option<Vec<Instruction>>)
    ensures
        r matches Some(v) ==> batch_decoded(b@) == Some(v@.map_values(|i: Instruction| i@))
            && forall|k: int|
            0 <= k < v@.len() ==> #[trigger] v@[k].operand@.len() < b@.len(),
        r is None ==> batch_decoded(b@) is None,
{
    let (items,) = <(sol_data::Array<(sol_data::Uint<8>, sol_data::Uint<8>, sol_data::Bytes)>,) as SolType>::abi_decode_params_validate(b).ok()?;
    Some(
        items.into_iter().map(
            |(version, opcode, operand)| Instruction { version, opcode, operand: operand.to_vec() },
        ).collect(),
    )
}

/// What a multiplex operand decodes to, if anything.
pub uninterp spec fn multiplex_decoded(b: Seq<u8>) -> Option<MultiplexV>;

/// Relies on alloy's validating ABI decoding of the parameter tuple
/// `(bytes, bytes, bytes, bool)`.
#[verifier::external_body]
pub(crate) fn decode_multiplex(b: &[u8]) -> (r: Option<Multiplex>)
    ensures
        r matches Some(m) ==> multiplex_decoded(b@) == Some(m@),
        r is None ==> multiplex_decoded(b@) is None,
{
    let t = <(sol_data::Bytes, sol_data::Bytes, sol_data::Bytes, sol_data::Bool) as SolType>::abi_decode_params_validate(b).ok()?;
    Some(Multiplex {
        sender: t.0.to_vec(),
        contract_address: t.1.to_vec(),
        contract_calldata: t.2.to_vec(),
        eureka: t.3,
    })
}

/// What acknowledgement-envelope bytes decode to, if anything.
pub uninterp spec fn ack_decoded(b: Seq<u8>) -> Option<AckV>;

/// Relies on alloy's validating ABI decoding of the parameter tuple
/// `(uint256, bytes)`.
#[verifier::external_body]
pub(crate) fn decode_ack(b: &[u8]) -> (r: Option<Ack>)
    ensures
        r matches Some(a) ==> ack_decoded(b@) == Some(a@),
        r is None ==> ack_decoded(b@) is None,
{
    let (tag, inner) = <(sol_data::Uint<256>, sol_data::Bytes) as SolType>::abi_decode_params_validate(b).ok()?;
    Some(Ack { tag: u256_of(tag), inner_ack: inner.to_vec() })
}

/// The ABI encoding of an acknowledgement envelope.
pub uninterp spec fn ack_bytes(a: AckV) -> Seq<u8>;

/// Relies on alloy's ABI encoding of the parameter tuple `(uint256, bytes)`.
#[verifier::external_body]
pub(crate) fn encode_ack(a: &Ack) -> (r: Vec<u8>)
    ensures
        r@ == ack_bytes(a@),
{
    <(sol_data::Uint<256>, sol_data::Bytes) as SolType>::abi_encode_params(
        &(alloy_of(&a.tag), a.inner_ack.clone()),
    )
}

/// What order-acknowledgement bytes decode to, if anything.
pub uninterp spec fn fao_ack_decoded(b: Seq<u8>) -> Option<FungibleAssetOrderAckV>;

/// Relies on alloy's validating ABI decoding of the parameter tuple
/// `(uint256, bytes)`.
#[verifier::external_body]
pub(crate) fn decode_fao_ack(b: &[u8]) -> (r: Option<FungibleAssetOrderAck>)
    ensures
        r matches Some(a) ==> fao_ack_decoded(b@) == Some(a@),
        r is None ==> fao_ack_decoded(b@) is None,
{
    let (fill_type, market_maker) = <(sol_data::Uint<256>, sol_data::Bytes) as SolType>::abi_decode_params_validate(b).ok()?;
    Some(FungibleAssetOrderAck { fill_type: u256_of(fill_type), market_maker: market_maker.to_vec() })
}

/// The ABI encoding of an order acknowledgement.
pub uninterp spec fn fao_ack_bytes(a: FungibleAssetOrderAckV) -> Seq<u8>;

/// Relies on alloy's ABI encoding of the parameter tuple `(uint256, bytes)`.
#[verifier::external_body]
pub(crate) fn encode_fao_ack(a: &FungibleAssetOrderAck) -> (r: Vec<u8>)
    ensures
        r@ == fao_ack_bytes(a@),
{
    <(sol_data::Uint<256>, sol_data::Bytes) as SolType>::abi_encode_params(
        &(alloy_of(&a.fill_type), a.market_maker.clone()),
    )
}

/// What batch-acknowledgement bytes decode to, if anything: one opaque
/// acknowledgement per batched instruction, in order.
pub uninterp spec fn batch_ack_decoded(b: Seq<u8>) -> Option<Seq<Seq<u8>>>;

/// Relies on alloy's validating ABI decoding of the parameter tuple
/// `(bytes[],)`.
#[verifier::external_body]
pub(crate) fn decode_batch_ack(b: &[u8]) -> (r: Option<Vec<Vec<u8>>>)
    ensures
        r matches Some(v) ==> batch_ack_decoded(b@) == Some(crate::types::bytes_list_view(v@)),
        r is None ==> batch_ack_decoded(b@) is None,
{
    let (items,) = <(sol_data::Array<sol_data::Bytes>,) as SolType>::abi_decode_params_validate(b).ok()?;
    Some(items.into_iter().map(|x| x.to_vec()).collect())
}

/// The ABI encoding of a batch acknowledgement.
pub uninterp spec fn batch_ack_bytes(acks: Seq<Seq<u8>>) -> Seq<u8>;

/// Relies on alloy's ABI encoding of the parameter tuple `(bytes[],)`.
#[verifier::external_body]
pub(crate) fn encode_batch_ack(acks: &Vec<Vec<u8>>) -> (r: Vec<u8>)
    ensures
        r@ == batch_ack_bytes(crate::types::bytes_list_view(acks@)),
{
    <(sol_data::Array<sol_data::Bytes>,) as SolType>::abi_encode_params(&(acks.clone(),))
}

/// Relies on `String::from_utf8`: it succeeds exactly on valid UTF-8 and
/// returns its decoding, as vstd's model of UTF-8 states it.
#[verifier::external_body]
pub(crate) fn utf8_to_string(b: &Vec<u8>) -> (r: Option<String>)
    ensures
        r is Some <==> vstd::utf8::valid_utf8(b@),
        r matches Some(s) ==> s@ == vstd::utf8::decode_utf8(b@),
{
    String::from_utf8(b.clone()).ok()
}

/// The preimage hashed to derive the salt of the `index`-th sub-instruction:
/// the ABI encoding of `(index as uint256, parent_salt as bytes32)`, two
/// static 32-byte words.
pub open spec fn salt_preimage(index: int, salt: Seq<u8>) -> Seq<u8> {
    U256 { w0: index as u64, w1: 0, w2: 0, w3: 0 }.be_bytes() + salt
}

/// The salt of the `index`-th sub-instruction of a batch whose own salt is
/// `salt`: a reproducible identity, identical across the execute,
/// acknowledge and timeout traversals.
pub open spec fn child_salt_of(salt: Seq<u8>, index: int) -> Seq<u8> {
    keccak256_of(salt_preimage(index, salt))
}

/// Derive the salt for the `index`-th sub-instruction of a batch.
pub fn child_salt(salt: &Vec<u8>, index: u64) -> (r: Vec<u8>)
    ensures
        r@ == child_salt_of(salt@, index as int),
        r@.len() == 32,
{
    let word = U256::from_u64(index);
    let mut preimage = word.to_be_bytes();
    let mut rest: Vec<u8> = Vec::new();
    let mut i: usize = 0;
    while i < salt.len()
        invariant
            rest@ =~= salt@.take(i as int),
            i <= salt@.len(),
        decreases salt@.len() - i,
    {
        rest.push(salt[i]);
        i += 1;
    }
    preimage.append(&mut rest);
    proof {
        assert(salt@.take(salt@.len() as int) =~= salt@);
        assert(preimage@ =~= salt_preimage(index as int, salt@));
    }
    keccak256_bytes(preimage.as_slice())
}

} // verus!
