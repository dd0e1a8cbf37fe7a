//! The outbound path: build the packet for a new user-initiated transfer,
//! deciding between burning a wrapped token and escrowing a native one,
//! and keeping the channel balance of everything escrowed.

use vstd::prelude::*;

verus! {

use vstd::utf8::encode_utf8;
use crate::codec::{encode_order, encode_zkgm_packet, order_bytes, zkgm_bytes};
use crate::ledger::{
    balance_lookup,
    balance_store,
    copy_bytes,
    foreign_lookup,
    origin_lookup,
    Ledger,
    LedgerV,
};
use crate::types::{
    effects_view,
    Effect,
    EffectV,
    FungibleAssetOrder,
    FungibleAssetOrderV,
    Instruction,
    InstructionV,
    ZkgmError,
    ZkgmPacket,
    ZkgmPacketV,
    INSTR_VERSION_1,
    OP_FUNGIBLE_ASSET_ORDER,
};
use crate::u256::U256;

/// A denomination's display metadata, as the minter reports it.
#[derive(Clone, Debug, PartialEq)]
pub struct TokenMetadata {
    pub name: String,
    pub symbol: String,
    pub decimals: u8,
}

pub struct TokenMetadataV {
    pub name: Seq<char>,
    pub symbol: Seq<char>,
    pub decimals: u8,
}

impl View for TokenMetadata {
    type V = TokenMetadataV;

    open spec fn view(&self) -> TokenMetadataV {
        TokenMetadataV { name: self.name@, symbol: self.symbol@, decimals: self.decimals }
    }
}

/// The zero word: the path of every packet sent, since multi-hop
/// forwarding is not part of the protocol yet.
pub open spec fn zero_path() -> U256 {
    U256 { w0: 0, w1: 0, w2: 0, w3: 0 }
}

/// The order a transfer sends.
pub open spec fn transfer_order(
    sender: Seq<char>,
    receiver: Seq<u8>,
    base_token: Seq<char>,
    base_amount: u128,
    quote_token: Seq<u8>,
    quote_amount: U256,
    metadata: TokenMetadataV,
    base_token_path: U256,
) -> FungibleAssetOrderV {
    FungibleAssetOrderV {
        sender: encode_utf8(sender),
        receiver,
        base_token: encode_utf8(base_token),
        base_amount: U256::from_nat(base_amount as nat),
        base_token_symbol: metadata.symbol,
        base_token_name: metadata.name,
        base_token_decimals: metadata.decimals,
        base_token_path,
        quote_token,
        quote_amount,
    }
}

/// The packet bytes a transfer hands to the host.
pub open spec fn transfer_packet_data(salt: Seq<u8>, order: FungibleAssetOrderV) -> Seq<u8> {
    zkgm_bytes(
        ZkgmPacketV {
            salt,
            path: zero_path(),
            instruction: InstructionV {
                version: INSTR_VERSION_1,
                opcode: OP_FUNGIBLE_ASSET_ORDER,
                operand: order_bytes(order),
            },
        },
    )
}

/// What initiating a transfer does.
///
/// A zero amount is rejected.  A base token that is a registered wrapped
/// token whose origin is the destination channel, quoted against its own
/// original token, is burnt — the counterparty will unescrow; anything
/// else is escrowed under the channel balance — the counterparty will
/// mint.  The built packet carries a version-one fungible-asset order
/// whose path records the origin in the burn case and zero otherwise.
pub open spec fn transfer_spec(
    sender: Seq<char>,
    channel_id: u32,
    receiver: Seq<u8>,
    base_token: Seq<char>,
    base_amount: u128,
    quote_token: Seq<u8>,
    quote_amount: U256,
    timeout_height: u64,
    timeout_timestamp: u64,
    salt: Seq<u8>,
    metadata: TokenMetadataV,
    led: LedgerV,
) -> Result<(Seq<EffectV>, LedgerV), ZkgmError> {
    if base_amount == 0 {
        Err(ZkgmError::InvalidAmount)
    } else {
        let unwrapped = foreign_lookup(led.foreign_tokens, base_token);
        let origin = origin_lookup(led.origins, base_token);
        let burn = match origin {
            Some(path) => path == U256::from_nat(channel_id as nat) && unwrapped == Some(
                quote_token,
            ),
            None => false,
        };
        if burn {
            let order = transfer_order(
                sender,
                receiver,
                base_token,
                base_amount,
                quote_token,
                quote_amount,
                metadata,
                origin->Some_0,
            );
            Ok(
                (
                    seq![
                        EffectV::Burn { denom: base_token, amount: base_amount, sender },
                        EffectV::SendPacket {
                            channel_id,
                            timeout_height,
                            timeout_timestamp,
                            data: transfer_packet_data(salt, order),
                        },
                    ],
                    led,
                ),
            )
        } else {
            let added: nat = match balance_lookup(led.balances, channel_id, base_token) {
                Some(v) => (v.as_nat() + base_amount) as nat,
                None => base_amount as nat,
            };
            if added >= 0x10000000000000000000000000000000000000000000000000000000000000000int {
                Err(ZkgmError::InvalidChannelBalance)
            } else {
                let led1 = LedgerV {
                    balances: balance_store(
                        led.balances,
                        channel_id,
                        base_token,
                        U256::from_nat(added),
                    ),
                    origins: led.origins,
                    foreign_tokens: led.foreign_tokens,
                };
                let order = transfer_order(
                    sender,
                    receiver,
                    base_token,
                    base_amount,
                    quote_token,
                    quote_amount,
                    metadata,
                    zero_path(),
                );
                Ok(
                    (
                        seq![
                            EffectV::Escrow { from: sender, denom: base_token, amount: base_amount },
                            EffectV::SendPacket {
                                channel_id,
                                timeout_height,
                                timeout_timestamp,
                                data: transfer_packet_data(salt, order),
                            },
                        ],
                        led1,
                    ),
                )
            }
        }
    }
}

/// The UTF-8 bytes of a string.
fn string_bytes(s: &String) -> (r: Vec<u8>)
    ensures
        r@ == encode_utf8(s@),
{
    let b = s.as_str().as_bytes();
    let mut r: Vec<u8> = Vec::new();
    let mut i: usize = 0;
    while i < b.len()
        invariant
            i <= b@.len(),
            r@ =~= b@.take(i as int),
        decreases b@.len() - i,
    {
        r.push(b[i]);
        i += 1;
    }
    proof {
        assert(b@.take(b@.len() as int) =~= b@);
    }
    r
}

/// Initiate a transfer: burn or escrow the base amount and build the
/// packet to send.  The ledger passed in is never modified; the returned
/// one carries the escrow balance.
pub fn transfer(
    sender: &String,
    channel_id: u32,
    receiver: &Vec<u8>,
    base_token: &String,
    base_amount: u128,
    quote_token: &Vec<u8>,
    quote_amount: &U256,
    timeout_height: u64,
    timeout_timestamp: u64,
    salt: &Vec<u8>,
    metadata: &TokenMetadata,
    ledger: &Ledger,
) -> (r: Result<(Vec<Effect>, Ledger), ZkgmError>)
    requires
        salt@.len() == 32,
    ensures
        ({
            let s = transfer_spec(
                sender@,
                channel_id,
                receiver@,
                base_token@,
                base_amount,
                quote_token@,
                *quote_amount,
                timeout_height,
                timeout_timestamp,
                salt@,
                metadata@,
                ledger@,
            );
            match r {
                Ok((effs, led1)) => s matches Ok(sv) && effects_view(effs@) == sv.0 && led1@
                    == sv.1,
                Err(e) => s == Err::<(Seq<EffectV>, LedgerV), ZkgmError>(e),
            }
        }),
{
    if base_amount == 0 {
        return Err(ZkgmError::InvalidAmount);
    }
    let mut working = ledger.snapshot();
    let unwrapped = working.foreign_token_of(base_token);
    let origin = working.origin_of(base_token);
    let burn = match (&origin, &unwrapped) {
        (Some(path), Some(token)) => {
            let hit = path.same(&U256::from_u32(channel_id)) && bytes_eq_vec(token, quote_token);
            proof {
                crate::u256::lemma_from_nat_as_nat(*path);
            }
            hit
        },
        _ => false,
    };
    let base_token_path: U256 = if burn {
        match &origin {
            Some(path) => *path,
            None => U256::zero(),
        }
    } else {
        U256::zero()
    };
    let mut effs: Vec<Effect> = Vec::new();
    if burn {
        effs.push(
            Effect::Burn { denom: base_token.clone(), amount: base_amount, sender: sender.clone() },
        );
    } else {
        effs.push(
            Effect::Escrow { from: sender.clone(), denom: base_token.clone(), amount: base_amount },
        );
        let base = U256::from_u128(base_amount);
        let added = match working.balance_of(channel_id, base_token) {
            Some(v) => match v.checked_add(&base) {
                Some(sum) => sum,
                None => {
                    return Err(ZkgmError::InvalidChannelBalance);
                },
            },
            None => base,
        };
        proof {
            crate::u256::lemma_from_nat_as_nat(added);
        }
        working.store_balance(channel_id, base_token, added);
    }
    let order = FungibleAssetOrder {
        sender: string_bytes(sender),
        receiver: copy_bytes(receiver),
        base_token: string_bytes(base_token),
        base_amount: U256::from_u128(base_amount),
        base_token_symbol: metadata.symbol.clone(),
        base_token_name: metadata.name.clone(),
        base_token_decimals: metadata.decimals,
        base_token_path,
        quote_token: copy_bytes(quote_token),
        quote_amount: *quote_amount,
    };
    proof {
        crate::u256::lemma_from_nat_as_nat(order.base_amount);
    }
    let operand = encode_order(&order);
    let packet = ZkgmPacket {
        salt: copy_bytes(salt),
        path: U256::zero(),
        instruction: Instruction {
            version: INSTR_VERSION_1,
            opcode: OP_FUNGIBLE_ASSET_ORDER,
            operand,
        },
    };
    let data = encode_zkgm_packet(&packet);
    effs.push(
        Effect::SendPacket { channel_id, timeout_height, timeout_timestamp, data },
    );
    proof {
        let s = transfer_spec(
            sender@,
            channel_id,
            receiver@,
            base_token@,
            base_amount,
            quote_token@,
            *quote_amount,
            timeout_height,
            timeout_timestamp,
            salt@,
            metadata@,
            ledger@,
        );
        assert(s is Ok);
        assert(effects_view(effs@) =~= s->Ok_0.0);
    }
    Ok((effs, working))
}

/// Whether two byte vectors are equal.
fn bytes_eq_vec(a: &Vec<u8>, b: &Vec<u8>) -> (r: bool)
    ensures
        r == (a@ == b@),
{
    crate::execute::bytes_eq(a.as_slice(), b.as_slice())
}

} // verus!
