//! The Acknowledge and Timeout traversals: settle a packet after the
//! counterparty reported success or failure, or after it expired.  Both
//! derive sub-instruction salts exactly as Execute does, visit the same
//! instructions in the same order, and refund unsuccessful orders in the
//! same way — timing out is the same as acknowledging without success.

use vstd::prelude::*;

verus! {

use vstd::utf8::{decode_utf8, valid_utf8};
use crate::codec::{
    batch_ack_decoded,
    child_salt,
    child_salt_of,
    decode_batch_ack,
    decode_fao_ack,
    fao_ack_decoded,
    utf8_to_string,
};
use crate::execute::protocol_fill;
use crate::types::{
    bytes_list_view,
    effects_view,
    CtxV,
    Effect,
    EffectV,
    FungibleAssetOrder,
    TraversalCtx,
    Tree,
    ZkgmError,
    FILL_TYPE_MARKETMAKER,
    FILL_TYPE_PROTOCOL,
};
use crate::u256::U256;

/// The fill-type word of a market-maker-filled order.
pub open spec fn marketmaker_fill() -> U256 {
    U256 { w0: FILL_TYPE_MARKETMAKER, w1: 0, w2: 0, w3: 0 }
}

/// What refunding one order does: return the whole base amount to the
/// sender, minting it back when the order had burnt a wrapped token
/// (its path names the source channel), releasing escrow otherwise.
pub open spec fn refund_order_spec(o: FungibleAssetOrder, ctx: CtxV) -> Result<
    Seq<EffectV>,
    ZkgmError,
> {
    if !valid_utf8(o.sender@) {
        Err(ZkgmError::InvalidSender)
    } else if o.base_amount.as_nat() >= 0x100000000000000000000000000000000int {
        Err(ZkgmError::AmountOverflow)
    } else if !valid_utf8(o.base_token@) {
        Err(ZkgmError::InvalidBaseToken)
    } else {
        let sender = decode_utf8(o.sender@);
        let denom = decode_utf8(o.base_token@);
        let amount = o.base_amount.as_nat() as u128;
        if o.base_token_path.as_nat() == ctx.source_channel_id as nat {
            Ok(seq![EffectV::Mint { denom, amount, to: sender }])
        } else {
            Ok(seq![EffectV::Unescrow { denom, to: sender, amount }])
        }
    }
}

/// What acknowledging one order does.  Under a successful envelope, a
/// protocol fill needs nothing more (the fee was paid on the destination
/// during Execute), while a market-maker fill pays the whole base amount
/// to the market maker named in the acknowledgement.  Under a failure
/// envelope the order is refunded exactly as on timeout.
pub open spec fn acknowledge_order_spec(
    o: FungibleAssetOrder,
    successful: bool,
    ack: Seq<u8>,
    ctx: CtxV,
) -> Result<Seq<EffectV>, ZkgmError> {
    if !successful {
        refund_order_spec(o, ctx)
    } else {
        match fao_ack_decoded(ack) {
            None => Err(ZkgmError::AckDecode),
            Some(a) => if a.fill_type == protocol_fill() {
                Ok(Seq::empty())
            } else if a.fill_type == marketmaker_fill() {
                if o.base_amount.as_nat() >= 0x100000000000000000000000000000000int {
                    Err(ZkgmError::AmountOverflow)
                } else if !valid_utf8(a.market_maker) {
                    Err(ZkgmError::InvalidReceiver)
                } else if !valid_utf8(o.base_token@) {
                    Err(ZkgmError::InvalidBaseToken)
                } else {
                    let maker = decode_utf8(a.market_maker);
                    let denom = decode_utf8(o.base_token@);
                    let amount = o.base_amount.as_nat() as u128;
                    if o.base_token_path.as_nat() == ctx.source_channel_id as nat {
                        Ok(seq![EffectV::Mint { denom, amount, to: maker }])
                    } else {
                        Ok(seq![EffectV::Unescrow { denom, to: maker, amount }])
                    }
                }
            } else {
                Err(ZkgmError::UnknownFillType)
            },
        }
    }
}

/// What acknowledging one instruction tree does.
pub open spec fn acknowledge_node_spec(
    t: Tree,
    salt: Seq<u8>,
    successful: bool,
    ack: Seq<u8>,
    ctx: CtxV,
) -> Result<Seq<EffectV>, ZkgmError>
    decreases t, 0int, 0int,
{
    match t {
        Tree::Order(o) => acknowledge_order_spec(o, successful, ack, ctx),
        Tree::Batch(subs) => if successful {
            match batch_ack_decoded(ack) {
                None => Err(ZkgmError::AckDecode),
                Some(acks) => if acks.len() < subs@.len() {
                    Err(ZkgmError::BatchAckLength)
                } else {
                    acknowledge_list_spec(subs@, 0, salt, true, acks, ctx)
                },
            }
        } else {
            acknowledge_list_spec(subs@, 0, salt, false, Seq::empty(), ctx)
        },
        Tree::Multiplex(m) => if !m.eureka {
            Err(ZkgmError::Unimplemented)
        } else {
            Ok(Seq::empty())
        },
        Tree::Tag => Ok(Seq::empty()),
    }
}

/// Acknowledging the sub-instructions of a batch from index `k` on: each
/// child is visited at the salt derived from the batch's salt and its
/// index, with its own slice of the batch acknowledgement when the
/// envelope was successful and an empty one otherwise.
pub open spec fn acknowledge_list_spec(
    ts: Seq<Tree>,
    k: int,
    salt: Seq<u8>,
    successful: bool,
    acks: Seq<Seq<u8>>,
    ctx: CtxV,
) -> Result<Seq<EffectV>, ZkgmError>
    decreases ts, ts.len() - k, 1int,
{
    if k < 0 || k >= ts.len() {
        Ok(Seq::empty())
    } else {
        let sub_ack: Seq<u8> = if successful {
            acks[k]
        } else {
            Seq::empty()
        };
        match acknowledge_node_spec(ts[k], child_salt_of(salt, k), successful, sub_ack, ctx) {
            Err(e) => Err(e),
            Ok(effs) => match acknowledge_list_spec(ts, k + 1, salt, successful, acks, ctx) {
                Err(e) => Err(e),
                Ok(rest) => Ok(effs + rest),
            },
        }
    }
}

/// What timing one instruction tree out does: refund every order,
/// unconditionally, visiting sub-instructions exactly as Execute did.
pub open spec fn timeout_node_spec(t: Tree, salt: Seq<u8>, ctx: CtxV) -> Result<
    Seq<EffectV>,
    ZkgmError,
>
    decreases t, 0int, 0int,
{
    match t {
        Tree::Order(o) => refund_order_spec(o, ctx),
        Tree::Batch(subs) => timeout_list_spec(subs@, 0, salt, ctx),
        Tree::Multiplex(m) => if !m.eureka {
            Err(ZkgmError::Unimplemented)
        } else {
            Ok(Seq::empty())
        },
        Tree::Tag => Ok(Seq::empty()),
    }
}

pub open spec fn timeout_list_spec(ts: Seq<Tree>, k: int, salt: Seq<u8>, ctx: CtxV) -> Result<
    Seq<EffectV>,
    ZkgmError,
>
    decreases ts, ts.len() - k, 1int,
{
    if k < 0 || k >= ts.len() {
        Ok(Seq::empty())
    } else {
        match timeout_node_spec(ts[k], child_salt_of(salt, k), ctx) {
            Err(e) => Err(e),
            Ok(effs) => match timeout_list_spec(ts, k + 1, salt, ctx) {
                Err(e) => Err(e),
                Ok(rest) => Ok(effs + rest),
            },
        }
    }
}

/// Refund one order to its sender.
fn refund_order(o: &FungibleAssetOrder, ctx: &TraversalCtx) -> (r: Result<Vec<Effect>, ZkgmError>)
    ensures
        ({
            let s = refund_order_spec(*o, ctx@);
            match r {
                Ok(effs) => s matches Ok(sv) && effects_view(effs@) == sv,
                Err(e) => s == Err::<Seq<EffectV>, ZkgmError>(e),
            }
        }),
{
    let sender = match utf8_to_string(&o.sender) {
        None => {
            return Err(ZkgmError::InvalidSender);
        },
        Some(s) => s,
    };
    let amount = match o.base_amount.try_to_u128() {
        None => {
            return Err(ZkgmError::AmountOverflow);
        },
        Some(a) => a,
    };
    let denom = match utf8_to_string(&o.base_token) {
        None => {
            return Err(ZkgmError::InvalidBaseToken);
        },
        Some(d) => d,
    };
    let mut effs: Vec<Effect> = Vec::new();
    if o.base_token_path.same(&U256::from_u32(ctx.source_channel_id)) {
        effs.push(Effect::Mint { denom, amount, to: sender });
    } else {
        effs.push(Effect::Unescrow { denom, to: sender, amount });
    }
    proof {
        assert(effects_view(effs@) =~= refund_order_spec(*o, ctx@)->Ok_0);
    }
    Ok(effs)
}

/// Acknowledge one order.
fn acknowledge_order(
    o: &FungibleAssetOrder,
    successful: bool,
    ack: &Vec<u8>,
    ctx: &TraversalCtx,
) -> (r: Result<Vec<Effect>, ZkgmError>)
    ensures
        ({
            let s = acknowledge_order_spec(*o, successful, ack@, ctx@);
            match r {
                Ok(effs) => s matches Ok(sv) && effects_view(effs@) == sv,
                Err(e) => s == Err::<Seq<EffectV>, ZkgmError>(e),
            }
        }),
{
    if !successful {
        return refund_order(o, ctx);
    }
    let a = match decode_fao_ack(ack.as_slice()) {
        None => {
            return Err(ZkgmError::AckDecode);
        },
        Some(a) => a,
    };
    if a.fill_type.same(&U256::from_u64(FILL_TYPE_PROTOCOL)) {
        let effs: Vec<Effect> = Vec::new();
        proof {
            assert(effects_view(effs@) =~= Seq::<EffectV>::empty());
        }
        Ok(effs)
    } else if a.fill_type.same(&U256::from_u64(FILL_TYPE_MARKETMAKER)) {
        let amount = match o.base_amount.try_to_u128() {
            None => {
                return Err(ZkgmError::AmountOverflow);
            },
            Some(v) => v,
        };
        let maker = match utf8_to_string(&a.market_maker) {
            None => {
                return Err(ZkgmError::InvalidReceiver);
            },
            Some(m) => m,
        };
        let denom = match utf8_to_string(&o.base_token) {
            None => {
                return Err(ZkgmError::InvalidBaseToken);
            },
            Some(d) => d,
        };
        let mut effs: Vec<Effect> = Vec::new();
        if o.base_token_path.same(&U256::from_u32(ctx.source_channel_id)) {
            effs.push(Effect::Mint { denom, amount, to: maker });
        } else {
            effs.push(Effect::Unescrow { denom, to: maker, amount });
        }
        proof {
            assert(effects_view(effs@) =~= acknowledge_order_spec(
                *o,
                successful,
                ack@,
                ctx@,
            )->Ok_0);
        }
        Ok(effs)
    } else {
        Err(ZkgmError::UnknownFillType)
    }
}

/// Acknowledge one instruction tree at its salt.
pub fn acknowledge_tree(
    t: &Tree,
    salt: &Vec<u8>,
    successful: bool,
    ack: &Vec<u8>,
    ctx: &TraversalCtx,
) -> (r: Result<Vec<Effect>, ZkgmError>)
    ensures
        ({
            let s = acknowledge_node_spec(*t, salt@, successful, ack@, ctx@);
            match r {
                Ok(effs) => s matches Ok(sv) && effects_view(effs@) == sv,
                Err(e) => s == Err::<Seq<EffectV>, ZkgmError>(e),
            }
        }),
    decreases *t, 0int, 0int,
{
    match t {
        Tree::Order(o) => acknowledge_order(o, successful, ack, ctx),
        Tree::Batch(subs) => {
            if successful {
                let acks = match decode_batch_ack(ack.as_slice()) {
                    None => {
                        return Err(ZkgmError::AckDecode);
                    },
                    Some(v) => v,
                };
                if acks.len() < subs.len() {
                    return Err(ZkgmError::BatchAckLength);
                }
                acknowledge_nodes(subs, 0, salt, true, &acks, ctx)
            } else {
                let acks: Vec<Vec<u8>> = Vec::new();
                let r = acknowledge_nodes(subs, 0, salt, false, &acks, ctx);
                proof {
                    lemma_acknowledge_list_acks_irrelevant(
                        subs@,
                        0,
                        salt@,
                        bytes_list_view(acks@),
                        Seq::empty(),
                        ctx@,
                    );
                }
                r
            }
        },
        Tree::Multiplex(m) => {
            if !m.eureka {
                Err(ZkgmError::Unimplemented)
            } else {
                let effs: Vec<Effect> = Vec::new();
                proof {
                    assert(effects_view(effs@) =~= Seq::<EffectV>::empty());
                }
                Ok(effs)
            }
        },
        Tree::Tag => {
            let effs: Vec<Effect> = Vec::new();
            proof {
                assert(effects_view(effs@) =~= Seq::<EffectV>::empty());
            }
            Ok(effs)
        },
    }
}

/// Acknowledge the sub-instructions of a batch from index `start` on.
fn acknowledge_nodes(
    subs: &Vec<Tree>,
    start: usize,
    salt: &Vec<u8>,
    successful: bool,
    acks: &Vec<Vec<u8>>,
    ctx: &TraversalCtx,
) -> (r: Result<Vec<Effect>, ZkgmError>)
    requires
        successful ==> subs@.len() <= acks@.len(),
    ensures
        ({
            let s = acknowledge_list_spec(
                subs@,
                start as int,
                salt@,
                successful,
                bytes_list_view(acks@),
                ctx@,
            );
            match r {
                Ok(effs) => s matches Ok(sv) && effects_view(effs@) == sv,
                Err(e) => s == Err::<Seq<EffectV>, ZkgmError>(e),
            }
        }),
    decreases subs@, subs@.len() - start, 1int,
{
    if start >= subs.len() {
        let effs: Vec<Effect> = Vec::new();
        proof {
            assert(effects_view(effs@) =~= Seq::<EffectV>::empty());
        }
        return Ok(effs);
    }
    let sub_salt = child_salt(salt, start as u64);
    let sub_ack: Vec<u8> = if successful {
        crate::ledger::copy_bytes(&acks[start])
    } else {
        Vec::new()
    };
    proof {
        if !successful {
            assert(sub_ack@ =~= Seq::<u8>::empty());
        }
    }
    let mut effs = match acknowledge_tree(&subs[start], &sub_salt, successful, &sub_ack, ctx) {
        Err(e) => {
            return Err(e);
        },
        Ok(v) => v,
    };
    let mut rest = match acknowledge_nodes(subs, start + 1, salt, successful, acks, ctx) {
        Err(e) => {
            return Err(e);
        },
        Ok(v) => v,
    };
    effs.append(&mut rest);
    proof {
        let s = acknowledge_list_spec(
            subs@,
            start as int,
            salt@,
            successful,
            bytes_list_view(acks@),
            ctx@,
        );
        assert(s is Ok);
        assert(effects_view(effs@) =~= s->Ok_0);
    }
    Ok(effs)
}

/// The acknowledgement slices play no part under a failure envelope.
proof fn lemma_acknowledge_list_acks_irrelevant(
    ts: Seq<Tree>,
    k: int,
    salt: Seq<u8>,
    acks1: Seq<Seq<u8>>,
    acks2: Seq<Seq<u8>>,
    ctx: CtxV,
)
    ensures
        acknowledge_list_spec(ts, k, salt, false, acks1, ctx) == acknowledge_list_spec(
            ts,
            k,
            salt,
            false,
            acks2,
            ctx,
        ),
    decreases ts.len() - k,
{
    if k < 0 || k >= ts.len() {
    } else {
        lemma_acknowledge_list_acks_irrelevant(ts, k + 1, salt, acks1, acks2, ctx);
    }
}

/// Time one instruction tree out at its salt.
pub fn timeout_tree(t: &Tree, salt: &Vec<u8>, ctx: &TraversalCtx) -> (r: Result<
    Vec<Effect>,
    ZkgmError,
>)
    ensures
        ({
            let s = timeout_node_spec(*t, salt@, ctx@);
            match r {
                Ok(effs) => s matches Ok(sv) && effects_view(effs@) == sv,
                Err(e) => s == Err::<Seq<EffectV>, ZkgmError>(e),
            }
        }),
    decreases *t, 0int, 0int,
{
    match t {
        Tree::Order(o) => refund_order(o, ctx),
        Tree::Batch(subs) => timeout_nodes(subs, 0, salt, ctx),
        Tree::Multiplex(m) => {
            if !m.eureka {
                Err(ZkgmError::Unimplemented)
            } else {
                let effs: Vec<Effect> = Vec::new();
                proof {
                    assert(effects_view(effs@) =~= Seq::<EffectV>::empty());
                }
                Ok(effs)
            }
        },
        Tree::Tag => {
            let effs: Vec<Effect> = Vec::new();
            proof {
                assert(effects_view(effs@) =~= Seq::<EffectV>::empty());
            }
            Ok(effs)
        },
    }
}

/// Time the sub-instructions of a batch out from index `start` on.
fn timeout_nodes(subs: &Vec<Tree>, start: usize, salt: &Vec<u8>, ctx: &TraversalCtx) -> (r: Result<
    Vec<Effect>,
    ZkgmError,
>)
    ensures
        ({
            let s = timeout_list_spec(subs@, start as int, salt@, ctx@);
            match r {
                Ok(effs) => s matches Ok(sv) && effects_view(effs@) == sv,
                Err(e) => s == Err::<Seq<EffectV>, ZkgmError>(e),
            }
        }),
    decreases subs@, subs@.len() - start, 1int,
{
    if start >= subs.len() {
        let effs: Vec<Effect> = Vec::new();
        proof {
            assert(effects_view(effs@) =~= Seq::<EffectV>::empty());
        }
        return Ok(effs);
    }
    let sub_salt = child_salt(salt, start as u64);
    let mut effs = match timeout_tree(&subs[start], &sub_salt, ctx) {
        Err(e) => {
            return Err(e);
        },
        Ok(v) => v,
    };
    let mut rest = match timeout_nodes(subs, start + 1, salt, ctx) {
        Err(e) => {
            return Err(e);
        },
        Ok(v) => v,
    };
    effs.append(&mut rest);
    proof {
        let s = timeout_list_spec(subs@, start as int, salt@, ctx@);
        assert(s is Ok);
        assert(effects_view(effs@) =~= s->Ok_0);
    }
    Ok(effs)
}

} // verus!
