//! The protocol's cross-cutting guarantees, each proved against the pure
//! interpreters that the executable traversals are verified to implement.

use vstd::prelude::*;

verus! {

use crate::codec::child_salt_of;
use crate::execute::{
    ack_vals_bytes,
    execute_list_spec,
    execute_node_spec,
    execute_order_mint_spec,
    execute_order_spec,
    prediction_lookup,
    AckVal,
    PredictionV,
};
use crate::ledger::{foreign_lookup, origin_lookup, ForeignEntryV, LedgerV, OriginEntryV};
use crate::settle::{
    acknowledge_list_spec,
    acknowledge_node_spec,
    refund_order_spec,
    timeout_list_spec,
    timeout_node_spec,
};
use crate::types::{CtxV, EffectV, FungibleAssetOrder, Tree, ZkgmError};
use crate::u256::U256;
use vstd::utf8::{encode_utf8, valid_utf8};

/// An order asking for more than it offers is answered with the maker-only
/// sentinel: no effect is emitted and the ledger is left exactly as it
/// was.
pub proof fn lemma_maker_only_no_mutation(
    o: FungibleAssetOrder,
    path: U256,
    ctx: CtxV,
    preds: Seq<PredictionV>,
    led: LedgerV,
)
    requires
        o.quote_amount.as_nat() > o.base_amount.as_nat(),
    ensures
        execute_order_spec(o, path, ctx, preds, led) == Ok::<
            (AckVal, Seq<EffectV>, LedgerV),
            ZkgmError,
        >((AckVal::OnlyMaker, Seq::empty(), led)),
{
}

/// A successful mint-side execution mints exactly the quote amount to the
/// receiver, and mints the fee (the difference of the amounts) to the
/// relayer exactly when it is positive; nothing else is paid.
pub proof fn lemma_mint_branch_amounts(
    o: FungibleAssetOrder,
    path: U256,
    ctx: CtxV,
    preds: Seq<PredictionV>,
    led: LedgerV,
    wrapped: Seq<char>,
)
    requires
        o.quote_amount.as_nat() <= o.base_amount.as_nat(),
        prediction_lookup(preds, path, ctx.destination_channel_id, o.base_token@) == Some(wrapped),
        o.quote_amount.as_nat() < 0x100000000000000000000000000000000int,
        o.base_amount.as_nat() - o.quote_amount.as_nat()
            < 0x100000000000000000000000000000000int,
        valid_utf8(o.receiver@),
        o.quote_token@ == encode_utf8(wrapped),
    ensures
        ({
            let r = execute_order_spec(o, path, ctx, preds, led);
            let quote = o.quote_amount.as_nat() as u128;
            let fee = (o.base_amount.as_nat() - o.quote_amount.as_nat()) as u128;
            let receiver = vstd::utf8::decode_utf8(o.receiver@);
            let pay: Seq<EffectV> = if fee > 0 {
                seq![
                    EffectV::Mint { denom: wrapped, amount: quote, to: receiver },
                    EffectV::Mint { denom: wrapped, amount: fee, to: ctx.relayer },
                ]
            } else {
                seq![EffectV::Mint { denom: wrapped, amount: quote, to: receiver }]
            };
            let fresh = foreign_lookup(led.foreign_tokens, wrapped) is None;
            &&& r is Ok
            &&& r->Ok_0.0 == AckVal::Filled
            &&& r->Ok_0.1 == (if fresh {
                seq![
                    EffectV::CreateDenom {
                        denom: wrapped,
                        name: o.base_token_name@,
                        symbol: o.base_token_symbol@,
                        decimals: o.base_token_decimals,
                        path,
                        channel_id: ctx.destination_channel_id,
                        token: o.base_token@,
                    },
                ]
            } else {
                Seq::empty()
            }) + pay
        }),
{
}

/// A batch acknowledgement lists exactly one acknowledgement per batched
/// instruction, in the batch's order.
pub proof fn lemma_batch_ack_count(
    subs: Vec<Tree>,
    salt: Seq<u8>,
    path: U256,
    ctx: CtxV,
    preds: Seq<PredictionV>,
    led: LedgerV,
)
    requires
        execute_node_spec(Tree::Batch(subs), salt, path, ctx, preds, led) is Ok,
    ensures
        ({
            let v = execute_node_spec(Tree::Batch(subs), salt, path, ctx, preds, led)->Ok_0;
            &&& v.0 is Batch
            &&& v.0->Batch_0.len() == subs@.len()
            &&& ack_vals_bytes(v.0->Batch_0).len() == subs@.len()
        }),
{
    lemma_execute_list_ack_count(subs@, 0, salt, path, ctx, preds, led);
    let v = execute_node_spec(Tree::Batch(subs), salt, path, ctx, preds, led)->Ok_0;
    lemma_ack_vals_bytes_len(v.0->Batch_0);
}

/// Executing a batch's tail from index `k` yields one acknowledgement per
/// remaining instruction.
pub proof fn lemma_execute_list_ack_count(
    ts: Seq<Tree>,
    k: int,
    salt: Seq<u8>,
    path: U256,
    ctx: CtxV,
    preds: Seq<PredictionV>,
    led: LedgerV,
)
    requires
        0 <= k <= ts.len(),
    ensures
        execute_list_spec(ts, k, salt, path, ctx, preds, led) matches Ok(v) ==> v.0.len()
            == ts.len() - k,
    decreases ts.len() - k,
{
    if k < ts.len() {
        let s = execute_node_spec(ts[k], child_salt_of(salt, k), path, ctx, preds, led);
        if s is Ok {
            lemma_execute_list_ack_count(ts, k + 1, salt, path, ctx, preds, s->Ok_0.2);
        }
    }
}

/// There are as many encoded acknowledgements as acknowledgement values.
pub proof fn lemma_ack_vals_bytes_len(s: Seq<AckVal>)
    ensures
        ack_vals_bytes(s).len() == s.len(),
    decreases s,
{
    if s.len() > 0 {
        lemma_ack_vals_bytes_len(s.drop_first());
    }
}

/// Refunding through Timeout and refunding through an unsuccessful
/// Acknowledge are the same thing, for a whole instruction tree: whatever
/// bytes ride along as the acknowledgement, a failure acknowledgement
/// produces exactly the timeout effects, visiting the same
/// sub-instructions at the same derived salts.
pub proof fn lemma_timeout_is_failed_acknowledge(t: Tree, salt: Seq<u8>, ack: Seq<u8>, ctx: CtxV)
    ensures
        acknowledge_node_spec(t, salt, false, ack, ctx) == timeout_node_spec(t, salt, ctx),
    decreases t, 0int, 0int,
{
    match t {
        Tree::Batch(subs) => {
            lemma_timeout_is_failed_acknowledge_list(subs@, 0, salt, Seq::empty(), ctx);
        },
        _ => {},
    }
}

pub proof fn lemma_timeout_is_failed_acknowledge_list(
    ts: Seq<Tree>,
    k: int,
    salt: Seq<u8>,
    acks: Seq<Seq<u8>>,
    ctx: CtxV,
)
    ensures
        acknowledge_list_spec(ts, k, salt, false, acks, ctx) == timeout_list_spec(
            ts,
            k,
            salt,
            ctx,
        ),
    decreases ts, ts.len() - k, 1int,
{
    if 0 <= k < ts.len() {
        lemma_timeout_is_failed_acknowledge(ts[k], child_salt_of(salt, k), Seq::empty(), ctx);
        lemma_timeout_is_failed_acknowledge_list(ts, k + 1, salt, acks, ctx);
    }
}

/// In every traversal, the `k`-th sub-instruction of a batch is handled at
/// the salt derived from the batch's salt and `k`, and the rest of the
/// batch follows in order: the three traversals visit the same
/// sub-instructions in the same order under the same salts.
pub proof fn lemma_traversals_agree_on_salts(
    ts: Seq<Tree>,
    k: int,
    salt: Seq<u8>,
    path: U256,
    ctx: CtxV,
    preds: Seq<PredictionV>,
    led: LedgerV,
    successful: bool,
    acks: Seq<Seq<u8>>,
)
    requires
        0 <= k < ts.len(),
    ensures
        execute_list_spec(ts, k, salt, path, ctx, preds, led) == (match execute_node_spec(
            ts[k],
            child_salt_of(salt, k),
            path,
            ctx,
            preds,
            led,
        ) {
            Err(e) => Err(e),
            Ok((a, effs, led1)) => match execute_list_spec(ts, k + 1, salt, path, ctx, preds, led1) {
                Err(e) => Err(e),
                Ok((acks2, rest, led2)) => Ok((seq![a] + acks2, effs + rest, led2)),
            },
        }),
        acknowledge_list_spec(ts, k, salt, successful, acks, ctx) == (match acknowledge_node_spec(
            ts[k],
            child_salt_of(salt, k),
            successful,
            if successful {
                acks[k]
            } else {
                Seq::empty()
            },
            ctx,
        ) {
            Err(e) => Err(e),
            Ok(effs) => match acknowledge_list_spec(ts, k + 1, salt, successful, acks, ctx) {
                Err(e) => Err(e),
                Ok(rest) => Ok(effs + rest),
            },
        }),
        timeout_list_spec(ts, k, salt, ctx) == (match timeout_node_spec(
            ts[k],
            child_salt_of(salt, k),
            ctx,
        ) {
            Err(e) => Err(e),
            Ok(effs) => match timeout_list_spec(ts, k + 1, salt, ctx) {
                Err(e) => Err(e),
                Ok(rest) => Ok(effs + rest),
            },
        }),
{
}

/// Re-submitting an order for an already registered wrapped denomination
/// registers nothing again: no create-denomination effect is emitted and
/// both registries are left exactly as they were.
pub proof fn lemma_registration_idempotent(
    o: FungibleAssetOrder,
    path: U256,
    ctx: CtxV,
    led: LedgerV,
    wrapped: Seq<char>,
    receiver: Seq<char>,
    quote: u128,
    fee: u128,
)
    requires
        foreign_lookup(led.foreign_tokens, wrapped) is Some,
    ensures
        ({
            let r = execute_order_mint_spec(o, path, ctx, led, wrapped, receiver, quote, fee);
            &&& r is Ok
            &&& forall|i: int|
                0 <= i < r->Ok_0.1.len() ==> !(#[trigger] r->Ok_0.1[i] is CreateDenom)
            &&& r->Ok_0.2.origins == led.origins
            &&& r->Ok_0.2.foreign_tokens == led.foreign_tokens
            &&& r->Ok_0.2.balances == led.balances
        }),
{
}

/// How many effects of a sequence move tokens (mint, unescrow, burn or
/// escrow).
pub open spec fn payment_count(s: Seq<EffectV>) -> nat
    decreases s.len(),
{
    if s.len() == 0 {
        0
    } else {
        (payment_count(s.drop_first()) + (if s[0] is Mint || s[0] is Unescrow || s[0] is Burn
            || s[0] is Escrow {
            1nat
        } else {
            0nat
        })) as nat
    }
}

/// When the quote equals the base amount there is no fee: a successful
/// execution of such an order pays exactly once, so no fee-transfer effect
/// exists.
pub proof fn lemma_equal_amounts_no_fee(
    o: FungibleAssetOrder,
    path: U256,
    ctx: CtxV,
    preds: Seq<PredictionV>,
    led: LedgerV,
)
    requires
        o.quote_amount.as_nat() == o.base_amount.as_nat(),
    ensures
        ({
            let r = execute_order_spec(o, path, ctx, preds, led);
            r matches Ok(v) ==> (v.0 is OnlyMaker && payment_count(v.1) == 0) || payment_count(
                v.1,
            ) == 1
        }),
{
    let r = execute_order_spec(o, path, ctx, preds, led);
    if r is Ok {
        let v = r->Ok_0;
        reveal_effects_payment_counts(v.1);
    }
}

/// Evaluate `payment_count` on the short effect sequences the order
/// handlers produce.
proof fn reveal_effects_payment_counts(s: Seq<EffectV>)
    ensures
        s.len() == 0 ==> payment_count(s) == 0,
        s.len() == 1 ==> payment_count(s) == (if s[0] is Mint || s[0] is Unescrow || s[0] is Burn
            || s[0] is Escrow {
            1nat
        } else {
            0nat
        }),
        s.len() == 2 ==> payment_count(s) == ((if s[0] is Mint || s[0] is Unescrow || s[0] is Burn
            || s[0] is Escrow {
            1nat
        } else {
            0nat
        }) + (if s[1] is Mint || s[1] is Unescrow || s[1] is Burn || s[1] is Escrow {
            1nat
        } else {
            0nat
        })),
{
    if s.len() == 1 {
        assert(s.drop_first().len() == 0);
        assert(payment_count(s.drop_first()) == 0);
    }
    if s.len() == 2 {
        let s1 = s.drop_first();
        assert(s1.len() == 1);
        assert(s1[0] == s[1]);
        assert(s1.drop_first().len() == 0);
        assert(payment_count(s1.drop_first()) == 0);
        assert(payment_count(s1) == (if s1[0] is Mint || s1[0] is Unescrow || s1[0] is Burn
            || s1[0] is Escrow {
            1nat
        } else {
            0nat
        }));
    }
}

/// Refunding an order pays its whole base amount back to its sender,
/// minting when the order burnt a wrapped token and unescrowing otherwise.
pub proof fn lemma_refund_pays_sender(o: FungibleAssetOrder, ctx: CtxV)
    requires
        valid_utf8(o.sender@),
        valid_utf8(o.base_token@),
        o.base_amount.as_nat() < 0x100000000000000000000000000000000int,
    ensures
        ({
            let r = refund_order_spec(o, ctx);
            let sender = vstd::utf8::decode_utf8(o.sender@);
            let denom = vstd::utf8::decode_utf8(o.base_token@);
            let amount = o.base_amount.as_nat() as u128;
            &&& r is Ok
            &&& r->Ok_0 == (if o.base_token_path.as_nat() == ctx.source_channel_id as nat {
                seq![EffectV::Mint { denom, amount, to: sender }]
            } else {
                seq![EffectV::Unescrow { denom, to: sender, amount }]
            })
        }),
{
}

/// Appending an entry never disturbs what an earlier entry answers.
proof fn lemma_origin_lookup_push(s: Seq<OriginEntryV>, e: OriginEntryV, d: Seq<char>)
    ensures
        origin_lookup(s, d) is Some ==> origin_lookup(s.push(e), d) == origin_lookup(s, d),
    decreases s.len(),
{
    if s.len() > 0 {
        assert(s.push(e)[0] == s[0]);
        assert(s.push(e).drop_first() =~= s.drop_first().push(e));
        lemma_origin_lookup_push(s.drop_first(), e, d);
    }
}

proof fn lemma_foreign_lookup_push(s: Seq<ForeignEntryV>, e: ForeignEntryV, d: Seq<char>)
    ensures
        foreign_lookup(s, d) is Some ==> foreign_lookup(s.push(e), d) == foreign_lookup(s, d),
    decreases s.len(),
{
    if s.len() > 0 {
        assert(s.push(e)[0] == s[0]);
        assert(s.push(e).drop_first() =~= s.drop_first().push(e));
        lemma_foreign_lookup_push(s.drop_first(), e, d);
    }
}

/// Whether one ledger's registries answer everything another's did, the
/// same way.
pub open spec fn registries_extend(led: LedgerV, led1: LedgerV, d: Seq<char>) -> bool {
    &&& origin_lookup(led.origins, d) is Some ==> origin_lookup(led1.origins, d) == origin_lookup(
        led.origins,
        d,
    )
    &&& foreign_lookup(led.foreign_tokens, d) is Some ==> foreign_lookup(led1.foreign_tokens, d)
        == foreign_lookup(led.foreign_tokens, d)
}

/// The wrapped-token registries are append-only: whatever executing an
/// instruction tree registers, every denomination registered before keeps
/// exactly the entry it had.
pub proof fn lemma_registries_append_only(
    t: Tree,
    salt: Seq<u8>,
    path: U256,
    ctx: CtxV,
    preds: Seq<PredictionV>,
    led: LedgerV,
    d: Seq<char>,
)
    ensures
        execute_node_spec(t, salt, path, ctx, preds, led) matches Ok(v) ==> registries_extend(
            led,
            v.2,
            d,
        ),
    decreases t, 0int, 0int,
{
    match t {
        Tree::Order(o) => {
            let r = execute_order_spec(o, path, ctx, preds, led);
            if r is Ok {
                let led1 = r->Ok_0.2;
                if led1.origins != led.origins {
                    lemma_origin_lookup_push(led.origins, led1.origins.last(), d);
                    lemma_foreign_lookup_push(led.foreign_tokens, led1.foreign_tokens.last(), d);
                }
            }
        },
        Tree::Batch(subs) => {
            lemma_registries_append_only_list(subs@, 0, salt, path, ctx, preds, led, d);
        },
        _ => {},
    }
}

pub proof fn lemma_registries_append_only_list(
    ts: Seq<Tree>,
    k: int,
    salt: Seq<u8>,
    path: U256,
    ctx: CtxV,
    preds: Seq<PredictionV>,
    led: LedgerV,
    d: Seq<char>,
)
    ensures
        execute_list_spec(ts, k, salt, path, ctx, preds, led) matches Ok(v) ==> registries_extend(
            led,
            v.2,
            d,
        ),
    decreases ts, ts.len() - k, 1int,
{
    if 0 <= k < ts.len() {
        let sn = execute_node_spec(ts[k], child_salt_of(salt, k), path, ctx, preds, led);
        lemma_registries_append_only(ts[k], child_salt_of(salt, k), path, ctx, preds, led, d);
        if sn is Ok {
            lemma_registries_append_only_list(ts, k + 1, salt, path, ctx, preds, sn->Ok_0.2, d);
        }
    }
}

} // verus!
