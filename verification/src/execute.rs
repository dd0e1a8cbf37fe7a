//! The Execute traversal: interpret a received instruction tree bottom-up,
//! producing the token-movement effects, the new ledger state, and the
//! binary acknowledgement that travels back to the counterparty.
//!
//! The whole traversal is specified by the pure interpreter
//! [`execute_node_spec`]; the executable functions return exactly what it
//! says, and [`execute_tree`] leaves the caller's ledger untouched, so a
//! failed execution commits nothing.

use vstd::prelude::*;

verus! {

use vstd::utf8::{decode_utf8, encode_utf8, valid_utf8};
use crate::codec::{
    batch_ack_bytes,
    child_salt,
    child_salt_of,
    encode_batch_ack,
    encode_fao_ack,
    fao_ack_bytes,
    utf8_to_string,
};
use crate::ledger::{
    balance_lookup,
    balance_store,
    copy_bytes,
    foreign_lookup,
    ForeignEntryV,
    Ledger,
    LedgerV,
    OriginEntryV,
};
use crate::types::{
    ack_err_only_maker,
    bytes_list_view,
    effects_view,
    only_maker_bytes,
    CtxV,
    Effect,
    EffectV,
    FungibleAssetOrder,
    FungibleAssetOrderAck,
    FungibleAssetOrderAckV,
    Multiplex,
    TraversalCtx,
    Tree,
    ZkgmError,
    FILL_TYPE_PROTOCOL,
    TAG_ACK_SUCCESS,
};
use crate::u256::U256;

/// One answer of the minter's wrapped-denomination prediction: for a
/// packet path, a destination channel and a foreign token, the local
/// denomination its wrapped representation would use.
#[derive(Clone, Debug, PartialEq)]
pub struct Prediction {
    pub path: U256,
    pub channel_id: u32,
    pub token: Vec<u8>,
    pub denom: String,
}

pub struct PredictionV {
    pub path: U256,
    pub channel_id: u32,
    pub token: Seq<u8>,
    pub denom: Seq<char>,
}

impl View for Prediction {
    type V = PredictionV;

    open spec fn view(&self) -> PredictionV {
        PredictionV {
            path: self.path,
            channel_id: self.channel_id,
            token: self.token@,
            denom: self.denom@,
        }
    }
}

pub open spec fn predictions_view(s: Seq<Prediction>) -> Seq<PredictionV> {
    s.map_values(|p: Prediction| p@)
}

/// The first supplied prediction for a key, if any.
pub open spec fn prediction_lookup(
    s: Seq<PredictionV>,
    path: U256,
    channel_id: u32,
    token: Seq<u8>,
) -> Option<Seq<char>>
    decreases s.len(),
{
    if s.len() == 0 {
        None
    } else if s[0].path == path && s[0].channel_id == channel_id && s[0].token == token {
        Some(s[0].denom)
    } else {
        prediction_lookup(s.drop_first(), path, channel_id, token)
    }
}

/// Whether two byte strings are equal.
pub fn bytes_eq(a: &[u8], b: &[u8]) -> (r: bool)
    ensures
        r == (a@ == b@),
{
    if a.len() != b.len() {
        return false;
    }
    let mut i: usize = 0;
    while i < a.len()
        invariant
            i <= a@.len(),
            a@.len() == b@.len(),
            forall|j: int| 0 <= j < i ==> a@[j] == b@[j],
        decreases a@.len() - i,
    {
        if a[i] != b[i] {
            return false;
        }
        i += 1;
    }
    proof {
        assert(a@ =~= b@);
    }
    true
}

/// Look a key up in the prediction table.
fn lookup_prediction(preds: &Vec<Prediction>, path: &U256, channel_id: u32, token: &Vec<u8>) -> (r:
    Option<String>)
    ensures
        match r {
            Some(d) => prediction_lookup(predictions_view(preds@), *path, channel_id, token@)
                == Some(d@),
            None => prediction_lookup(predictions_view(preds@), *path, channel_id, token@)
                is None,
        },
{
    let ghost s = predictions_view(preds@);
    proof {
        assert(s.skip(0) =~= s);
    }
    let mut i: usize = 0;
    while i < preds.len()
        invariant
            i <= s.len(),
            s == predictions_view(preds@),
            s.len() == preds@.len(),
            prediction_lookup(s, *path, channel_id, token@) == prediction_lookup(
                s.skip(i as int),
                *path,
                channel_id,
                token@,
            ),
        decreases s.len() - i,
    {
        let e = &preds[i];
        proof {
            assert(s.skip(i as int)[0] == s[i as int]);
            assert(s.skip(i as int).drop_first() =~= s.skip(i as int + 1));
        }
        if e.path.same(path) && e.channel_id == channel_id && bytes_eq(
            e.token.as_slice(),
            token.as_slice(),
        ) {
            return Some(e.denom.clone());
        }
        i += 1;
    }
    proof {
        assert(s.skip(s.len() as int).len() == 0);
    }
    None
}

/// The shape of an acknowledgement, before encoding.
pub enum AckVal {
    /// The maker-only sentinel: the order must be replayed by a market
    /// maker.
    OnlyMaker,
    /// A fungible-asset order auto-filled by the protocol.
    Filled,
    /// The plain success word, used by tags and eureka multiplex calls.
    Plain,
    /// One acknowledgement per instruction of a batch, in order.
    Batch(Seq<AckVal>),
}

/// The fill-type word of a protocol-filled order.
pub open spec fn protocol_fill() -> U256 {
    U256 { w0: FILL_TYPE_PROTOCOL, w1: 0, w2: 0, w3: 0 }
}

/// The bytes an acknowledgement is carried as.
pub open spec fn ack_val_bytes(a: AckVal) -> Seq<u8>
    decreases a, 0int,
{
    match a {
        AckVal::OnlyMaker => only_maker_bytes(),
        AckVal::Filled => fao_ack_bytes(
            FungibleAssetOrderAckV { fill_type: protocol_fill(), market_maker: Seq::empty() },
        ),
        AckVal::Plain => (U256 { w0: TAG_ACK_SUCCESS, w1: 0, w2: 0, w3: 0 }).be_bytes(),
        AckVal::Batch(s) => batch_ack_bytes(ack_vals_bytes(s)),
    }
}

/// The bytes of each acknowledgement in a batch.
pub open spec fn ack_vals_bytes(s: Seq<AckVal>) -> Seq<Seq<u8>>
    decreases s, 1int,
{
    if s.len() == 0 {
        Seq::empty()
    } else {
        seq![ack_val_bytes(s[0])] + ack_vals_bytes(s.drop_first())
    }
}

/// What executing one fungible-asset order returns and does.
///
/// An order offering less than it asks (`quote_amount > base_amount`), or
/// one that neither names the predicted wrapped denomination nor unescrows
/// on its own source channel, is answered with the maker-only sentinel and
/// leaves the ledger untouched.  Recognized orders either mint the wrapped
/// representation (registering it the first time) or release escrowed
/// tokens, paying the fee to the relayer when it is positive.
pub open spec fn execute_order_spec(
    o: FungibleAssetOrder,
    path: U256,
    ctx: CtxV,
    preds: Seq<PredictionV>,
    led: LedgerV,
) -> Result<(AckVal, Seq<EffectV>, LedgerV), ZkgmError> {
    if o.quote_amount.as_nat() > o.base_amount.as_nat() {
        Ok((AckVal::OnlyMaker, Seq::empty(), led))
    } else {
        match prediction_lookup(preds, path, ctx.destination_channel_id, o.base_token@) {
            None => Err(ZkgmError::MissingWrappedDenom),
            Some(wrapped) => {
                if o.quote_amount.as_nat() >= 0x100000000000000000000000000000000int {
                    Err(ZkgmError::AmountOverflow)
                } else if o.base_amount.as_nat() - o.quote_amount.as_nat()
                    >= 0x100000000000000000000000000000000int {
                    Err(ZkgmError::AmountOverflow)
                } else if !valid_utf8(o.receiver@) {
                    Err(ZkgmError::InvalidReceiver)
                } else {
                    let receiver = decode_utf8(o.receiver@);
                    let quote = o.quote_amount.as_nat() as u128;
                    let fee = (o.base_amount.as_nat() - o.quote_amount.as_nat()) as u128;
                    if o.quote_token@ == encode_utf8(wrapped) {
                        execute_order_mint_spec(o, path, ctx, led, wrapped, receiver, quote, fee)
                    } else if o.base_token_path.as_nat() == ctx.source_channel_id as nat {
                        execute_order_unescrow_spec(o, ctx, led, receiver, quote, fee)
                    } else {
                        Ok((AckVal::OnlyMaker, Seq::empty(), led))
                    }
                }
            },
        }
    }
}

/// The mint side: this chain issues the wrapped representation.  The
/// denomination is registered on first use only.
pub open spec fn execute_order_mint_spec(
    o: FungibleAssetOrder,
    path: U256,
    ctx: CtxV,
    led: LedgerV,
    wrapped: Seq<char>,
    receiver: Seq<char>,
    quote: u128,
    fee: u128,
) -> Result<(AckVal, Seq<EffectV>, LedgerV), ZkgmError> {
    let fresh = foreign_lookup(led.foreign_tokens, wrapped) is None;
    let create: Seq<EffectV> = if fresh {
        seq![
            EffectV::CreateDenom {
                denom: wrapped,
                name: o.base_token_name@,
                symbol: o.base_token_symbol@,
                decimals: o.base_token_decimals,
                path,
                channel_id: ctx.destination_channel_id,
                token: o.base_token@,
            },
        ]
    } else {
        Seq::empty()
    };
    let led1 = if fresh {
        LedgerV {
            balances: led.balances,
            origins: led.origins.push(
                OriginEntryV {
                    denom: wrapped,
                    origin: U256::from_nat(ctx.destination_channel_id as nat),
                },
            ),
            foreign_tokens: led.foreign_tokens.push(
                ForeignEntryV { denom: wrapped, token: o.base_token@ },
            ),
        }
    } else {
        led
    };
    let pay: Seq<EffectV> = if fee > 0 {
        seq![
            EffectV::Mint { denom: wrapped, amount: quote, to: receiver },
            EffectV::Mint { denom: wrapped, amount: fee, to: ctx.relayer },
        ]
    } else {
        seq![EffectV::Mint { denom: wrapped, amount: quote, to: receiver }]
    };
    Ok((AckVal::Filled, create + pay, led1))
}

/// The unescrow side: this chain releases previously escrowed tokens and
/// decrements the channel balance by the quote amount, failing rather than
/// letting it go negative.
pub open spec fn execute_order_unescrow_spec(
    o: FungibleAssetOrder,
    ctx: CtxV,
    led: LedgerV,
    receiver: Seq<char>,
    quote: u128,
    fee: u128,
) -> Result<(AckVal, Seq<EffectV>, LedgerV), ZkgmError> {
    if !valid_utf8(o.quote_token@) {
        Err(ZkgmError::InvalidQuoteToken)
    } else {
        let qdenom = decode_utf8(o.quote_token@);
        match balance_lookup(led.balances, ctx.destination_channel_id, qdenom) {
            None => Err(ZkgmError::InvalidChannelBalance),
            Some(bal) => if bal.as_nat() < quote {
                Err(ZkgmError::InvalidChannelBalance)
            } else {
                let led1 = LedgerV {
                    balances: balance_store(
                        led.balances,
                        ctx.destination_channel_id,
                        qdenom,
                        U256::from_nat((bal.as_nat() - quote) as nat),
                    ),
                    origins: led.origins,
                    foreign_tokens: led.foreign_tokens,
                };
                let pay: Seq<EffectV> = if fee > 0 {
                    seq![
                        EffectV::Unescrow { denom: qdenom, to: receiver, amount: quote },
                        EffectV::Unescrow { denom: qdenom, to: ctx.relayer, amount: fee },
                    ]
                } else {
                    seq![EffectV::Unescrow { denom: qdenom, to: receiver, amount: quote }]
                };
                Ok((AckVal::Filled, pay, led1))
            },
        }
    }
}

/// What executing a multiplex instruction returns and does: a eureka call
/// delivers the calldata to the named contract; the non-eureka path is
/// intentionally unimplemented and errs.  No ledger is involved.
pub open spec fn execute_multiplex_spec(m: Multiplex, ctx: CtxV) -> Result<
    (AckVal, Seq<EffectV>),
    ZkgmError,
> {
    if !valid_utf8(m.contract_address@) {
        Err(ZkgmError::InvalidContractAddress)
    } else if m.eureka {
        Ok(
            (
                AckVal::Plain,
                seq![
                    EffectV::CallContract {
                        address: decode_utf8(m.contract_address@),
                        channel_id: ctx.destination_channel_id,
                        sender: m.sender@,
                        calldata: m.contract_calldata@,
                    },
                ],
            ),
        )
    } else {
        Err(ZkgmError::Unimplemented)
    }
}

/// What executing one instruction tree returns and does.
pub open spec fn execute_node_spec(
    t: Tree,
    salt: Seq<u8>,
    path: U256,
    ctx: CtxV,
    preds: Seq<PredictionV>,
    led: LedgerV,
) -> Result<(AckVal, Seq<EffectV>, LedgerV), ZkgmError>
    decreases t, 0int, 0int,
{
    match t {
        Tree::Order(o) => execute_order_spec(o, path, ctx, preds, led),
        Tree::Batch(subs) => match execute_list_spec(subs@, 0, salt, path, ctx, preds, led) {
            Ok((acks, effs, led1)) => Ok((AckVal::Batch(acks), effs, led1)),
            Err(e) => Err(e),
        },
        Tree::Multiplex(m) => match execute_multiplex_spec(m, ctx) {
            Ok((a, effs)) => Ok((a, effs, led)),
            Err(e) => Err(e),
        },
        Tree::Tag => Ok((AckVal::Plain, Seq::empty(), led)),
    }
}

/// Executing the sub-instructions of a batch from index `k` on: each child
/// runs at the salt derived from the batch's salt and its index, effects
/// concatenate in order, the ledger threads left to right, and the first
/// error aborts everything.
pub open spec fn execute_list_spec(
    ts: Seq<Tree>,
    k: int,
    salt: Seq<u8>,
    path: U256,
    ctx: CtxV,
    preds: Seq<PredictionV>,
    led: LedgerV,
) -> Result<(Seq<AckVal>, Seq<EffectV>, LedgerV), ZkgmError>
    decreases ts, ts.len() - k, 1int,
{
    if k < 0 || k >= ts.len() {
        Ok((Seq::empty(), Seq::empty(), led))
    } else {
        match execute_node_spec(ts[k], child_salt_of(salt, k), path, ctx, preds, led) {
            Err(e) => Err(e),
            Ok((a, effs, led1)) => match execute_list_spec(
                ts,
                k + 1,
                salt,
                path,
                ctx,
                preds,
                led1,
            ) {
                Err(e) => Err(e),
                Ok((acks, rest, led2)) => Ok((seq![a] + acks, effs + rest, led2)),
            },
        }
    }
}

/// The acknowledgement of a protocol-filled order.
fn filled_ack() -> (r: Vec<u8>)
    ensures
        r@ == ack_val_bytes(AckVal::Filled),
{
    let mm: Vec<u8> = Vec::new();
    let ack = FungibleAssetOrderAck {
        fill_type: U256::from_u64(FILL_TYPE_PROTOCOL),
        market_maker: mm,
    };
    proof {
        assert(ack@.market_maker =~= Seq::<u8>::empty());
        assert(ack@ == (FungibleAssetOrderAckV {
            fill_type: protocol_fill(),
            market_maker: Seq::empty(),
        }));
    }
    encode_fao_ack(&ack)
}

/// The plain success word.
fn plain_ack() -> (r: Vec<u8>)
    ensures
        r@ == ack_val_bytes(AckVal::Plain),
{
    U256::from_u64(TAG_ACK_SUCCESS).to_be_bytes()
}

/// Execute one fungible-asset order.
fn execute_order(
    o: &FungibleAssetOrder,
    path: &U256,
    ctx: &TraversalCtx,
    preds: &Vec<Prediction>,
    ledger: &mut Ledger,
) -> (r: Result<(Vec<u8>, Vec<Effect>), ZkgmError>)
    ensures
        ({
            let s = execute_order_spec(*o, *path, ctx@, predictions_view(preds@), old(ledger)@);
            match r {
                Ok((ack, effs)) => s matches Ok(sv) && ack@ == ack_val_bytes(sv.0)
                    && effects_view(effs@) == sv.1 && final(ledger)@ == sv.2,
                Err(e) => s == Err::<(AckVal, Seq<EffectV>, LedgerV), ZkgmError>(e),
            }
        }),
{
    if o.base_amount.lt(&o.quote_amount) {
        let effs: Vec<Effect> = Vec::new();
        proof {
            assert(effects_view(effs@) =~= Seq::<EffectV>::empty());
        }
        return Ok((ack_err_only_maker(), effs));
    }
    let wrapped = match lookup_prediction(preds, path, ctx.destination_channel_id, &o.base_token) {
        None => {
            return Err(ZkgmError::MissingWrappedDenom);
        },
        Some(w) => w,
    };
    let quote = match o.quote_amount.try_to_u128() {
        None => {
            return Err(ZkgmError::AmountOverflow);
        },
        Some(q) => q,
    };
    let fee_u256 = match o.base_amount.checked_sub(&o.quote_amount) {
        None => {
            return Err(ZkgmError::AmountOverflow);
        },
        Some(f) => f,
    };
    let fee = match fee_u256.try_to_u128() {
        None => {
            return Err(ZkgmError::AmountOverflow);
        },
        Some(f) => f,
    };
    let receiver = match utf8_to_string(&o.receiver) {
        None => {
            return Err(ZkgmError::InvalidReceiver);
        },
        Some(s) => s,
    };
    if bytes_eq(o.quote_token.as_slice(), wrapped.as_str().as_bytes()) {
        execute_order_mint(o, path, ctx, ledger, wrapped, receiver, quote, fee)
    } else if o.base_token_path.same(&U256::from_u32(ctx.source_channel_id)) {
        execute_order_unescrow(o, ctx, ledger, receiver, quote, fee)
    } else {
        let effs: Vec<Effect> = Vec::new();
        proof {
            assert(effects_view(effs@) =~= Seq::<EffectV>::empty());
        }
        Ok((ack_err_only_maker(), effs))
    }
}

/// The mint side of an order.
fn execute_order_mint(
    o: &FungibleAssetOrder,
    path: &U256,
    ctx: &TraversalCtx,
    ledger: &mut Ledger,
    wrapped: String,
    receiver: String,
    quote: u128,
    fee: u128,
) -> (r: Result<(Vec<u8>, Vec<Effect>), ZkgmError>)
    ensures
        ({
            let s = execute_order_mint_spec(
                *o,
                *path,
                ctx@,
                old(ledger)@,
                wrapped@,
                receiver@,
                quote,
                fee,
            );
            match r {
                Ok((ack, effs)) => s matches Ok(sv) && ack@ == ack_val_bytes(sv.0)
                    && effects_view(effs@) == sv.1 && final(ledger)@ == sv.2,
                Err(e) => s == Err::<(AckVal, Seq<EffectV>, LedgerV), ZkgmError>(e),
            }
        }),
{
    let mut effs: Vec<Effect> = Vec::new();
    let fresh = match ledger.foreign_token_of(&wrapped) {
        None => true,
        Some(_) => false,
    };
    if fresh {
        effs.push(
            Effect::CreateDenom {
                denom: wrapped.clone(),
                name: o.base_token_name.clone(),
                symbol: o.base_token_symbol.clone(),
                decimals: o.base_token_decimals,
                path: *path,
                channel_id: ctx.destination_channel_id,
                token: copy_bytes(&o.base_token),
            },
        );
        let origin = U256::from_u32(ctx.destination_channel_id);
        proof {
            crate::u256::lemma_from_nat_as_nat(origin);
        }
        ledger.register_wrapped(&wrapped, &o.base_token, origin);
    }
    effs.push(Effect::Mint { denom: wrapped.clone(), amount: quote, to: receiver });
    if fee > 0 {
        effs.push(Effect::Mint { denom: wrapped, amount: fee, to: ctx.relayer.clone() });
    }
    let ack = filled_ack();
    proof {
        let sv = execute_order_mint_spec(
            *o,
            *path,
            ctx@,
            old(ledger)@,
            wrapped@,
            receiver@,
            quote,
            fee,
        );
        assert(sv is Ok);
        assert(effects_view(effs@) =~= sv->Ok_0.1);
        assert(ledger@.balances =~= sv->Ok_0.2.balances);
    }
    Ok((ack, effs))
}

/// The unescrow side of an order.
fn execute_order_unescrow(
    o: &FungibleAssetOrder,
    ctx: &TraversalCtx,
    ledger: &mut Ledger,
    receiver: String,
    quote: u128,
    fee: u128,
) -> (r: Result<(Vec<u8>, Vec<Effect>), ZkgmError>)
    ensures
        ({
            let s = execute_order_unescrow_spec(*o, ctx@, old(ledger)@, receiver@, quote, fee);
            match r {
                Ok((ack, effs)) => s matches Ok(sv) && ack@ == ack_val_bytes(sv.0)
                    && effects_view(effs@) == sv.1 && final(ledger)@ == sv.2,
                Err(e) => s == Err::<(AckVal, Seq<EffectV>, LedgerV), ZkgmError>(e),
            }
        }),
{
    let qdenom = match utf8_to_string(&o.quote_token) {
        None => {
            return Err(ZkgmError::InvalidQuoteToken);
        },
        Some(s) => s,
    };
    let bal = match ledger.balance_of(ctx.destination_channel_id, &qdenom) {
        None => {
            return Err(ZkgmError::InvalidChannelBalance);
        },
        Some(b) => b,
    };
    let rest = match bal.checked_sub(&U256::from_u128(quote)) {
        None => {
            return Err(ZkgmError::InvalidChannelBalance);
        },
        Some(v) => v,
    };
    ledger.store_balance(ctx.destination_channel_id, &qdenom, rest);
    proof {
        crate::u256::lemma_from_nat_as_nat(rest);
    }
    let mut effs: Vec<Effect> = Vec::new();
    effs.push(Effect::Unescrow { denom: qdenom.clone(), to: receiver, amount: quote });
    if fee > 0 {
        effs.push(Effect::Unescrow { denom: qdenom, to: ctx.relayer.clone(), amount: fee });
    }
    let ack = filled_ack();
    proof {
        let sv = execute_order_unescrow_spec(*o, ctx@, old(ledger)@, receiver@, quote, fee);
        assert(sv is Ok);
        assert(effects_view(effs@) =~= sv->Ok_0.1);
    }
    Ok((ack, effs))
}

/// Execute one multiplex instruction.
fn execute_multiplex(m: &Multiplex, ctx: &TraversalCtx) -> (r: Result<
    (Vec<u8>, Vec<Effect>),
    ZkgmError,
>)
    ensures
        ({
            let s = execute_multiplex_spec(*m, ctx@);
            match r {
                Ok((ack, effs)) => s matches Ok(sv) && ack@ == ack_val_bytes(sv.0)
                    && effects_view(effs@) == sv.1,
                Err(e) => s == Err::<(AckVal, Seq<EffectV>), ZkgmError>(e),
            }
        }),
{
    let address = match utf8_to_string(&m.contract_address) {
        None => {
            return Err(ZkgmError::InvalidContractAddress);
        },
        Some(a) => a,
    };
    if m.eureka {
        let mut effs: Vec<Effect> = Vec::new();
        effs.push(
            Effect::CallContract {
                address,
                channel_id: ctx.destination_channel_id,
                sender: copy_bytes(&m.sender),
                calldata: copy_bytes(&m.contract_calldata),
            },
        );
        proof {
            assert(effects_view(effs@) =~= execute_multiplex_spec(*m, ctx@)->Ok_0.1);
        }
        Ok((plain_ack(), effs))
    } else {
        Err(ZkgmError::Unimplemented)
    }
}

/// Execute one instruction tree node at its salt, mutating the ledger.
fn execute_node(
    t: &Tree,
    salt: &Vec<u8>,
    path: &U256,
    ctx: &TraversalCtx,
    preds: &Vec<Prediction>,
    ledger: &mut Ledger,
) -> (r: Result<(Vec<u8>, Vec<Effect>), ZkgmError>)
    ensures
        ({
            let s = execute_node_spec(
                *t,
                salt@,
                *path,
                ctx@,
                predictions_view(preds@),
                old(ledger)@,
            );
            match r {
                Ok((ack, effs)) => s matches Ok(sv) && ack@ == ack_val_bytes(sv.0)
                    && effects_view(effs@) == sv.1 && final(ledger)@ == sv.2,
                Err(e) => s == Err::<(AckVal, Seq<EffectV>, LedgerV), ZkgmError>(e),
            }
        }),
    decreases *t, 0int, 0int,
{
    match t {
        Tree::Order(o) => execute_order(o, path, ctx, preds, ledger),
        Tree::Batch(subs) => {
            match execute_nodes(subs, 0, salt, path, ctx, preds, ledger) {
                Err(e) => Err(e),
                Ok((acks, effs)) => {
                    let ack = encode_batch_ack(&acks);
                    Ok((ack, effs))
                },
            }
        },
        Tree::Multiplex(m) => {
            let r = execute_multiplex(m, ctx);
            proof {
                if r is Ok {
                    assert(final(ledger)@ == old(ledger)@);
                }
            }
            r
        },
        Tree::Tag => {
            let effs: Vec<Effect> = Vec::new();
            proof {
                assert(effects_view(effs@) =~= Seq::<EffectV>::empty());
            }
            Ok((plain_ack(), effs))
        },
    }
}

/// Execute the sub-instructions of a batch from index `start` on.
fn execute_nodes(
    subs: &Vec<Tree>,
    start: usize,
    salt: &Vec<u8>,
    path: &U256,
    ctx: &TraversalCtx,
    preds: &Vec<Prediction>,
    ledger: &mut Ledger,
) -> (r: Result<(Vec<Vec<u8>>, Vec<Effect>), ZkgmError>)
    ensures
        ({
            let s = execute_list_spec(
                subs@,
                start as int,
                salt@,
                *path,
                ctx@,
                predictions_view(preds@),
                old(ledger)@,
            );
            match r {
                Ok((acks, effs)) => s matches Ok(sv) && bytes_list_view(acks@) == ack_vals_bytes(
                    sv.0,
                ) && effects_view(effs@) == sv.1 && final(ledger)@ == sv.2,
                Err(e) => s == Err::<(Seq<AckVal>, Seq<EffectV>, LedgerV), ZkgmError>(e),
            }
        }),
    decreases subs@, subs@.len() - start, 1int,
{
    if start >= subs.len() {
        let acks: Vec<Vec<u8>> = Vec::new();
        let effs: Vec<Effect> = Vec::new();
        proof {
            assert(bytes_list_view(acks@) =~= ack_vals_bytes(Seq::<AckVal>::empty()));
            assert(effects_view(effs@) =~= Seq::<EffectV>::empty());
        }
        return Ok((acks, effs));
    }
    let sub_salt = child_salt(salt, start as u64);
    let (ack, mut effs) = match execute_node(&subs[start], &sub_salt, path, ctx, preds, ledger) {
        Err(e) => {
            return Err(e);
        },
        Ok(v) => v,
    };
    let (mut acks_rest, mut effs_rest) = match execute_nodes(
        subs,
        start + 1,
        salt,
        path,
        ctx,
        preds,
        ledger,
    ) {
        Err(e) => {
            return Err(e);
        },
        Ok(v) => v,
    };
    let mut acks: Vec<Vec<u8>> = Vec::new();
    acks.push(ack);
    acks.append(&mut acks_rest);
    effs.append(&mut effs_rest);
    proof {
        let pv = predictions_view(preds@);
        let sn = execute_node_spec(
            subs@[start as int],
            child_salt_of(salt@, start as int),
            *path,
            ctx@,
            pv,
            old(ledger)@,
        );
        let srest = execute_list_spec(
            subs@,
            start as int + 1,
            salt@,
            *path,
            ctx@,
            pv,
            sn->Ok_0.2,
        );
        let s = execute_list_spec(subs@, start as int, salt@, *path, ctx@, pv, old(ledger)@);
        assert(s is Ok);
        assert(s->Ok_0.0 == seq![sn->Ok_0.0] + srest->Ok_0.0);
        assert((seq![sn->Ok_0.0] + srest->Ok_0.0).drop_first() =~= srest->Ok_0.0);
        assert(ack_vals_bytes(s->Ok_0.0) == seq![ack_val_bytes(sn->Ok_0.0)] + ack_vals_bytes(
            srest->Ok_0.0,
        ));
        assert(bytes_list_view(acks@) =~= ack_vals_bytes(s->Ok_0.0));
        assert(effects_view(effs@) =~= s->Ok_0.1);
    }
    Ok((acks, effs))
}

/// Execute a packet's instruction tree against the current ledger.
///
/// Returns the encoded acknowledgement, the token-movement effects, and
/// the ledger as it stands after the execution; the ledger passed in is
/// never modified, so an error commits nothing.
pub fn execute_tree(
    t: &Tree,
    salt: &Vec<u8>,
    path: &U256,
    ctx: &TraversalCtx,
    preds: &Vec<Prediction>,
    ledger: &Ledger,
) -> (r: Result<(Vec<u8>, Vec<Effect>, Ledger), ZkgmError>)
    ensures
        ({
            let s = execute_node_spec(*t, salt@, *path, ctx@, predictions_view(preds@), ledger@);
            match r {
                Ok((ack, effs, led1)) => s matches Ok(sv) && ack@ == ack_val_bytes(sv.0)
                    && effects_view(effs@) == sv.1 && led1@ == sv.2,
                Err(e) => s == Err::<(AckVal, Seq<EffectV>, LedgerV), ZkgmError>(e),
            }
        }),
{
    let mut working = ledger.snapshot();
    match execute_node(t, salt, path, ctx, preds, &mut working) {
        Ok((ack, effs)) => Ok((ack, effs, working)),
        Err(e) => Err(e),
    }
}

/// The foreign tokens of the fungible-asset orders in a tree, in traversal
/// order: the keys whose wrapped denominations executing the tree will ask
/// for.
pub open spec fn order_tokens(t: Tree) -> Seq<Seq<u8>>
    decreases t, 0int, 0int,
{
    match t {
        Tree::Order(o) => seq![o.base_token@],
        Tree::Batch(subs) => order_tokens_list(subs@, 0),
        Tree::Multiplex(_) => Seq::empty(),
        Tree::Tag => Seq::empty(),
    }
}

pub open spec fn order_tokens_list(ts: Seq<Tree>, k: int) -> Seq<Seq<u8>>
    decreases ts, ts.len() - k, 1int,
{
    if k < 0 || k >= ts.len() {
        Seq::empty()
    } else {
        order_tokens(ts[k]) + order_tokens_list(ts, k + 1)
    }
}

/// Collect the foreign tokens whose wrapped denominations must be
/// predicted before the tree can execute.
pub fn required_tokens(t: &Tree) -> (r: Vec<Vec<u8>>)
    ensures
        bytes_list_view(r@) == order_tokens(*t),
    decreases *t, 0int, 0int,
{
    match t {
        Tree::Order(o) => {
            let mut r: Vec<Vec<u8>> = Vec::new();
            r.push(copy_bytes(&o.base_token));
            proof {
                assert(bytes_list_view(r@) =~= seq![o.base_token@]);
            }
            r
        },
        Tree::Batch(subs) => {
            let r = required_tokens_list(subs, 0);
            r
        },
        Tree::Multiplex(_) => {
            let r: Vec<Vec<u8>> = Vec::new();
            proof {
                assert(bytes_list_view(r@) =~= Seq::<Seq<u8>>::empty());
            }
            r
        },
        Tree::Tag => {
            let r: Vec<Vec<u8>> = Vec::new();
            proof {
                assert(bytes_list_view(r@) =~= Seq::<Seq<u8>>::empty());
            }
            r
        },
    }
}

fn required_tokens_list(subs: &Vec<Tree>, start: usize) -> (r: Vec<Vec<u8>>)
    ensures
        bytes_list_view(r@) == order_tokens_list(subs@, start as int),
    decreases subs@, subs@.len() - start, 1int,
{
    if start >= subs.len() {
        let r: Vec<Vec<u8>> = Vec::new();
        proof {
            assert(bytes_list_view(r@) =~= Seq::<Seq<u8>>::empty());
        }
        return r;
    }
    let mut r = required_tokens(&subs[start]);
    let mut rest = required_tokens_list(subs, start + 1);
    r.append(&mut rest);
    proof {
        assert(bytes_list_view(r@) =~= order_tokens_list(subs@, start as int));
    }
    r
}

} // verus!
