//! The long-lived token ledger: escrowed balances per channel and
//! denomination, and the two append-only wrapped-token registries.  All
//! three are association lists read by their first matching entry; the
//! interpreter is their only writer, and applies them all-or-nothing per
//! packet by working on a snapshot.

use vstd::prelude::*;

verus! {

use crate::u256::U256;

/// Tokens escrowed on this chain on behalf of one channel, per
/// denomination.
#[derive(Clone, Debug, PartialEq)]
pub struct BalanceEntry {
    pub channel_id: u32,
    pub denom: String,
    pub amount: U256,
}

pub struct BalanceEntryV {
    pub channel_id: u32,
    pub denom: Seq<char>,
    pub amount: U256,
}

impl View for BalanceEntry {
    type V = BalanceEntryV;

    open spec fn view(&self) -> BalanceEntryV {
        BalanceEntryV { channel_id: self.channel_id, denom: self.denom@, amount: self.amount }
    }
}

/// The origin channel path a wrapped denomination was first minted for.
#[derive(Clone, Debug, PartialEq)]
pub struct OriginEntry {
    pub denom: String,
    pub origin: U256,
}

pub struct OriginEntryV {
    pub denom: Seq<char>,
    pub origin: U256,
}

impl View for OriginEntry {
    type V = OriginEntryV;

    open spec fn view(&self) -> OriginEntryV {
        OriginEntryV { denom: self.denom@, origin: self.origin }
    }
}

/// The original foreign token a wrapped denomination stands for.
#[derive(Clone, Debug, PartialEq)]
pub struct ForeignEntry {
    pub denom: String,
    pub token: Vec<u8>,
}

pub struct ForeignEntryV {
    pub denom: Seq<char>,
    pub token: Seq<u8>,
}

impl View for ForeignEntry {
    type V = ForeignEntryV;

    open spec fn view(&self) -> ForeignEntryV {
        ForeignEntryV { denom: self.denom@, token: self.token@ }
    }
}

#[derive(Clone, Debug, PartialEq)]
pub struct Ledger {
    pub balances: Vec<BalanceEntry>,
    pub origins: Vec<OriginEntry>,
    pub foreign_tokens: Vec<ForeignEntry>,
}

pub struct LedgerV {
    pub balances: Seq<BalanceEntryV>,
    pub origins: Seq<OriginEntryV>,
    pub foreign_tokens: Seq<ForeignEntryV>,
}

impl View for Ledger {
    type V = LedgerV;

    open spec fn view(&self) -> LedgerV {
        LedgerV {
            balances: self.balances@.map_values(|e: BalanceEntry| e@),
            origins: self.origins@.map_values(|e: OriginEntry| e@),
            foreign_tokens: self.foreign_tokens@.map_values(|e: ForeignEntry| e@),
        }
    }
}

/// The escrowed amount for a channel and denomination: the first matching
/// entry, if any.
pub open spec fn balance_lookup(s: Seq<BalanceEntryV>, channel_id: u32, denom: Seq<char>) -> Option<
    U256,
>
    decreases s.len(),
{
    if s.len() == 0 {
        None
    } else if s[0].channel_id == channel_id && s[0].denom == denom {
        Some(s[0].amount)
    } else {
        balance_lookup(s.drop_first(), channel_id, denom)
    }
}

/// The balances after storing `amount` for a channel and denomination: the
/// first matching entry replaced, or a new entry appended.
pub open spec fn balance_store(
    s: Seq<BalanceEntryV>,
    channel_id: u32,
    denom: Seq<char>,
    amount: U256,
) -> Seq<BalanceEntryV>
    decreases s.len(),
{
    if s.len() == 0 {
        seq![BalanceEntryV { channel_id, denom, amount }]
    } else if s[0].channel_id == channel_id && s[0].denom == denom {
        seq![BalanceEntryV { channel_id, denom, amount }] + s.drop_first()
    } else {
        seq![s[0]] + balance_store(s.drop_first(), channel_id, denom, amount)
    }
}

/// The origin path registered for a wrapped denomination, if any.
pub open spec fn origin_lookup(s: Seq<OriginEntryV>, denom: Seq<char>) -> Option<U256>
    decreases s.len(),
{
    if s.len() == 0 {
        None
    } else if s[0].denom == denom {
        Some(s[0].origin)
    } else {
        origin_lookup(s.drop_first(), denom)
    }
}

/// The foreign token registered for a wrapped denomination, if any.
pub open spec fn foreign_lookup(s: Seq<ForeignEntryV>, denom: Seq<char>) -> Option<Seq<u8>>
    decreases s.len(),
{
    if s.len() == 0 {
        None
    } else if s[0].denom == denom {
        Some(s[0].token)
    } else {
        foreign_lookup(s.drop_first(), denom)
    }
}

impl Ledger {
    pub fn new() -> (r: Ledger)
        ensures
            r@.balances == Seq::<BalanceEntryV>::empty(),
            r@.origins == Seq::<OriginEntryV>::empty(),
            r@.foreign_tokens == Seq::<ForeignEntryV>::empty(),
    {
        let r = Ledger { balances: Vec::new(), origins: Vec::new(), foreign_tokens: Vec::new() };
        proof {
            assert(r@.balances =~= Seq::<BalanceEntryV>::empty());
            assert(r@.origins =~= Seq::<OriginEntryV>::empty());
            assert(r@.foreign_tokens =~= Seq::<ForeignEntryV>::empty());
        }
        r
    }

    /// The escrowed amount for a channel and denomination.
    pub fn balance_of(&self, channel_id: u32, denom: &String) -> (r: Option<U256>)
        ensures
            r == balance_lookup(self@.balances, channel_id, denom@),
    {
        let s = Ghost(self@.balances);
        proof {
            assert(s@.skip(0) =~= s@);
        }
        let mut i: usize = 0;
        while i < self.balances.len()
            invariant
                i <= s@.len(),
                s@ == self@.balances,
                self@.balances.len() == self.balances@.len(),
                balance_lookup(s@, channel_id, denom@) == balance_lookup(
                    s@.skip(i as int),
                    channel_id,
                    denom@,
                ),
            decreases s@.len() - i,
        {
            let e = &self.balances[i];
            proof {
                assert(s@.skip(i as int)[0] == s@[i as int]);
                assert(s@.skip(i as int).drop_first() =~= s@.skip(i as int + 1));
            }
            if e.channel_id == channel_id && e.denom == *denom {
                return Some(e.amount);
            }
            i += 1;
        }
        proof {
            assert(s@.skip(s@.len() as int).len() == 0);
        }
        None
    }

    /// Store `amount` for a channel and denomination, replacing the first
    /// matching entry or appending a new one.
    pub fn store_balance(&mut self, channel_id: u32, denom: &String, amount: U256)
        ensures
            final(self)@.balances == balance_store(
                old(self)@.balances,
                channel_id,
                denom@,
                amount,
            ),
            final(self)@.origins == old(self)@.origins,
            final(self)@.foreign_tokens == old(self)@.foreign_tokens,
    {
        let s = Ghost(self@.balances);
        let mut i: usize = 0;
        while i < self.balances.len()
            invariant
                i <= s@.len(),
                s@ == self@.balances,
                *self == *old(self),
                self@.balances.len() == self.balances@.len(),
                forall|j: int|
                    0 <= j < i ==> !(#[trigger] s@[j].channel_id == channel_id && s@[j].denom
                        == denom@),
            decreases s@.len() - i,
        {
            let e = &self.balances[i];
            if e.channel_id == channel_id && e.denom == *denom {
                let d = denom.clone();
                self.balances[i] = BalanceEntry { channel_id, denom: d, amount };
                proof {
                    lemma_balance_store_at(s@, channel_id, denom@, amount, i as int);
                    assert(self@.balances =~= s@.update(
                        i as int,
                        BalanceEntryV { channel_id, denom: denom@, amount },
                    ));
                }
                return ;
            }
            i += 1;
        }
        let d = denom.clone();
        self.balances.push(BalanceEntry { channel_id, denom: d, amount });
        proof {
            lemma_balance_store_absent(s@, channel_id, denom@, amount);
            assert(self@.balances =~= s@.push(
                BalanceEntryV { channel_id, denom: denom@, amount },
            ));
        }
    }

    /// The origin path registered for a wrapped denomination.
    pub fn origin_of(&self, denom: &String) -> (r: Option<U256>)
        ensures
            r == origin_lookup(self@.origins, denom@),
    {
        let s = Ghost(self@.origins);
        proof {
            assert(s@.skip(0) =~= s@);
        }
        let mut i: usize = 0;
        while i < self.origins.len()
            invariant
                i <= s@.len(),
                s@ == self@.origins,
                self@.origins.len() == self.origins@.len(),
                origin_lookup(s@, denom@) == origin_lookup(s@.skip(i as int), denom@),
            decreases s@.len() - i,
        {
            let e = &self.origins[i];
            proof {
                assert(s@.skip(i as int)[0] == s@[i as int]);
                assert(s@.skip(i as int).drop_first() =~= s@.skip(i as int + 1));
            }
            if e.denom == *denom {
                return Some(e.origin);
            }
            i += 1;
        }
        proof {
            assert(s@.skip(s@.len() as int).len() == 0);
        }
        None
    }

    /// The foreign token registered for a wrapped denomination.
    pub fn foreign_token_of(&self, denom: &String) -> (r: Option<Vec<u8>>)
        ensures
            match r {
                Some(t) => foreign_lookup(self@.foreign_tokens, denom@) == Some(t@),
                None => foreign_lookup(self@.foreign_tokens, denom@) is None,
            },
    {
        let s = Ghost(self@.foreign_tokens);
        proof {
            assert(s@.skip(0) =~= s@);
        }
        let mut i: usize = 0;
        while i < self.foreign_tokens.len()
            invariant
                i <= s@.len(),
                s@ == self@.foreign_tokens,
                self@.foreign_tokens.len() == self.foreign_tokens@.len(),
                foreign_lookup(s@, denom@) == foreign_lookup(s@.skip(i as int), denom@),
            decreases s@.len() - i,
        {
            let e = &self.foreign_tokens[i];
            proof {
                assert(s@.skip(i as int)[0] == s@[i as int]);
                assert(s@.skip(i as int).drop_first() =~= s@.skip(i as int + 1));
            }
            if e.denom == *denom {
                return Some(copy_bytes(&e.token));
            }
            i += 1;
        }
        proof {
            assert(s@.skip(s@.len() as int).len() == 0);
        }
        None
    }

    /// Register a wrapped denomination: record its foreign token and its
    /// origin path.  Registration is append-only and happens at most once
    /// per denomination.
    pub fn register_wrapped(&mut self, denom: &String, token: &Vec<u8>, origin: U256)
        ensures
            final(self)@.balances == old(self)@.balances,
            final(self)@.origins == old(self)@.origins.push(
                OriginEntryV { denom: denom@, origin },
            ),
            final(self)@.foreign_tokens == old(self)@.foreign_tokens.push(
                ForeignEntryV { denom: denom@, token: token@ },
            ),
    {
        let d1 = denom.clone();
        let t = copy_bytes(token);
        self.foreign_tokens.push(ForeignEntry { denom: d1, token: t });
        let d2 = denom.clone();
        self.origins.push(OriginEntry { denom: d2, origin });
        proof {
            assert(self@.origins =~= old(self)@.origins.push(
                OriginEntryV { denom: denom@, origin },
            ));
            assert(self@.foreign_tokens =~= old(self)@.foreign_tokens.push(
                ForeignEntryV { denom: denom@, token: token@ },
            ));
        }
    }

    /// An identical copy, for working transactionally: the traversal runs
    /// on the copy, and the caller keeps the original if it fails.
    pub fn snapshot(&self) -> (r: Ledger)
        ensures
            r@ == self@,
    {
        let mut balances: Vec<BalanceEntry> = Vec::new();
        let mut i: usize = 0;
        while i < self.balances.len()
            invariant
                i <= self.balances@.len(),
                balances@.len() == i,
                forall|j: int| 0 <= j < i ==> #[trigger] balances@[j]@ == self.balances@[j]@,
            decreases self.balances@.len() - i,
        {
            let e = &self.balances[i];
            let d = e.denom.clone();
            balances.push(BalanceEntry { channel_id: e.channel_id, denom: d, amount: e.amount });
            i += 1;
        }
        let mut origins: Vec<OriginEntry> = Vec::new();
        let mut j: usize = 0;
        while j < self.origins.len()
            invariant
                j <= self.origins@.len(),
                origins@.len() == j,
                forall|m: int| 0 <= m < j ==> #[trigger] origins@[m]@ == self.origins@[m]@,
            decreases self.origins@.len() - j,
        {
            let e = &self.origins[j];
            origins.push(OriginEntry { denom: e.denom.clone(), origin: e.origin });
            j += 1;
        }
        let mut foreign_tokens: Vec<ForeignEntry> = Vec::new();
        let mut k: usize = 0;
        while k < self.foreign_tokens.len()
            invariant
                k <= self.foreign_tokens@.len(),
                foreign_tokens@.len() == k,
                forall|m: int|
                    0 <= m < k ==> #[trigger] foreign_tokens@[m]@ == self.foreign_tokens@[m]@,
            decreases self.foreign_tokens@.len() - k,
        {
            let e = &self.foreign_tokens[k];
            foreign_tokens.push(ForeignEntry { denom: e.denom.clone(), token: copy_bytes(&e.token) });
            k += 1;
        }
        let r = Ledger { balances, origins, foreign_tokens };
        proof {
            assert(r@.balances =~= self@.balances);
            assert(r@.origins =~= self@.origins);
            assert(r@.foreign_tokens =~= self@.foreign_tokens);
        }
        r
    }
}

/// An identical copy of a byte vector.
pub fn copy_bytes(v: &Vec<u8>) -> (r: Vec<u8>)
    ensures
        r@ == v@,
{
    let mut r: Vec<u8> = Vec::new();
    let mut i: usize = 0;
    while i < v.len()
        invariant
            i <= v@.len(),
            r@ =~= v@.take(i as int),
        decreases v@.len() - i,
    {
        r.push(v[i]);
        i += 1;
    }
    proof {
        assert(v@.take(v@.len() as int) =~= v@);
    }
    r
}

/// Replacing the first match, when it sits at index `i`, is a point update.
proof fn lemma_balance_store_at(
    s: Seq<BalanceEntryV>,
    channel_id: u32,
    denom: Seq<char>,
    amount: U256,
    i: int,
)
    requires
        0 <= i < s.len(),
        s[i].channel_id == channel_id && s[i].denom == denom,
        forall|j: int|
            0 <= j < i ==> !(#[trigger] s[j].channel_id == channel_id && s[j].denom == denom),
    ensures
        balance_store(s, channel_id, denom, amount) =~= s.update(
            i,
            BalanceEntryV { channel_id, denom, amount },
        ),
    decreases i,
{
    if i == 0 {
        assert(balance_store(s, channel_id, denom, amount) =~= s.update(
            0,
            BalanceEntryV { channel_id, denom, amount },
        ));
    } else {
        assert(s.drop_first()[i - 1] == s[i]);
        assert(forall|j: int|
            0 <= j < i - 1 ==> !(#[trigger] s.drop_first()[j].channel_id == channel_id
                && s.drop_first()[j].denom == denom)) by {
            assert(forall|j: int| 0 <= j < i - 1 ==> s.drop_first()[j] == s[j + 1]);
        }
        lemma_balance_store_at(s.drop_first(), channel_id, denom, amount, i - 1);
        assert(balance_store(s, channel_id, denom, amount) =~= s.update(
            i,
            BalanceEntryV { channel_id, denom, amount },
        ));
    }
}

/// Storing under an absent key appends.
proof fn lemma_balance_store_absent(
    s: Seq<BalanceEntryV>,
    channel_id: u32,
    denom: Seq<char>,
    amount: U256,
)
    requires
        forall|j: int|
            0 <= j < s.len() ==> !(#[trigger] s[j].channel_id == channel_id && s[j].denom
                == denom),
    ensures
        balance_store(s, channel_id, denom, amount) =~= s.push(
            BalanceEntryV { channel_id, denom, amount },
        ),
    decreases s.len(),
{
    if s.len() == 0 {
    } else {
        assert(forall|j: int| 0 <= j < s.len() - 1 ==> s.drop_first()[j] == s[j + 1]);
        lemma_balance_store_absent(s.drop_first(), channel_id, denom, amount);
    }
}

/// A stored amount is what a later lookup finds.
pub proof fn lemma_balance_store_lookup(
    s: Seq<BalanceEntryV>,
    channel_id: u32,
    denom: Seq<char>,
    amount: U256,
)
    ensures
        balance_lookup(balance_store(s, channel_id, denom, amount), channel_id, denom) == Some(
            amount,
        ),
    decreases s.len(),
{
    if s.len() == 0 {
    } else if s[0].channel_id == channel_id && s[0].denom == denom {
    } else {
        lemma_balance_store_lookup(s.drop_first(), channel_id, denom, amount);
        assert(balance_store(s, channel_id, denom, amount).drop_first() =~= balance_store(
            s.drop_first(),
            channel_id,
            denom,
            amount,
        ));
    }
}

} // verus!
