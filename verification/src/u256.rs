//! An unsigned 256-bit integer made of four 64-bit limbs, least significant
//! first.  Token amounts, origin paths and acknowledgement tags are values of
//! this type; its mathematical value is given by [`U256::as_nat`].

use vstd::prelude::*;

verus! {

use vstd::arithmetic::div_mod::lemma_fundamental_div_mod_converse;
use vstd::arithmetic::mul::lemma_mul_inequality;

#[derive(Clone, Copy, Debug, PartialEq, Eq, Structural)]
pub struct U256 {
    pub w0: u64,
    pub w1: u64,
    pub w2: u64,
    pub w3: u64,
}

impl U256 {
    /// The mathematical value: little-endian base-2^64 digits.
    pub open spec fn as_nat(self) -> nat {
        (self.w0 as int + self.w1 as int * 0x10000000000000000int + self.w2 as int
            * 0x100000000000000000000000000000000int + self.w3 as int
            * 0x1000000000000000000000000000000000000000000000000int) as nat
    }

    pub fn zero() -> (r: U256)
        ensures
            r.as_nat() == 0,
    {
        U256 { w0: 0, w1: 0, w2: 0, w3: 0 }
    }

    pub fn from_u64(x: u64) -> (r: U256)
        ensures
            r.as_nat() == x,
            r == (U256 { w0: x, w1: 0, w2: 0, w3: 0 }),
    {
        U256 { w0: x, w1: 0, w2: 0, w3: 0 }
    }

    pub fn from_u32(x: u32) -> (r: U256)
        ensures
            r.as_nat() == x,
            r == (U256 { w0: x as u64, w1: 0, w2: 0, w3: 0 }),
    {
        U256 { w0: x as u64, w1: 0, w2: 0, w3: 0 }
    }

    pub fn from_u128(x: u128) -> (r: U256)
        ensures
            r.as_nat() == x,
    {
        let w0 = (x % 0x10000000000000000) as u64;
        let w1 = (x / 0x10000000000000000) as u64;
        proof {
            lemma_fundamental_div_mod_converse(
                x as int,
                0x10000000000000000,
                (x / 0x10000000000000000) as int,
                (x % 0x10000000000000000) as int,
            );
        }
        U256 { w0, w1, w2: 0, w3: 0 }
    }

    /// The value as a `u128`, when it fits.
    pub fn try_to_u128(&self) -> (r: Option<u128>)
        ensures
            r is Some <==> self.as_nat() < 0x100000000000000000000000000000000int,
            r matches Some(v) ==> v == self.as_nat(),
    {
        if self.w2 == 0 && self.w3 == 0 {
            Some((self.w1 as u128) * 0x10000000000000000 + self.w0 as u128)
        } else {
            proof {
                if self.w2 != 0 {
                    lemma_mul_inequality(
                        1,
                        self.w2 as int,
                        0x100000000000000000000000000000000int,
                    );
                }
                if self.w3 != 0 {
                    lemma_mul_inequality(
                        1,
                        self.w3 as int,
                        0x1000000000000000000000000000000000000000000000000int,
                    );
                }
            }
            None
        }
    }

    pub fn is_zero(&self) -> (r: bool)
        ensures
            r == (self.as_nat() == 0),
    {
        proof {
            lemma_limb_scale(self.w1 as int, 0x10000000000000000int);
            lemma_limb_scale(self.w2 as int, 0x100000000000000000000000000000000int);
            lemma_limb_scale(self.w3 as int, 0x1000000000000000000000000000000000000000000000000int);
        }
        self.w0 == 0 && self.w1 == 0 && self.w2 == 0 && self.w3 == 0
    }

    /// Structural equality agrees with equality of values.
    pub fn same(&self, other: &U256) -> (r: bool)
        ensures
            r == (self.as_nat() == other.as_nat()),
            r == (*self == *other),
    {
        proof {
            lemma_as_nat_injective(*self, *other);
        }
        self.w0 == other.w0 && self.w1 == other.w1 && self.w2 == other.w2 && self.w3 == other.w3
    }

    pub fn lt(&self, other: &U256) -> (r: bool)
        ensures
            r == (self.as_nat() < other.as_nat()),
    {
        proof {
            lemma_lt_by_limbs(*self, *other);
        }
        if self.w3 != other.w3 {
            self.w3 < other.w3
        } else if self.w2 != other.w2 {
            self.w2 < other.w2
        } else if self.w1 != other.w1 {
            self.w1 < other.w1
        } else {
            self.w0 < other.w0
        }
    }

    /// `self - other`, or `None` on underflow.
    pub fn checked_sub(&self, other: &U256) -> (r: Option<U256>)
        ensures
            r is Some <==> other.as_nat() <= self.as_nat(),
            r matches Some(v) ==> v.as_nat() == self.as_nat() - other.as_nat(),
    {
        let (d0, b0) = sub_borrow(self.w0, other.w0, false);
        let (d1, b1) = sub_borrow(self.w1, other.w1, b0);
        let (d2, b2) = sub_borrow(self.w2, other.w2, b1);
        let (d3, b3) = sub_borrow(self.w3, other.w3, b2);
        let d = U256 { w0: d0, w1: d1, w2: d2, w3: d3 };
        proof {
            lemma_chain_sub(*self, *other, d, b0, b1, b2, b3);
        }
        if b3 {
            None
        } else {
            Some(d)
        }
    }

    /// `self + other`, or `None` on overflow past 2^256.
    pub fn checked_add(&self, other: &U256) -> (r: Option<U256>)
        ensures
            r is Some <==> self.as_nat() + other.as_nat()
                < 0x10000000000000000000000000000000000000000000000000000000000000000int,
            r matches Some(v) ==> v.as_nat() == self.as_nat() + other.as_nat(),
    {
        let (d0, c0) = add_carry(self.w0, other.w0, false);
        let (d1, c1) = add_carry(self.w1, other.w1, c0);
        let (d2, c2) = add_carry(self.w2, other.w2, c1);
        let (d3, c3) = add_carry(self.w3, other.w3, c2);
        let d = U256 { w0: d0, w1: d1, w2: d2, w3: d3 };
        proof {
            lemma_chain_add(*self, *other, d, c0, c1, c2, c3);
        }
        if c3 {
            None
        } else {
            Some(d)
        }
    }

    /// The unique limb vector denoting `n`, for `n` below 2^256.
    pub open spec fn from_nat(n: nat) -> U256 {
        U256 {
            w0: (n % 0x10000000000000000nat) as u64,
            w1: ((n / 0x10000000000000000nat) % 0x10000000000000000nat) as u64,
            w2: ((n / 0x100000000000000000000000000000000nat) % 0x10000000000000000nat) as u64,
            w3: ((n / 0x1000000000000000000000000000000000000000000000000nat)
                % 0x10000000000000000nat) as u64,
        }
    }

    /// The value as 32 big-endian bytes.
    pub open spec fn be_bytes(self) -> Seq<u8> {
        u64_be_bytes(self.w3) + u64_be_bytes(self.w2) + u64_be_bytes(self.w1) + u64_be_bytes(
            self.w0,
        )
    }

    pub fn to_be_bytes(&self) -> (r: Vec<u8>)
        ensures
            r@ == self.be_bytes(),
            r@.len() == 32,
    {
        let mut out: Vec<u8> = Vec::new();
        push_u64_be(&mut out, self.w3);
        push_u64_be(&mut out, self.w2);
        push_u64_be(&mut out, self.w1);
        push_u64_be(&mut out, self.w0);
        proof {
            assert(out@ =~= self.be_bytes());
        }
        out
    }
}

/// The eight big-endian bytes of a 64-bit value.
pub open spec fn u64_be_bytes(x: u64) -> Seq<u8> {
    seq![
        ((x / 0x100000000000000) % 0x100) as u8,
        ((x / 0x1000000000000) % 0x100) as u8,
        ((x / 0x10000000000) % 0x100) as u8,
        ((x / 0x100000000) % 0x100) as u8,
        ((x / 0x1000000) % 0x100) as u8,
        ((x / 0x10000) % 0x100) as u8,
        ((x / 0x100) % 0x100) as u8,
        (x % 0x100) as u8,
    ]
}

fn push_u64_be(out: &mut Vec<u8>, x: u64)
    ensures
        final(out)@ == old(out)@ + u64_be_bytes(x),
{
    out.push(((x / 0x100000000000000) % 0x100) as u8);
    out.push(((x / 0x1000000000000) % 0x100) as u8);
    out.push(((x / 0x10000000000) % 0x100) as u8);
    out.push(((x / 0x100000000) % 0x100) as u8);
    out.push(((x / 0x1000000) % 0x100) as u8);
    out.push(((x / 0x10000) % 0x100) as u8);
    out.push(((x / 0x100) % 0x100) as u8);
    out.push((x % 0x100) as u8);
    proof {
        assert(out@ =~= old(out)@ + u64_be_bytes(x));
    }
}

/// One limb of a borrowing subtraction: `a - b - borrow`, wrapping at 2^64.
fn sub_borrow(a: u64, b: u64, borrow: bool) -> (r: (u64, bool))
    ensures
        r.0 as int == a - b - (if borrow {
            1int
        } else {
            0int
        }) + (if r.1 {
            0x10000000000000000int
        } else {
            0int
        }),
{
    let bi: u128 = if borrow {
        1
    } else {
        0
    };
    let t: u128 = (a as u128) + 0x10000000000000000 - (b as u128) - bi;
    if t >= 0x10000000000000000 {
        ((t - 0x10000000000000000) as u64, false)
    } else {
        (t as u64, true)
    }
}

/// One limb of a carrying addition: `a + b + carry`, wrapping at 2^64.
fn add_carry(a: u64, b: u64, carry: bool) -> (r: (u64, bool))
    ensures
        r.0 as int == a + b + (if carry {
            1int
        } else {
            0int
        }) - (if r.1 {
            0x10000000000000000int
        } else {
            0int
        }),
{
    let ci: u128 = if carry {
        1
    } else {
        0
    };
    let t: u128 = (a as u128) + (b as u128) + ci;
    if t >= 0x10000000000000000 {
        ((t - 0x10000000000000000) as u64, true)
    } else {
        (t as u64, false)
    }
}

proof fn lemma_limb_scale(w: int, k: int)
    requires
        0 <= w,
        1 <= k,
    ensures
        w > 0 ==> w * k >= k,
        w * k >= 0,
{
    if w > 0 {
        lemma_mul_inequality(1, w, k);
    }
    vstd::arithmetic::mul::lemma_mul_nonnegative(w, k);
}

/// `from_nat` inverts `as_nat`.
pub proof fn lemma_from_nat_as_nat(a: U256)
    ensures
        U256::from_nat(a.as_nat()) == a,
{
    lemma_limbs_from_nat(a);
    let n = a.as_nat();
    assert(a.w3 < 0x10000000000000000);
    vstd::arithmetic::div_mod::lemma_small_mod(
        a.w3 as nat,
        0x10000000000000000nat,
    );
    assert(U256::from_nat(n).w0 == a.w0);
    assert(U256::from_nat(n).w1 == a.w1);
    assert(U256::from_nat(n).w2 == a.w2);
    assert(U256::from_nat(n).w3 == a.w3);
}

/// Distinct limb vectors denote distinct values.
pub proof fn lemma_as_nat_injective(a: U256, b: U256)
    ensures
        (a.as_nat() == b.as_nat()) <==> (a == b),
{
    if a.as_nat() == b.as_nat() && a != b {
        let n = a.as_nat() as int;
        lemma_limbs_from_nat(a);
        lemma_limbs_from_nat(b);
        assert(a.w0 == b.w0 && a.w1 == b.w1 && a.w2 == b.w2 && a.w3 == b.w3);
    }
}

/// Each limb is determined by the value.
proof fn lemma_limbs_from_nat(a: U256)
    ensures
        a.w0 == a.as_nat() as int % 0x10000000000000000int,
        a.w1 == (a.as_nat() as int / 0x10000000000000000int) % 0x10000000000000000int,
        a.w2 == (a.as_nat() as int / 0x100000000000000000000000000000000int)
            % 0x10000000000000000int,
        a.w3 == a.as_nat() as int / 0x1000000000000000000000000000000000000000000000000int,
{
    let k: int = 0x10000000000000000;
    let n = a.as_nat() as int;
    let q1 = a.w1 + a.w2 * k + a.w3 * (k * k);
    assert(n == q1 * k + a.w0) by (nonlinear_arith)
        requires
            n == a.w0 + a.w1 * k + a.w2 * (k * k) + a.w3 * (k * k * k),
            q1 == a.w1 + a.w2 * k + a.w3 * (k * k),
    ;
    assert(0 <= q1) by (nonlinear_arith)
        requires
            q1 == a.w1 + a.w2 * k + a.w3 * (k * k),
            0 <= a.w1,
            0 <= a.w2,
            0 <= a.w3,
            k == 0x10000000000000000,
    ;
    lemma_fundamental_div_mod_converse(n, k, q1, a.w0 as int);
    let q2 = a.w2 + a.w3 * k;
    assert(q1 == q2 * k + a.w1) by (nonlinear_arith)
        requires
            q1 == a.w1 + a.w2 * k + a.w3 * (k * k),
            q2 == a.w2 + a.w3 * k,
    ;
    assert(0 <= q2) by (nonlinear_arith)
        requires
            q2 == a.w2 + a.w3 * k,
            0 <= a.w2,
            0 <= a.w3,
            k == 0x10000000000000000,
    ;
    lemma_fundamental_div_mod_converse(q1, k, q2, a.w1 as int);
    lemma_fundamental_div_mod_converse(q2, k, a.w3 as int, a.w2 as int);
    assert(n / 0x100000000000000000000000000000000int == q2) by (nonlinear_arith)
        requires
            n / k == q1,
            q1 / k == q2,
            n >= 0,
            k == 0x10000000000000000,
    {
        vstd::arithmetic::div_mod::lemma_div_denominator(n, k, k);
    }
    assert(q1 / 0x10000000000000000int == q2);
    assert(q2 / 0x10000000000000000int == a.w3);
    assert(n / 0x1000000000000000000000000000000000000000000000000int == a.w3) by {
        vstd::arithmetic::div_mod::lemma_div_denominator(
            n,
            0x100000000000000000000000000000000int,
            k,
        );
    }
}

/// Limb-lexicographic comparison agrees with value comparison.
proof fn lemma_lt_by_limbs(a: U256, b: U256)
    ensures
        a.w3 < b.w3 ==> a.as_nat() < b.as_nat(),
        a.w3 == b.w3 && a.w2 < b.w2 ==> a.as_nat() < b.as_nat(),
        a.w3 == b.w3 && a.w2 == b.w2 && a.w1 < b.w1 ==> a.as_nat() < b.as_nat(),
        a.w3 == b.w3 && a.w2 == b.w2 && a.w1 == b.w1 ==> (a.as_nat() < b.as_nat() <==> a.w0
            < b.w0),
{
    let k: int = 0x10000000000000000;
    assert(a.as_nat() < b.as_nat() <== a.w3 < b.w3) by (nonlinear_arith)
        requires
            a.w0 < k,
            a.w1 < k,
            a.w2 < k,
            0 <= a.w0,
            0 <= a.w1,
            0 <= a.w2,
            0 <= b.w1,
            0 <= b.w2,
            0 <= b.w0,
            k == 0x10000000000000000,
            a.as_nat() == a.w0 + a.w1 * k + a.w2 * (k * k) + a.w3 * (k * k * k),
            b.as_nat() == b.w0 + b.w1 * k + b.w2 * (k * k) + b.w3 * (k * k * k),
    ;
    assert(a.as_nat() < b.as_nat() <== a.w3 == b.w3 && a.w2 < b.w2) by (nonlinear_arith)
        requires
            a.w0 < k,
            a.w1 < k,
            0 <= a.w0,
            0 <= a.w1,
            0 <= b.w0,
            0 <= b.w1,
            k == 0x10000000000000000,
            a.as_nat() == a.w0 + a.w1 * k + a.w2 * (k * k) + a.w3 * (k * k * k),
            b.as_nat() == b.w0 + b.w1 * k + b.w2 * (k * k) + b.w3 * (k * k * k),
    ;
    assert(a.as_nat() < b.as_nat() <== a.w3 == b.w3 && a.w2 == b.w2 && a.w1 < b.w1)
        by (nonlinear_arith)
        requires
            a.w0 < k,
            0 <= a.w0,
            0 <= b.w0,
            k == 0x10000000000000000,
            a.as_nat() == a.w0 + a.w1 * k + a.w2 * (k * k) + a.w3 * (k * k * k),
            b.as_nat() == b.w0 + b.w1 * k + b.w2 * (k * k) + b.w3 * (k * k * k),
    ;
    if a.w3 == b.w3 && a.w2 == b.w2 && a.w1 == b.w1 {
        assert(a.as_nat() < b.as_nat() <==> a.w0 < b.w0) by (nonlinear_arith)
            requires
                a.w3 == b.w3,
                a.w2 == b.w2,
                a.w1 == b.w1,
                k == 0x10000000000000000,
                a.as_nat() == a.w0 + a.w1 * k + a.w2 * (k * k) + a.w3 * (k * k * k),
                b.as_nat() == b.w0 + b.w1 * k + b.w2 * (k * k) + b.w3 * (k * k * k),
        ;
    }
}

/// The borrow chain computes the difference, displaced by 2^256 on underflow.
proof fn lemma_chain_sub(a: U256, b: U256, d: U256, b0: bool, b1: bool, b2: bool, b3: bool)
    requires
        d.w0 as int == a.w0 - b.w0 + (if b0 {
            0x10000000000000000int
        } else {
            0int
        }),
        d.w1 as int == a.w1 - b.w1 - (if b0 {
            1int
        } else {
            0int
        }) + (if b1 {
            0x10000000000000000int
        } else {
            0int
        }),
        d.w2 as int == a.w2 - b.w2 - (if b1 {
            1int
        } else {
            0int
        }) + (if b2 {
            0x10000000000000000int
        } else {
            0int
        }),
        d.w3 as int == a.w3 - b.w3 - (if b2 {
            1int
        } else {
            0int
        }) + (if b3 {
            0x10000000000000000int
        } else {
            0int
        }),
    ensures
        !b3 ==> d.as_nat() == a.as_nat() - b.as_nat(),
        b3 ==> b.as_nat() > a.as_nat(),
{
    let k: int = 0x10000000000000000;
    let bb3: int = if b3 {
        1
    } else {
        0
    };
    assert(d.as_nat() == a.as_nat() - b.as_nat() + bb3 * (k * k * k * k)) by (nonlinear_arith)
        requires
            d.w0 as int == a.w0 - b.w0 + (if b0 {
                k
            } else {
                0int
            }),
            d.w1 as int == a.w1 - b.w1 - (if b0 {
                1int
            } else {
                0int
            }) + (if b1 {
                k
            } else {
                0int
            }),
            d.w2 as int == a.w2 - b.w2 - (if b1 {
                1int
            } else {
                0int
            }) + (if b2 {
                k
            } else {
                0int
            }),
            d.w3 as int == a.w3 - b.w3 - (if b2 {
                1int
            } else {
                0int
            }) + (if b3 {
                k
            } else {
                0int
            }),
            bb3 == (if b3 {
                1int
            } else {
                0int
            }),
            k == 0x10000000000000000,
            d.as_nat() == d.w0 + d.w1 * k + d.w2 * (k * k) + d.w3 * (k * k * k),
            a.as_nat() == a.w0 + a.w1 * k + a.w2 * (k * k) + a.w3 * (k * k * k),
            b.as_nat() == b.w0 + b.w1 * k + b.w2 * (k * k) + b.w3 * (k * k * k),
    ;
    if b3 {
        assert(d.as_nat() < k * k * k * k) by (nonlinear_arith)
            requires
                d.w0 < k,
                d.w1 < k,
                d.w2 < k,
                d.w3 < k,
                0 <= d.w0,
                0 <= d.w1,
                0 <= d.w2,
                0 <= d.w3,
                k == 0x10000000000000000,
                d.as_nat() == d.w0 + d.w1 * k + d.w2 * (k * k) + d.w3 * (k * k * k),
        ;
    }
}

/// The carry chain computes the sum, reduced by 2^256 on overflow.
proof fn lemma_chain_add(a: U256, b: U256, d: U256, c0: bool, c1: bool, c2: bool, c3: bool)
    requires
        d.w0 as int == a.w0 + b.w0 - (if c0 {
            0x10000000000000000int
        } else {
            0int
        }),
        d.w1 as int == a.w1 + b.w1 + (if c0 {
            1int
        } else {
            0int
        }) - (if c1 {
            0x10000000000000000int
        } else {
            0int
        }),
        d.w2 as int == a.w2 + b.w2 + (if c1 {
            1int
        } else {
            0int
        }) - (if c2 {
            0x10000000000000000int
        } else {
            0int
        }),
        d.w3 as int == a.w3 + b.w3 + (if c2 {
            1int
        } else {
            0int
        }) - (if c3 {
            0x10000000000000000int
        } else {
            0int
        }),
    ensures
        !c3 ==> d.as_nat() == a.as_nat() + b.as_nat(),
        c3 ==> a.as_nat() + b.as_nat()
            >= 0x10000000000000000000000000000000000000000000000000000000000000000int,
{
    let k: int = 0x10000000000000000;
    let cc3: int = if c3 {
        1
    } else {
        0
    };
    assert(d.as_nat() == a.as_nat() + b.as_nat() - cc3 * (k * k * k * k)) by (nonlinear_arith)
        requires
            d.w0 as int == a.w0 + b.w0 - (if c0 {
                k
            } else {
                0int
            }),
            d.w1 as int == a.w1 + b.w1 + (if c0 {
                1int
            } else {
                0int
            }) - (if c1 {
                k
            } else {
                0int
            }),
            d.w2 as int == a.w2 + b.w2 + (if c1 {
                1int
            } else {
                0int
            }) - (if c2 {
                k
            } else {
                0int
            }),
            d.w3 as int == a.w3 + b.w3 + (if c2 {
                1int
            } else {
                0int
            }) - (if c3 {
                k
            } else {
                0int
            }),
            cc3 == (if c3 {
                1int
            } else {
                0int
            }),
            k == 0x10000000000000000,
            d.as_nat() == d.w0 + d.w1 * k + d.w2 * (k * k) + d.w3 * (k * k * k),
            a.as_nat() == a.w0 + a.w1 * k + a.w2 * (k * k) + a.w3 * (k * k * k),
            b.as_nat() == b.w0 + b.w1 * k + b.w2 * (k * k) + b.w3 * (k * k * k),
    ;
}

} // verus!
