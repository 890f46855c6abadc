//! A 256-bit unsigned word on four 64-bit limbs. Token identifiers are
//! 256-bit values carried as decimal strings on the wire; this module parses
//! and prints them and produces the 32-byte big-endian word that the struct
//! hash encodes.

use vstd::prelude::*;
use crate::encoding::{
    be_bytes_u128, spec_be_bytes, lemma_be_bytes_len, lemma_be_bytes_split, pow256,
    spec_dec_digits, string_push, lemma_pow256_mono, lemma_pow256_pos,
};

verus! {

/// A 256-bit word; `l0` is the least significant limb.
#[derive(Clone, Copy, Debug)]
pub struct Uint256 {
    pub l0: u64,
    pub l1: u64,
    pub l2: u64,
    pub l3: u64,
}

impl Uint256 {
    /// The numeric value of the word.
    pub open spec fn spec_value(&self) -> nat {
        (self.l0 + self.l1 * 0x1_0000_0000_0000_0000
            + self.l2 * 0x1_0000_0000_0000_0000_0000_0000_0000_0000
            + self.l3 * 0x1_0000_0000_0000_0000_0000_0000_0000_0000_0000_0000_0000_0000) as nat
    }

    /// The zero word.
    pub fn zero() -> (r: Self)
        ensures
            r.spec_value() == 0,
    {
        Uint256 { l0: 0, l1: 0, l2: 0, l3: 0 }
    }

    /// A word from a 64-bit value.
    pub fn from_u64(x: u64) -> (r: Self)
        ensures
            r.spec_value() == x,
    {
        Uint256 { l0: x, l1: 0, l2: 0, l3: 0 }
    }
}

/// `2^64` equals `256^8`.
proof fn lemma_pow256_8()
    ensures
        pow256(8) == 0x1_0000_0000_0000_0000,
{
    reveal_with_fuel(pow256, 9);
}

/// Every 256-bit word's value is below `256^32`.
pub proof fn lemma_uint256_bound(w: &Uint256)
    ensures
        w.spec_value() < pow256(32),
{
    reveal_with_fuel(pow256, 33);
}

/// Multiplies a word by ten and adds a digit. Returns `None` exactly when
/// the result would not fit in 256 bits.
pub fn mul10_add(w: &Uint256, d: u64) -> (r: Option<Uint256>)
    requires
        d < 10,
    ensures
        r matches Some(v) ==> v.spec_value() == 10 * w.spec_value() + d,
        r is None <==> 10 * w.spec_value() + d >= pow256(32),
{
    let t0: u128 = (w.l0 as u128) * 10 + (d as u128);
    let n0: u64 = (t0 % 0x1_0000_0000_0000_0000) as u64;
    let c0: u128 = t0 / 0x1_0000_0000_0000_0000;
    let t1: u128 = (w.l1 as u128) * 10 + c0;
    let n1: u64 = (t1 % 0x1_0000_0000_0000_0000) as u64;
    let c1: u128 = t1 / 0x1_0000_0000_0000_0000;
    let t2: u128 = (w.l2 as u128) * 10 + c1;
    let n2: u64 = (t2 % 0x1_0000_0000_0000_0000) as u64;
    let c2: u128 = t2 / 0x1_0000_0000_0000_0000;
    let t3: u128 = (w.l3 as u128) * 10 + c2;
    let n3: u64 = (t3 % 0x1_0000_0000_0000_0000) as u64;
    let c3: u128 = t3 / 0x1_0000_0000_0000_0000;
    let v = Uint256 { l0: n0, l1: n1, l2: n2, l3: n3 };
    proof {
        lemma_uint256_bound(w);
        lemma_uint256_bound(&v);
        reveal_with_fuel(pow256, 33);
        assert(10 * w.spec_value() + d
            == v.spec_value()
                + c3 * 0x1_0000_0000_0000_0000_0000_0000_0000_0000_0000_0000_0000_0000_0000_0000_0000_0000)
            by (nonlinear_arith)
            requires
                t0 == (w.l0 as u128) * 10 + (d as u128),
                n0 == t0 % 0x1_0000_0000_0000_0000,
                c0 == t0 / 0x1_0000_0000_0000_0000,
                t1 == (w.l1 as u128) * 10 + c0,
                n1 == t1 % 0x1_0000_0000_0000_0000,
                c1 == t1 / 0x1_0000_0000_0000_0000,
                t2 == (w.l2 as u128) * 10 + c1,
                n2 == t2 % 0x1_0000_0000_0000_0000,
                c2 == t2 / 0x1_0000_0000_0000_0000,
                t3 == (w.l3 as u128) * 10 + c2,
                n3 == t3 % 0x1_0000_0000_0000_0000,
                c3 == t3 / 0x1_0000_0000_0000_0000,
                w.spec_value() == (w.l0 + w.l1 * 0x1_0000_0000_0000_0000
                    + w.l2 * 0x1_0000_0000_0000_0000_0000_0000_0000_0000
                    + w.l3
                        * 0x1_0000_0000_0000_0000_0000_0000_0000_0000_0000_0000_0000_0000) as nat,
                v.spec_value() == (n0 + n1 * 0x1_0000_0000_0000_0000
                    + n2 * 0x1_0000_0000_0000_0000_0000_0000_0000_0000
                    + n3
                        * 0x1_0000_0000_0000_0000_0000_0000_0000_0000_0000_0000_0000_0000) as nat,
        ;
    }
    if c3 != 0 {
        None
    } else {
        Some(v)
    }
}

/// Divides a word by ten, returning the quotient and the remainder digit.
pub fn divmod10(w: &Uint256) -> (r: (Uint256, u64))
    ensures
        r.0.spec_value() == w.spec_value() / 10,
        r.1 == w.spec_value() % 10,
        r.0.spec_value() < w.spec_value() || w.spec_value() == 0,
{
    let cur3: u128 = w.l3 as u128;
    let q3: u64 = (cur3 / 10) as u64;
    let r3: u128 = cur3 % 10;
    let cur2: u128 = r3 * 0x1_0000_0000_0000_0000 + (w.l2 as u128);
    let q2: u64 = (cur2 / 10) as u64;
    let r2: u128 = cur2 % 10;
    let cur1: u128 = r2 * 0x1_0000_0000_0000_0000 + (w.l1 as u128);
    let q1: u64 = (cur1 / 10) as u64;
    let r1: u128 = cur1 % 10;
    let cur0: u128 = r1 * 0x1_0000_0000_0000_0000 + (w.l0 as u128);
    let q0: u64 = (cur0 / 10) as u64;
    let r0: u64 = (cur0 % 10) as u64;
    let q = Uint256 { l0: q0, l1: q1, l2: q2, l3: q3 };
    proof {
        assert(w.spec_value() == 10 * q.spec_value() + r0 && r0 < 10) by (nonlinear_arith)
            requires
                q3 == cur3 / 10 && r3 == cur3 % 10 && cur3 == w.l3 as u128,
                cur2 == r3 * 0x1_0000_0000_0000_0000 + (w.l2 as u128),
                q2 == cur2 / 10 && r2 == cur2 % 10,
                cur1 == r2 * 0x1_0000_0000_0000_0000 + (w.l1 as u128),
                q1 == cur1 / 10 && r1 == cur1 % 10,
                cur0 == r1 * 0x1_0000_0000_0000_0000 + (w.l0 as u128),
                q0 == cur0 / 10 && r0 == cur0 % 10,
                w.spec_value() == (w.l0 + w.l1 * 0x1_0000_0000_0000_0000
                    + w.l2 * 0x1_0000_0000_0000_0000_0000_0000_0000_0000
                    + w.l3
                        * 0x1_0000_0000_0000_0000_0000_0000_0000_0000_0000_0000_0000_0000) as nat,
                q.spec_value() == (q0 + q1 * 0x1_0000_0000_0000_0000
                    + q2 * 0x1_0000_0000_0000_0000_0000_0000_0000_0000
                    + q3
                        * 0x1_0000_0000_0000_0000_0000_0000_0000_0000_0000_0000_0000_0000) as nat,
        ;
        assert(q.spec_value() == w.spec_value() / 10 && r0 == w.spec_value() % 10)
            by (nonlinear_arith)
            requires
                w.spec_value() == 10 * q.spec_value() + r0,
                r0 < 10,
        ;
    }
    (q, r0)
}

/// The value of a string of decimal digits, most significant first.
pub open spec fn spec_dec_value(s: Seq<char>) -> int
    decreases s.len(),
{
    if s.len() == 0 {
        0
    } else {
        spec_dec_value(s.drop_last()) * 10 + (s.last() as int - 48)
    }
}

/// Whether every character of the string is a decimal digit.
pub open spec fn spec_all_digits(s: Seq<char>) -> bool {
    forall|i: int| 0 <= i < s.len() ==> 48 <= #[trigger] s[i] as int <= 57
}

/// The value of a digit string is non-negative and grows (weakly) with each
/// appended digit, so every prefix's value bounds the whole from below.
pub proof fn lemma_dec_value_prefix(s: Seq<char>, k: int)
    requires
        spec_all_digits(s),
        0 <= k <= s.len(),
    ensures
        0 <= spec_dec_value(s.take(k)) <= spec_dec_value(s),
    decreases s.len() - k,
{
    if k == s.len() {
        assert(s.take(k) =~= s);
        lemma_dec_value_nonneg(s);
    } else {
        lemma_dec_value_prefix(s, k + 1);
        let p = s.take(k + 1);
        assert(p.drop_last() =~= s.take(k));
        lemma_dec_value_nonneg(s.take(k));
        assert(spec_dec_value(p) == spec_dec_value(s.take(k)) * 10 + (p.last() as int - 48));
        assert(spec_dec_value(s.take(k)) * 10 >= spec_dec_value(s.take(k))) by (nonlinear_arith)
            requires
                spec_dec_value(s.take(k)) >= 0,
        ;
    }
}

/// The value of a digit string is non-negative.
pub proof fn lemma_dec_value_nonneg(s: Seq<char>)
    requires
        spec_all_digits(s),
    ensures
        spec_dec_value(s) >= 0,
    decreases s.len(),
{
    if s.len() > 0 {
        assert(spec_all_digits(s.drop_last()));
        lemma_dec_value_nonneg(s.drop_last());
        assert(spec_dec_value(s.drop_last()) * 10 >= 0) by (nonlinear_arith)
            requires
                spec_dec_value(s.drop_last()) >= 0,
        ;
    }
}

/// Parses a decimal numeral into a 256-bit word. Returns `None` exactly when
/// the string is empty, holds a character that is not a decimal digit, or
/// names a value of 256 bits or more.
pub fn parse_u256_dec(s: &str) -> (r: Option<Uint256>)
    ensures
        r is Some <==> s@.len() > 0 && spec_all_digits(s@) && spec_dec_value(s@) < pow256(32),
        r matches Some(w) ==> w.spec_value() == spec_dec_value(s@),
{
    let n = s.unicode_len();
    if n == 0 {
        return None;
    }
    let mut w = Uint256::zero();
    let mut i: usize = 0;
    while i < n
        invariant
            n == s@.len(),
            0 <= i <= n,
            spec_all_digits(s@.take(i as int)),
            w.spec_value() == spec_dec_value(s@.take(i as int)),
        decreases n - i,
    {
        let c = s.get_char(i);
        let cv = c as u32;
        if cv < 48 || cv > 57 {
            proof {
                assert(s@[i as int] == c);
                assert(!spec_all_digits(s@));
            }
            return None;
        }
        let d: u64 = (cv - 48) as u64;
        let next = mul10_add(&w, d);
        proof {
            assert(s@.take(i + 1).drop_last() =~= s@.take(i as int));
            assert(s@.take(i + 1).last() == s@[i as int]);
        }
        match next {
            Some(v) => {
                w = v;
            },
            None => {
                proof {
                    if spec_all_digits(s@) {
                        lemma_dec_value_prefix(s@, i + 1);
                    }
                }
                return None;
            },
        }
        i += 1;
    }
    proof {
        assert(s@.take(n as int) =~= s@);
        lemma_uint256_bound(&w);
    }
    Some(w)
}

/// The 32-byte big-endian encoding of the word.
pub fn u256_to_be_bytes(w: &Uint256) -> (r: Vec<u8>)
    ensures
        r@ == spec_be_bytes(w.spec_value(), 32),
        r@.len() == 32,
{
    let mut r = be_bytes_u128(w.l3 as u128, 8);
    let mut b2 = be_bytes_u128(w.l2 as u128, 8);
    let mut b1 = be_bytes_u128(w.l1 as u128, 8);
    let mut b0 = be_bytes_u128(w.l0 as u128, 8);
    r.append(&mut b2);
    r.append(&mut b1);
    r.append(&mut b0);
    proof {
        lemma_pow256_8();
        let p64: nat = 0x1_0000_0000_0000_0000;
        let hi2: nat = (w.l2 + w.l3 * p64) as nat;
        let hi1: nat = (w.l1 + hi2 * p64) as nat;
        assert(w.spec_value() == (w.l0 + hi1 * p64) as nat) by (nonlinear_arith)
            requires
                hi2 == (w.l2 + w.l3 * p64) as nat,
                hi1 == (w.l1 + hi2 * p64) as nat,
                p64 == 0x1_0000_0000_0000_0000,
                w.spec_value() == (w.l0 + w.l1 * 0x1_0000_0000_0000_0000
                    + w.l2 * 0x1_0000_0000_0000_0000_0000_0000_0000_0000
                    + w.l3
                        * 0x1_0000_0000_0000_0000_0000_0000_0000_0000_0000_0000_0000_0000) as nat,
        ;
        lemma_be_bytes_split(w.l3 as nat, w.l2 as nat, 8, 8);
        assert(spec_be_bytes(hi2, 16)
            == spec_be_bytes(w.l3 as nat, 8) + spec_be_bytes(w.l2 as nat, 8));
        lemma_be_bytes_split(hi2, w.l1 as nat, 16, 8);
        assert(spec_be_bytes(hi1, 24) == spec_be_bytes(hi2, 16) + spec_be_bytes(w.l1 as nat, 8));
        lemma_be_bytes_split(hi1, w.l0 as nat, 24, 8);
        assert(spec_be_bytes(w.spec_value(), 32)
            == spec_be_bytes(hi1, 24) + spec_be_bytes(w.l0 as nat, 8));
        assert(r@ =~= spec_be_bytes(w.spec_value(), 32));
    }
    r
}

/// Writes the word in decimal, most significant digit first.
pub fn u256_to_dec_string(w: &Uint256) -> (r: String)
    ensures
        r@ == spec_dec_digits(w.spec_value()),
    decreases w.spec_value(),
{
    let (q, d) = divmod10(w);
    if q.l0 == 0 && q.l1 == 0 && q.l2 == 0 && q.l3 == 0 {
        let mut s = String::new();
        string_push(&mut s, (48 + d as u8) as char);
        proof {
            assert(w.spec_value() < 10);
            assert(s@ =~= spec_dec_digits(w.spec_value()));
        }
        s
    } else {
        let mut s = u256_to_dec_string(&q);
        string_push(&mut s, (48 + d as u8) as char);
        proof {
            assert(w.spec_value() >= 10) by (nonlinear_arith)
                requires
                    q.spec_value() == w.spec_value() / 10,
                    q.spec_value() > 0,
            ;
            assert(s@ =~= spec_dec_digits(w.spec_value()));
        }
        s
    }
}

} // verus!
