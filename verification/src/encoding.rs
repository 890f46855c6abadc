//! Byte- and string-level encodings shared by the signing pipeline and the
//! position reconciler: big-endian words, decimal numerals, and hex.

use vstd::prelude::*;

verus! {

/// `256^len`: the number of values a `len`-byte word can hold.
pub open spec fn pow256(len: nat) -> nat
    decreases len,
{
    if len == 0 {
        1
    } else {
        256 * pow256((len - 1) as nat)
    }
}

/// A power of 256 is positive.
pub proof fn lemma_pow256_pos(n: nat)
    ensures
        pow256(n) >= 1,
    decreases n,
{
    if n > 0 {
        lemma_pow256_pos((n - 1) as nat);
    }
}

/// Powers of 256 grow with the exponent.
pub proof fn lemma_pow256_mono(a: nat, b: nat)
    requires
        a <= b,
    ensures
        pow256(a) <= pow256(b),
    decreases b,
{
    if a < b {
        lemma_pow256_mono(a, (b - 1) as nat);
        lemma_pow256_pos((b - 1) as nat);
    }
}

/// Every `u64` fits in a 32-byte word.
pub proof fn lemma_u64_fits_word(x: u64)
    ensures
        x < pow256(32),
{
    assert(pow256(8) == 0x1_0000_0000_0000_0000) by {
        reveal_with_fuel(pow256, 9);
    }
    lemma_pow256_mono(8, 32);
}

/// The big-endian base-256 digits of `x`, on exactly `len` bytes.
/// The most significant byte comes first; values that need fewer than `len`
/// bytes are left-padded with zeros.
pub open spec fn spec_be_bytes(x: nat, len: nat) -> Seq<u8>
    decreases len,
{
    if len == 0 {
        Seq::empty()
    } else {
        spec_be_bytes(x / 256, (len - 1) as nat).push((x % 256) as u8)
    }
}

/// A big-endian encoding has exactly the requested length.
pub proof fn lemma_be_bytes_len(x: nat, len: nat)
    ensures
        spec_be_bytes(x, len).len() == len,
    decreases len,
{
    if len > 0 {
        lemma_be_bytes_len(x / 256, (len - 1) as nat);
    }
}

/// Two values below `256^len` with the same `len`-byte big-endian encoding
/// are equal: the encoding loses nothing.
pub proof fn lemma_be_bytes_injective(x: nat, y: nat, len: nat)
    requires
        x < pow256(len),
        y < pow256(len),
        spec_be_bytes(x, len) == spec_be_bytes(y, len),
    ensures
        x == y,
    decreases len,
{
    lemma_be_bytes_len(x, len);
    lemma_be_bytes_len(y, len);
    if len == 0 {
        assert(pow256(0) == 1);
    } else {
        assert(spec_be_bytes(x, len).last() == (x % 256) as u8);
        assert(spec_be_bytes(y, len).last() == (y % 256) as u8);
        assert(spec_be_bytes(x, len).drop_last() =~= spec_be_bytes(x / 256, (len - 1) as nat)) by {
            lemma_be_bytes_len(x / 256, (len - 1) as nat);
        }
        assert(spec_be_bytes(y, len).drop_last() =~= spec_be_bytes(y / 256, (len - 1) as nat)) by {
            lemma_be_bytes_len(y / 256, (len - 1) as nat);
        }
        assert(pow256(len) == 256 * pow256((len - 1) as nat));
        assert(x / 256 < pow256((len - 1) as nat)) by (nonlinear_arith)
            requires
                x < 256 * pow256((len - 1) as nat),
        ;
        assert(y / 256 < pow256((len - 1) as nat)) by (nonlinear_arith)
            requires
                y < 256 * pow256((len - 1) as nat),
        ;
        lemma_be_bytes_injective(x / 256, y / 256, (len - 1) as nat);
        assert(x == 256 * (x / 256) + x % 256) by (nonlinear_arith);
        assert(y == 256 * (y / 256) + y % 256) by (nonlinear_arith);
    }
}

/// Splitting a value at a byte boundary splits its encoding: the high part's
/// digits come first, then the low part's.
pub proof fn lemma_be_bytes_split(hi: nat, lo: nat, hi_len: nat, lo_len: nat)
    requires
        lo < pow256(lo_len),
    ensures
        spec_be_bytes((hi * pow256(lo_len) + lo) as nat, hi_len + lo_len)
            == spec_be_bytes(hi, hi_len) + spec_be_bytes(lo, lo_len),
    decreases lo_len,
{
    lemma_be_bytes_len(hi, hi_len);
    lemma_be_bytes_len(lo, lo_len);
    if lo_len == 0 {
        assert(pow256(0) == 1);
        assert(hi * 1 == hi) by (nonlinear_arith);
        assert(spec_be_bytes(hi, hi_len) + spec_be_bytes(lo, lo_len)
            =~= spec_be_bytes(hi, hi_len));
    } else {
        let m1 = (lo_len - 1) as nat;
        let v: nat = (hi * pow256(lo_len) + lo) as nat;
        assert(pow256(lo_len) == 256 * pow256(m1));
        assert(v == 256 * (hi * pow256(m1) + lo / 256) + lo % 256) by (nonlinear_arith)
            requires
                pow256(lo_len) == 256 * pow256(m1),
                v == hi * pow256(lo_len) + lo,
        ;
        assert(v / 256 == hi * pow256(m1) + lo / 256 && v % 256 == lo % 256)
            by (nonlinear_arith)
            requires
                v == 256 * (hi * pow256(m1) + lo / 256) + lo % 256,
        ;
        assert(lo / 256 < pow256(m1)) by (nonlinear_arith)
            requires
                lo < 256 * pow256(m1),
        ;
        lemma_be_bytes_split(hi, lo / 256, hi_len, m1);
        assert(spec_be_bytes(lo, lo_len) == spec_be_bytes(lo / 256, m1).push((lo % 256) as u8));
        assert(hi_len + lo_len == (hi_len + m1) + 1);
        assert(spec_be_bytes(v, hi_len + lo_len)
            == spec_be_bytes(v / 256, hi_len + m1).push((v % 256) as u8));
        assert(spec_be_bytes(hi, hi_len) + spec_be_bytes(lo, lo_len)
            =~= (spec_be_bytes(hi, hi_len) + spec_be_bytes(lo / 256, m1)).push((lo % 256) as u8));
    }
}

/// The `len`-byte big-endian encoding of `x`, most significant byte first.
pub fn be_bytes_u128(x: u128, len: usize) -> (r: Vec<u8>)
    ensures
        r@ == spec_be_bytes(x as nat, len as nat),
        r@.len() == len,
    decreases len,
{
    proof {
        lemma_be_bytes_len(x as nat, len as nat);
    }
    if len == 0 {
        Vec::new()
    } else {
        let mut r = be_bytes_u128(x / 256, len - 1);
        r.push((x % 256) as u8);
        r
    }
}

/// The decimal digit characters of `n`, most significant first, with no
/// leading zeros (the numeral of zero is "0").
pub open spec fn spec_dec_digits(n: nat) -> Seq<char>
    decreases n,
{
    if n < 10 {
        seq![spec_digit_char(n)]
    } else {
        spec_dec_digits(n / 10) + seq![spec_digit_char(n % 10)]
    }
}

/// The character of a single decimal digit.
pub open spec fn spec_digit_char(d: nat) -> char {
    ((48 + d % 10) as u8) as char
}

/// Appends one character to a string.
///
/// Relies on std's `String::push`, which appends the given character.
#[verifier::external_body]
pub(crate) fn string_push(s: &mut String, c: char)
    ensures
        final(s)@ == old(s)@ + seq![c],
{
    s.push(c);
}

/// Writes `n` in decimal, most significant digit first.
pub fn u128_to_dec_string(n: u128) -> (r: String)
    ensures
        r@ == spec_dec_digits(n as nat),
    decreases n,
{
    if n < 10 {
        let mut s = String::new();
        string_push(&mut s, (48 + n as u8) as char);
        proof {
            assert(s@ =~= spec_dec_digits(n as nat));
        }
        s
    } else {
        let mut s = u128_to_dec_string(n / 10);
        string_push(&mut s, (48 + (n % 10) as u8) as char);
        proof {
            assert(s@ =~= spec_dec_digits(n as nat));
        }
        s
    }
}

/// Writes `n` in decimal.
pub fn u64_to_dec_string(n: u64) -> (r: String)
    ensures
        r@ == spec_dec_digits(n as nat),
{
    u128_to_dec_string(n as u128)
}

/// The character of one hex nibble, lower case.
pub open spec fn spec_hex_char(d: nat) -> char {
    if d % 16 < 10 {
        ((48 + d % 16) as u8) as char
    } else {
        ((87 + d % 16) as u8) as char
    }
}

/// The lower-case hex encoding of a byte sequence: two digits per byte, high
/// nibble first.
pub open spec fn spec_hex(s: Seq<u8>) -> Seq<char>
    decreases s.len(),
{
    if s.len() == 0 {
        Seq::empty()
    } else {
        seq![
            spec_hex_char((s.first() / 16) as nat),
            spec_hex_char((s.first() % 16) as nat),
        ] + spec_hex(s.drop_first())
    }
}

/// Encodes bytes as lower-case hex.
///
/// Relies on `hex::encode`: two lower-case digits per input byte, high nibble
/// first, so the output is exactly twice as long as the input.
#[verifier::external_body]
fn hex_encode(b: &[u8]) -> (r: String)
    ensures
        r@ == spec_hex(b@),
{
    hex::encode(b)
}

/// Encodes bytes as lower-case hex with a `0x` prefix, the conventional wire
/// form of addresses and signatures.
pub fn hex_0x(b: &Vec<u8>) -> (r: String)
    ensures
        r@ == "0x"@ + spec_hex(b@),
{
    let mut s = String::new();
    s.append("0x");
    let h = hex_encode(b.as_slice());
    s.append(h.as_str());
    s
}

} // verus!
