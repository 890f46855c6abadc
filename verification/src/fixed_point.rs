//! Six-decimal fixed point: parsing decimal numerals into integer counts of
//! millionths, and rendering scaled integers back into fixed-width decimal
//! strings. Prices and sizes cross the wire as decimal strings; the
//! reconciler computes with integers.

use vstd::prelude::*;
use crate::encoding::{spec_dec_digits, string_push, u128_to_dec_string};
use crate::uint256::{spec_all_digits, spec_dec_value, lemma_dec_value_nonneg};

verus! {

/// `10^n`.
pub open spec fn pow10(n: nat) -> nat
    decreases n,
{
    if n == 0 {
        1
    } else {
        10 * pow10((n - 1) as nat)
    }
}

/// The index of the first `.` in a string, or its length if there is none.
pub open spec fn spec_dot_pos(s: Seq<char>) -> int
    decreases s.len(),
{
    if s.len() == 0 {
        0
    } else if s.first() == '.' {
        0
    } else {
        1 + spec_dot_pos(s.drop_first())
    }
}

/// The dot position lies in the string, everything before it is not a dot,
/// and if it lies strictly inside, it points at a dot.
pub proof fn lemma_dot_pos(s: Seq<char>)
    ensures
        0 <= spec_dot_pos(s) <= s.len(),
        forall|i: int| 0 <= i < spec_dot_pos(s) ==> s[i] != '.',
        spec_dot_pos(s) < s.len() ==> s[spec_dot_pos(s)] == '.',
    decreases s.len(),
{
    if s.len() > 0 && s.first() != '.' {
        lemma_dot_pos(s.drop_first());
        assert forall|i: int| 0 <= i < spec_dot_pos(s) implies s[i] != '.' by {
            if i > 0 {
                assert(s.drop_first()[i - 1] == s[i]);
            }
        }
        if spec_dot_pos(s) < s.len() {
            assert(s.drop_first()[spec_dot_pos(s.drop_first())] == s[spec_dot_pos(s)]);
        }
    }
}

/// `10^a` divides into `10^b` when `a <= b`.
proof fn lemma_pow10_mono(a: nat, b: nat)
    requires
        a <= b,
    ensures
        pow10(a) <= pow10(b),
        pow10(a) >= 1,
    decreases b,
{
    if a == b {
        if b > 0 {
            lemma_pow10_mono((a - 1) as nat, (b - 1) as nat);
        }
    } else {
        lemma_pow10_mono(a, (b - 1) as nat);
    }
}

/// The index of the first dot in the string, or its length if none.
fn find_dot(s: &str, n: usize) -> (d: usize)
    requires
        n == s@.len(),
    ensures
        d == spec_dot_pos(s@),
        d <= n,
{
    proof {
        lemma_dot_pos(s@);
    }
    let mut d: usize = 0;
    loop
        invariant
            0 <= d <= n,
            n == s@.len(),
            d <= spec_dot_pos(s@),
        decreases n - d,
    {
        if d == n {
            proof {
                lemma_dot_pos(s@);
            }
            return d;
        }
        if s.get_char(d) == '.' {
            proof {
                lemma_dot_pos(s@);
                if d < spec_dot_pos(s@) {
                    assert(s@[d as int] != '.');
                }
            }
            return d;
        }
        proof {
            lemma_dot_pos(s@);
            if d == spec_dot_pos(s@) {
                assert(s@[spec_dot_pos(s@)] == '.');
            }
        }
        d += 1;
    }
}

/// The fraction digits of a numeral, reduced to millionths: the first six
/// digits, padded with zeros on the right to six places.
pub open spec fn spec_frac_micros(frac: Seq<char>) -> int {
    if frac.len() <= 6 {
        spec_dec_value(frac) * pow10((6 - frac.len()) as nat)
    } else {
        spec_dec_value(frac.take(6))
    }
}

/// The millionths named by a decimal numeral `INT[.FRAC]`: the integer part
/// scaled by a million plus the fraction's millionths, fraction digits
/// beyond the sixth truncated. `None` when the integer part is empty, any
/// character other than the single dot is not a digit, or the value exceeds
/// `u64::MAX`.
pub open spec fn spec_parse_micros(s: Seq<char>) -> Option<u64> {
    let d = spec_dot_pos(s);
    let int_part = s.take(d);
    let frac_part = if d < s.len() {
        s.subrange(d + 1, s.len() as int)
    } else {
        Seq::empty()
    };
    if int_part.len() == 0 || !spec_all_digits(int_part) || !spec_all_digits(frac_part) {
        None
    } else {
        let v = spec_dec_value(int_part) * 1_000_000 + spec_frac_micros(frac_part);
        if v > 0xffff_ffff_ffff_ffff {
            None
        } else {
            Some(v as u64)
        }
    }
}

/// A price read from a trade record, in millionths. A malformed numeral or
/// one outside the price domain [0, 1] contributes nothing: reconciliation
/// never fails on a single bad record.
pub open spec fn spec_price_micros(s: Seq<char>) -> u64 {
    match spec_parse_micros(s) {
        Some(v) => if v <= 1_000_000 {
            v
        } else {
            0u64
        },
        None => 0u64,
    }
}

/// A size read from a trade record, in millionths. A malformed numeral
/// contributes nothing.
pub open spec fn spec_size_micros(s: Seq<char>) -> u64 {
    match spec_parse_micros(s) {
        Some(v) => v,
        None => 0u64,
    }
}

/// `10^e` for small exponents.
fn pow10_u64(e: usize) -> (r: u64)
    requires
        e <= 6,
    ensures
        r == pow10(e as nat),
{
    proof {
        reveal_with_fuel(pow10, 7);
    }
    match e {
        0 => 1,
        1 => 10,
        2 => 100,
        3 => 1_000,
        4 => 10_000,
        5 => 100_000,
        _ => 1_000_000,
    }
}

/// Parses a decimal numeral `INT[.FRAC]` into millionths, truncating the
/// fraction beyond six digits.
pub fn parse_micros(s: &str) -> (r: Option<u64>)
    ensures
        r == spec_parse_micros(s@),
{
    let n = s.unicode_len();
    proof {
        lemma_dot_pos(s@);
    }
    let d = find_dot(s, n);
    if d == 0 {
        return None;
    }
    let ghost int_part = s@.take(d as int);
    // integer part: verify digits, accumulate, and remember if the value
    // outgrew the cap
    let mut v: u128 = 0;
    let mut overflow = false;
    let mut i: usize = 0;
    while i < d
        invariant
            0 <= i <= d <= n,
            n == s@.len(),
            d == spec_dot_pos(s@),
            int_part == s@.take(d as int),
            spec_all_digits(int_part.take(i as int)),
            !overflow ==> v == spec_dec_value(int_part.take(i as int)),
            overflow ==> spec_dec_value(int_part.take(i as int)) > 0xffff_ffff_ffff_ffff,
            v <= 0xffff_ffff_ffff_ffff,
        decreases d - i,
    {
        let c = s.get_char(i);
        let cv = c as u32;
        proof {
            assert(int_part[i as int] == s@[i as int]);
            assert(int_part.take(i + 1).drop_last() =~= int_part.take(i as int));
        }
        if cv < 48 || cv > 57 {
            proof {
                assert(!spec_all_digits(int_part));
            }
            return None;
        }
        if !overflow {
            let next: u128 = v * 10 + (cv - 48) as u128;
            if next > 0xffff_ffff_ffff_ffff {
                overflow = true;
            } else {
                v = next;
            }
        } else {
            proof {
                let prefix = int_part.take(i as int);
                lemma_dec_value_nonneg(prefix);
                assert(spec_dec_value(prefix) * 10 > 10 * 0xffff_ffff_ffff_ffff)
                    by (nonlinear_arith)
                    requires
                        spec_dec_value(prefix) > 0xffff_ffff_ffff_ffff,
                ;
            }
        }
        i += 1;
    }
    proof {
        assert(int_part.take(d as int) =~= int_part);
    }
    // fraction part: verify digits, accumulate the first six
    let mut frac: u64 = 0;
    let mut cnt: usize = 0;
    let ghost frac_part = if (d as int) < s@.len() {
        s@.subrange(d as int + 1, s@.len() as int)
    } else {
        Seq::<char>::empty()
    };
    if d < n {
        let mut j: usize = d + 1;
        while j < n
            invariant
                d < j <= n,
                d < n == s@.len(),
                1 <= d == spec_dot_pos(s@),
                int_part == s@.take(d as int),
                spec_all_digits(int_part),
                frac_part == s@.subrange(d as int + 1, s@.len() as int),
                spec_all_digits(frac_part.take(j - d - 1)),
                cnt == if j - d - 1 <= 6 {
                    j - d - 1
                } else {
                    6int
                },
                frac == spec_dec_value(frac_part.take(cnt as int)),
                frac < pow10(cnt as nat),
                cnt <= 6,
            decreases n - j,
        {
            let c = s.get_char(j);
            let cv = c as u32;
            proof {
                assert(frac_part[j - d - 1] == s@[j as int]);
                assert(frac_part.take(j - d).drop_last() =~= frac_part.take(j - d - 1));
            }
            if cv < 48 || cv > 57 {
                proof {
                    assert(!spec_all_digits(frac_part));
                    assert(d == spec_dot_pos(s@));
                    assert(spec_parse_micros(s@) is None);
                }
                return None;
            }
            if cnt < 6 {
                proof {
                    assert(frac_part.take(cnt + 1).drop_last() =~= frac_part.take(cnt as int));
                    assert(frac_part.take(cnt + 1).last() == frac_part[cnt as int]);
                    reveal_with_fuel(pow10, 7);
                }
                frac = frac * 10 + ((cv - 48) as u64);
                cnt += 1;
            }
            j += 1;
        }
        proof {
            assert(frac_part.take(n - d - 1) =~= frac_part);
        }
    }
    proof {
        if frac_part.len() <= 6 {
            assert(frac_part.take(cnt as int) =~= frac_part);
        } else {
            assert(frac_part.take(cnt as int) =~= frac_part.take(6));
        }
        reveal_with_fuel(pow10, 7);
    }
    let scale = pow10_u64(6 - cnt);
    // combine; if the integer part overflowed, the whole value is over the
    // cap as well
    if overflow {
        proof {
            lemma_dec_value_nonneg(frac_part);
            if frac_part.len() > 6 {
                lemma_dec_value_nonneg(frac_part.take(6));
            }
            assert(spec_dec_value(int_part) * 1_000_000 > 0xffff_ffff_ffff_ffff)
                by (nonlinear_arith)
                requires
                    spec_dec_value(int_part) > 0xffff_ffff_ffff_ffff,
            ;
            assert(spec_frac_micros(frac_part) >= 0) by {
                assert(pow10((6 - frac_part.len()) as nat) >= 0);
                if frac_part.len() <= 6 {
                    assert(spec_dec_value(frac_part) * pow10((6 - frac_part.len()) as nat) >= 0)
                        by (nonlinear_arith)
                        requires
                            spec_dec_value(frac_part) >= 0,
                            pow10((6 - frac_part.len()) as nat) >= 0,
                    ;
                }
            }
        }
        return None;
    }
    proof {
        lemma_pow10_mono(cnt as nat, 6);
        lemma_pow10_mono((6 - cnt) as nat, 6);
        reveal_with_fuel(pow10, 7);
        assert((frac as int) * (scale as int) <= 1_000_000 * 1_000_000) by (nonlinear_arith)
            requires
                0 <= frac <= 1_000_000,
                0 <= scale <= 1_000_000,
        ;
    }
    let total: u128 = v * 1_000_000 + (frac as u128) * (scale as u128);
    proof {
        assert(total == spec_dec_value(int_part) * 1_000_000 + spec_frac_micros(frac_part));
    }
    if total > 0xffff_ffff_ffff_ffff {
        None
    } else {
        Some(total as u64)
    }
}

/// Parses a price string into millionths, treating a malformed numeral or a
/// price outside [0, 1] as zero.
pub fn price_micros(s: &str) -> (r: u64)
    ensures
        r == spec_price_micros(s@),
{
    match parse_micros(s) {
        Some(v) => if v <= 1_000_000 {
            v
        } else {
            0
        },
        None => 0,
    }
}

/// Parses a size string into millionths, treating a malformed numeral as
/// zero.
pub fn size_micros(s: &str) -> (r: u64)
    ensures
        r == spec_size_micros(s@),
{
    match parse_micros(s) {
        Some(v) => v,
        None => 0,
    }
}

/// Exactly `width` decimal digits of `n`, zero-padded on the left; digits of
/// `n` beyond the width are dropped.
pub open spec fn spec_padded_digits(n: nat, width: nat) -> Seq<char>
    decreases width,
{
    if width == 0 {
        Seq::empty()
    } else {
        spec_padded_digits(n / 10, (width - 1) as nat).push(crate::encoding::spec_digit_char(n % 10))
    }
}

/// Writes `n` on exactly `width` digits, zero-padded.
pub fn padded_dec_string(n: u64, width: usize) -> (r: String)
    ensures
        r@ == spec_padded_digits(n as nat, width as nat),
    decreases width,
{
    if width == 0 {
        String::new()
    } else {
        let mut s = padded_dec_string(n / 10, width - 1);
        string_push(&mut s, (48 + (n % 10) as u8) as char);
        proof {
            assert(s@ =~= spec_padded_digits(n as nat, width as nat));
        }
        s
    }
}

/// A scaled integer written with `frac_digits` decimal places: the integer
/// part in decimal, a dot, and the fraction zero-padded to its width. The
/// value is `units / 10^frac_digits`, truncated toward zero.
pub open spec fn spec_fixed_digits(units: nat, frac_digits: nat) -> Seq<char> {
    spec_dec_digits(units / pow10(frac_digits)) + seq!['.'] + spec_padded_digits(
        units % pow10(frac_digits),
        frac_digits,
    )
}

/// A signed scaled integer written with `frac_digits` decimal places, with a
/// leading minus sign when negative.
pub open spec fn spec_signed_fixed_digits(v: int, frac_digits: nat) -> Seq<char> {
    if v < 0 {
        seq!['-'] + spec_fixed_digits((-v) as nat, frac_digits)
    } else {
        spec_fixed_digits(v as nat, frac_digits)
    }
}

/// Writes a scaled integer with four decimal places.
pub fn fixed4_string(neg: bool, units: u128) -> (r: String)
    ensures
        neg ==> r@ == seq!['-'] + spec_fixed_digits(units as nat, 4),
        !neg ==> r@ == spec_fixed_digits(units as nat, 4),
{
    proof {
        reveal_with_fuel(pow10, 5);
    }
    let mut s = String::new();
    if neg {
        string_push(&mut s, '-');
    }
    let ipart = u128_to_dec_string(units / 10_000);
    s.append(ipart.as_str());
    string_push(&mut s, '.');
    let fpart = padded_dec_string((units % 10_000) as u64, 4);
    s.append(fpart.as_str());
    proof {
        if neg {
            assert(s@ =~= seq!['-'] + spec_fixed_digits(units as nat, 4));
        } else {
            assert(s@ =~= spec_fixed_digits(units as nat, 4));
        }
    }
    s
}

/// Writes a scaled integer with six decimal places.
pub fn fixed6_string(neg: bool, units: u128) -> (r: String)
    ensures
        neg ==> r@ == seq!['-'] + spec_fixed_digits(units as nat, 6),
        !neg ==> r@ == spec_fixed_digits(units as nat, 6),
{
    proof {
        reveal_with_fuel(pow10, 7);
    }
    let mut s = String::new();
    if neg {
        string_push(&mut s, '-');
    }
    let ipart = u128_to_dec_string(units / 1_000_000);
    s.append(ipart.as_str());
    string_push(&mut s, '.');
    let fpart = padded_dec_string((units % 1_000_000) as u64, 6);
    s.append(fpart.as_str());
    proof {
        if neg {
            assert(s@ =~= seq!['-'] + spec_fixed_digits(units as nat, 6));
        } else {
            assert(s@ =~= spec_fixed_digits(units as nat, 6));
        }
    }
    s
}

/// Writes a signed value held in units of `10^-6` with six decimal places.
pub fn signed_fixed6_string(v: i128) -> (r: String)
    requires
        v > i128::MIN,
    ensures
        r@ == spec_signed_fixed_digits(v as int, 6),
{
    if v < 0 {
        fixed6_string(true, (-v) as u128)
    } else {
        fixed6_string(false, v as u128)
    }
}

} // verus!
