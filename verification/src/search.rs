//! Market search support: the shapes of the search API's records and the
//! percent-encoding of query strings.

use vstd::prelude::*;
use crate::encoding::string_push;

verus! {

/// A tag attached to search results.
#[derive(Debug, Clone)]
pub struct GammaTag {
    pub id: String,
    pub label: String,
    pub slug: String,
    pub event_count: Option<i32>,
}

/// A trader profile in search results.
#[derive(Debug, Clone)]
pub struct GammaProfile {
    pub id: String,
    pub name: String,
    pub pseudonym: Option<String>,
}

/// Pagination summary of a search response.
#[derive(Debug, Clone)]
pub struct GammaPagination {
    pub has_more: bool,
    pub total_results: i32,
}

/// The upper-case hex digits of `n`, most significant first.
pub open spec fn spec_hex_upper_digits(n: nat) -> Seq<char>
    decreases n,
{
    if n < 16 {
        seq![spec_hex_upper_char(n)]
    } else {
        spec_hex_upper_digits(n / 16) + seq![spec_hex_upper_char(n % 16)]
    }
}

/// The character of one hex digit, upper case.
pub open spec fn spec_hex_upper_char(d: nat) -> char {
    if d % 16 < 10 {
        ((48 + d % 16) as u8) as char
    } else {
        ((55 + d % 16) as u8) as char
    }
}

/// Whether a character passes through percent-encoding unchanged: an ASCII
/// letter or digit, or one of `-`, `_`, `.`, `~`.
pub open spec fn spec_url_unreserved(c: char) -> bool {
    (48 <= c as int <= 57) || (65 <= c as int <= 90) || (97 <= c as int <= 122) || c == '-' || c
        == '_' || c == '.' || c == '~'
}

/// The encoding of one character in a query string: unreserved characters
/// pass through, a handful of separators map to their two-digit escapes, and
/// anything else becomes a percent escape of its code point, zero-padded to
/// at least two digits.
pub open spec fn spec_url_char(c: char) -> Seq<char> {
    if c == ' ' {
        "%20"@
    } else if c == '&' {
        "%26"@
    } else if c == '=' {
        "%3D"@
    } else if c == '?' {
        "%3F"@
    } else if c == '#' {
        "%23"@
    } else if c == '+' {
        "%2B"@
    } else if spec_url_unreserved(c) {
        seq![c]
    } else if (c as nat) < 16 {
        seq!['%', '0'] + spec_hex_upper_digits(c as nat)
    } else {
        seq!['%'] + spec_hex_upper_digits(c as nat)
    }
}

/// A string percent-encoded for use in a query.
pub open spec fn spec_url_encode(s: Seq<char>) -> Seq<char>
    decreases s.len(),
{
    if s.len() == 0 {
        Seq::empty()
    } else {
        spec_url_encode(s.drop_last()) + spec_url_char(s.last())
    }
}

/// Writes `n` in upper-case hex, most significant digit first.
fn hex_upper_string(n: u32) -> (r: String)
    ensures
        r@ == spec_hex_upper_digits(n as nat),
    decreases n,
{
    if n < 16 {
        let mut s = String::new();
        push_hex_upper_digit(&mut s, (n % 16) as u8);
        proof {
            assert(s@ =~= spec_hex_upper_digits(n as nat));
        }
        s
    } else {
        let mut s = hex_upper_string(n / 16);
        push_hex_upper_digit(&mut s, (n % 16) as u8);
        proof {
            assert(s@ =~= spec_hex_upper_digits(n as nat));
        }
        s
    }
}

/// Appends one upper-case hex digit.
fn push_hex_upper_digit(s: &mut String, d: u8)
    requires
        d < 16,
    ensures
        final(s)@ == old(s)@ + seq![spec_hex_upper_char(d as nat)],
{
    if d < 10 {
        string_push(s, (48 + d) as char);
    } else {
        string_push(s, (55 + d) as char);
    }
}

/// Percent-encodes a query string for the search endpoint.
pub fn url_encode(s: &str) -> (r: String)
    ensures
        r@ == spec_url_encode(s@),
{
    let n = s.unicode_len();
    let mut r = String::new();
    let mut i: usize = 0;
    while i < n
        invariant
            0 <= i <= n,
            n == s@.len(),
            r@ == spec_url_encode(s@.take(i as int)),
        decreases n - i,
    {
        let c = s.get_char(i);
        proof {
            assert(s@.take(i + 1).drop_last() =~= s@.take(i as int));
            assert(s@.take(i + 1).last() == s@[i as int]);
        }
        let cv = c as u32;
        if c == ' ' {
            r.append("%20");
        } else if c == '&' {
            r.append("%26");
        } else if c == '=' {
            r.append("%3D");
        } else if c == '?' {
            r.append("%3F");
        } else if c == '#' {
            r.append("%23");
        } else if c == '+' {
            r.append("%2B");
        } else if (48 <= cv && cv <= 57) || (65 <= cv && cv <= 90) || (97 <= cv && cv <= 122)
            || c == '-' || c == '_' || c == '.' || c == '~' {
            string_push(&mut r, c);
        } else if cv < 16 {
            string_push(&mut r, '%');
            string_push(&mut r, '0');
            let h = hex_upper_string(cv);
            r.append(h.as_str());
        } else {
            string_push(&mut r, '%');
            let h = hex_upper_string(cv);
            r.append(h.as_str());
        }
        i += 1;
    }
    proof {
        assert(s@.take(n as int) =~= s@);
    }
    r
}

} // verus!
