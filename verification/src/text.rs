//! Payload and diagnostic text. Every outbound command on the wire is a short
//! decimal-ASCII string such as `10` or `0`; inbound payloads are logged with
//! a best-effort UTF-8 decoding that never panics on invalid bytes.

use vstd::prelude::*;

verus! {

/// The decimal digits of `n`, most significant first, as ASCII bytes.
pub open spec fn spec_decimal(n: nat) -> Seq<u8>
    decreases n,
{
    if n < 10 {
        seq![(48 + n) as u8]
    } else {
        spec_decimal(n / 10).push((48 + n % 10) as u8)
    }
}

/// The character for the decimal digit `d`.
pub open spec fn spec_digit_char(d: nat) -> char {
    "0123456789"@[d as int]
}

/// The decimal digits of `n`, most significant first, as characters.
pub open spec fn spec_decimal_chars(n: nat) -> Seq<char>
    decreases n,
{
    if n < 10 {
        seq![spec_digit_char(n)]
    } else {
        spec_decimal_chars(n / 10).push(spec_digit_char(n % 10))
    }
}

/// Render `n` as its decimal-ASCII digits.
pub fn decimal_bytes(n: u64) -> (r: Vec<u8>)
    ensures
        r@ == spec_decimal(n as nat),
    decreases n,
{
    if n < 10 {
        let mut v: Vec<u8> = Vec::new();
        v.push(48 + (n as u8));
        proof {
            assert(v@ =~= spec_decimal(n as nat));
        }
        v
    } else {
        let mut v = decimal_bytes(n / 10);
        v.push(48 + ((n % 10) as u8));
        proof {
            assert(v@ =~= spec_decimal(n as nat));
        }
        v
    }
}

/// Render `n` in decimal as a string.
pub fn decimal_string(n: u64) -> (r: String)
    ensures
        r@ == spec_decimal_chars(n as nat),
    decreases n,
{
    let digits = "0123456789";
    proof {
        reveal_strlit("0123456789");
    }
    if n < 10 {
        let d = digits.substring_char(n as usize, n as usize + 1);
        let r = d.to_owned();
        proof {
            assert(r@ =~= spec_decimal_chars(n as nat));
        }
        r
    } else {
        let mut s = decimal_string(n / 10);
        let m = (n % 10) as usize;
        let d = digits.substring_char(m, m + 1);
        s.append(d);
        proof {
            assert(s@ =~= spec_decimal_chars(n as nat));
        }
        s
    }
}

/// What `String::from_utf8_lossy` decodes the given bytes to.
pub uninterp spec fn lossy_utf8(bytes: Seq<u8>) -> Seq<char>;

/// Relies on `String::from_utf8_lossy`: the decoding is a function of the
/// bytes alone, it never panics, and an empty input decodes to the empty
/// string.
#[verifier::external_body]
pub fn lossy_text(bytes: &Vec<u8>) -> (r: String)
    ensures
        r@ == lossy_utf8(bytes@),
        bytes@.len() == 0 ==> r@.len() == 0,
{
    String::from_utf8_lossy(bytes.as_slice()).into_owned()
}

} // verus!
