//! Digests, random strings, and the text forms that bytes travel in.

use crate::ids::hex_digit;
use base64::Engine;
use rand::distr::SampleString;
use rand::RngCore;
use sha2::Digest;
use vstd::prelude::*;
use vstd::string::*;

verus! {

#[verifier::external_type_specification]
#[verifier::external_body]
pub struct ExFromHexError(hex::FromHexError);

/// The SHA-256 digest of `data`.
pub uninterp spec fn sha256_of(data: Seq<u8>) -> Seq<u8>;

/// `sha2::Sha256::digest`: 32 bytes that depend on `data` alone.
#[verifier::external_body]
pub(crate) fn sha256(data: &[u8]) -> (d: Vec<u8>)
    ensures
        d@ == sha256_of(data@),
        d@.len() == 32,
{
    sha2::Sha256::digest(data).to_vec()
}

/// `data` in lower-case hexadecimal.
pub open spec fn hex_of(data: Seq<u8>) -> Seq<char> {
    Seq::new(
        2 * data.len(),
        |i: int| hex_digit(if i % 2 == 0 { data[i / 2] as int / 16 } else { data[i / 2] as int % 16 }),
    )
}

/// `hex::encode`: two lower-case digits for each byte, the high one first.
#[verifier::external_body]
pub(crate) fn hex_encode(data: &[u8]) -> (s: String)
    ensures
        s@ == hex_of(data@),
{
    hex::encode(data)
}

/// What the hexadecimal digit `c` stands for, in either case.
pub open spec fn hex_value(c: u8) -> Option<int> {
    if 48 <= c <= 57 {
        Some(c - 48)
    } else if 65 <= c <= 70 {
        Some(c - 55)
    } else if 97 <= c <= 102 {
        Some(c - 87)
    } else {
        None
    }
}

/// Whether `text` is an even number of hexadecimal digits.
pub open spec fn is_hex(text: Seq<u8>) -> bool {
    text.len() % 2 == 0 && forall|i: int| 0 <= i < text.len() ==> hex_value(#[trigger] text[i]) is Some
}

/// The bytes that the hexadecimal digits `text` stand for.
pub open spec fn hex_bytes(text: Seq<u8>) -> Seq<u8> {
    Seq::new(
        text.len() / 2,
        |i: int| (hex_value(text[2 * i])->0 * 16 + hex_value(text[2 * i + 1])->0) as u8,
    )
}

/// `hex::decode`: reads an even number of hexadecimal digits of either case, two
/// for each byte; anything else is an error.
#[verifier::external_body]
pub(crate) fn hex_decode(s: &str) -> (r: Result<Vec<u8>, hex::FromHexError>)
    ensures
        r is Ok <==> is_hex(s.spec_bytes()),
        r matches Ok(v) ==> v@ == hex_bytes(s.spec_bytes()),
{
    hex::decode(s)
}

/// The URL-safe base64 character for `d`.
pub open spec fn base64url_char(d: int) -> char {
    if d < 26 {
        (65 + d) as u8 as char
    } else if d < 52 {
        (71 + d) as u8 as char
    } else if d < 62 {
        (d - 4) as u8 as char
    } else if d == 62 {
        '-'
    } else {
        '_'
    }
}

/// The `i`-th group of six bits of `data`, which is followed by zero bits.
pub open spec fn sextet(data: Seq<u8>, i: int) -> int {
    let byte = |k: int| if k < data.len() { data[k] as int } else { 0 };
    let first = 3 * (i / 4);
    if i % 4 == 0 {
        byte(first) / 4
    } else if i % 4 == 1 {
        byte(first) % 4 * 16 + byte(first + 1) / 16
    } else if i % 4 == 2 {
        byte(first + 1) % 16 * 4 + byte(first + 2) / 64
    } else {
        byte(first + 2) % 64
    }
}

/// `data` in URL-safe base64 without padding.
pub open spec fn base64url_of(data: Seq<u8>) -> Seq<char> {
    Seq::new(((8 * data.len() + 5) / 6) as nat, |i: int| base64url_char(sextet(data, i)))
}

/// The `URL_SAFE_NO_PAD` engine of `base64`: one character for each six bits, the
/// last ones filled up with zero bits.
#[verifier::external_body]
pub(crate) fn base64url_encode(data: &[u8]) -> (s: String)
    ensures
        s@ == base64url_of(data@),
{
    base64::engine::general_purpose::URL_SAFE_NO_PAD.encode(data)
}

/// The upper-case hexadecimal digit for `d`.
pub open spec fn upper_hex_digit(d: int) -> char {
    if d < 10 {
        (48 + d) as u8 as char
    } else {
        (55 + d) as u8 as char
    }
}

/// Whether `b` is an ASCII letter, a digit or one of `-`, `_`, `.`, `~`.
pub open spec fn unreserved(b: u8) -> bool {
    48 <= b <= 57 || 65 <= b <= 90 || 97 <= b <= 122 || b == 45 || b == 95 || b == 46 || b == 126
}

/// `data` with every byte that is not unreserved written as `%` and two upper-case digits.
pub open spec fn percent_encoded(data: Seq<u8>) -> Seq<char>
    decreases data.len(),
{
    if data.len() == 0 {
        Seq::empty()
    } else {
        let b = data.last();
        percent_encoded(data.drop_last()) + (if unreserved(b) {
            seq![b as char]
        } else {
            seq!['%', upper_hex_digit(b as int / 16), upper_hex_digit(b as int % 16)]
        })
    }
}

/// `urlencoding::encode`: percent-encodes the UTF-8 form of `s`.
#[verifier::external_body]
pub(crate) fn url_encode(s: &str) -> (r: String)
    ensures
        r@ == percent_encoded(s.spec_bytes()),
{
    urlencoding::encode(s).into_owned()
}

/// `fill_bytes` of the generator that `rand::rng` gives: `n` bytes, whatever they are.
#[verifier::external_body]
pub(crate) fn random_bytes(n: usize) -> (v: Vec<u8>)
    ensures
        v@.len() == n,
{
    let mut v = vec![0u8; n];
    rand::rng().fill_bytes(&mut v);
    v
}

/// Whether `c` is an ASCII letter or digit.
pub open spec fn alphanumeric(c: char) -> bool {
    '0' <= c <= '9' || 'A' <= c <= 'Z' || 'a' <= c <= 'z'
}

/// `sample_string` of `rand::distr::Alphanumeric`: `n` ASCII letters and digits,
/// whichever they are.
#[verifier::external_body]
pub(crate) fn random_alphanumeric(n: usize) -> (s: String)
    ensures
        s@.len() == n,
        forall|i: int| 0 <= i < s@.len() ==> alphanumeric(#[trigger] s@[i]),
{
    rand::distr::Alphanumeric.sample_string(&mut rand::rng(), n)
}

} // verus!
