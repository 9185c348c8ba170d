//! Identifiers.

use vstd::arithmetic::div_mod::{lemma_div_denominator, lemma_fundamental_div_mod};
use vstd::arithmetic::power::{lemma_pow0, lemma_pow1, lemma_pow_adds, lemma_pow_positive, pow};
use vstd::prelude::*;

verus! {

/// A UUID: 128 bits.
#[derive(Debug, Clone, Copy, PartialEq, Eq, Structural)]
pub struct Uuid {
    pub bits: u128,
}

/// The lower-case hexadecimal digit for `d`.
pub open spec fn hex_digit(d: int) -> char {
    if d < 10 {
        (48 + d) as u8 as char
    } else {
        (87 + d) as u8 as char
    }
}

/// The `i`-th of the 32 hexadecimal digits of `bits`, the most significant one first.
pub open spec fn nibble(bits: u128, i: int) -> int {
    (bits as int / pow(16, (31 - i) as nat)) % 16
}

/// The place of the `i`-th character of the hyphenated form among the 32 digits.
pub open spec fn digit_place(i: int) -> int {
    if i < 8 { i } else if i < 13 { i - 1 } else if i < 18 { i - 2 } else if i < 23 { i - 3 } else { i - 4 }
}

impl Uuid {
    /// The hyphenated form: 32 lower-case hexadecimal digits in groups of 8, 4, 4, 4 and 12.
    pub open spec fn text(self) -> Seq<char> {
        Seq::new(
            36,
            |i: int|
                if i == 8 || i == 13 || i == 18 || i == 23 {
                    '-'
                } else {
                    hex_digit(nibble(self.bits, digit_place(i)))
                },
        )
    }
}

impl Uuid {
    /// The simple form: 32 lower-case hexadecimal digits.
    pub open spec fn simple_text(self) -> Seq<char> {
        Seq::new(32, |i: int| hex_digit(nibble(self.bits, i)))
    }
}

/// `uuid::Uuid::simple`: the 32 digits.
#[verifier::external_body]
fn simple(bits: u128) -> (s: String)
    ensures
        s@ == (Uuid { bits }).simple_text(),
{
    uuid::Uuid::from_u128(bits).simple().to_string()
}

impl Uuid {
    /// The 16 bytes, the most significant one first.
    pub open spec fn bytes(self) -> Seq<u8> {
        Seq::new(16, |i: int| (nibble(self.bits, 2 * i) * 16 + nibble(self.bits, 2 * i + 1)) as u8)
    }
}

/// `uuid::Uuid::as_bytes`: the 16 bytes, the most significant one first.
#[verifier::external_body]
fn big_endian(bits: u128) -> (b: Vec<u8>)
    ensures
        b@ == (Uuid { bits }).bytes(),
{
    uuid::Uuid::from_u128(bits).as_bytes().to_vec()
}

/// What `uuid::Uuid::parse_str` reads in `text`: the bits, or nothing where it is no UUID.
pub uninterp spec fn uuid_read(text: Seq<char>) -> Option<u128>;

/// `uuid::Uuid::hyphenated`: the 32 digits in five groups. What it writes,
/// `uuid::Uuid::parse_str` reads back.
#[verifier::external_body]
fn hyphenated(bits: u128) -> (s: String)
    ensures
        s@ == (Uuid { bits }).text(),
        uuid_read(s@) == Some(bits),
{
    uuid::Uuid::from_u128(bits).hyphenated().to_string()
}

/// `uuid::Uuid::parse_str`.
#[verifier::external_body]
fn parse_bits(s: &str) -> (r: Result<u128, uuid::Error>)
    ensures
        match r {
            Ok(bits) => uuid_read(s@) == Some(bits),
            Err(_) => uuid_read(s@) is None,
        },
{
    uuid::Uuid::parse_str(s).map(|u| u.as_u128())
}

/// `uuid::Uuid::new_v4`: a random UUID, whichever it is, with the version 4 and
/// the RFC 4122 variant in it.
#[verifier::external_body]
pub(crate) fn random_bits() -> (bits: u128)
    ensures
        (Uuid { bits }).is_v4(),
{
    uuid::Uuid::new_v4().as_u128()
}

#[verifier::external_type_specification]
#[verifier::external_body]
pub struct ExUuidError(uuid::Error);

impl Uuid {
    /// Whether `self` says that it was made at random.
    pub open spec fn is_v4(self) -> bool {
        nibble(self.bits, 12) == 4 && 8 <= nibble(self.bits, 16) <= 11
    }

    /// A random UUID.
    pub fn new_v4() -> (u: Uuid)
        ensures
            u.is_v4(),
    {
        Uuid { bits: random_bits() }
    }

    /// The hyphenated form of `self`; reading it gives `self` back.
    pub fn to_text(&self) -> (s: String)
        ensures
            s@ == self.text(),
            uuid_read(s@) == Some(self.bits),
    {
        hyphenated(self.bits)
    }

    /// The 16 bytes of `self`, the most significant one first.
    pub fn to_bytes(&self) -> (b: Vec<u8>)
        ensures
            b@ == self.bytes(),
    {
        big_endian(self.bits)
    }

    /// The simple form of `self`.
    pub fn to_simple_text(&self) -> (s: String)
        ensures
            s@ == self.simple_text(),
    {
        simple(self.bits)
    }

    /// The UUID that `s` stands for, if it stands for one.
    pub fn parse(s: &str) -> (r: Option<Uuid>)
        ensures
            r == (match uuid_read(s@) {
                Some(bits) => Some(Uuid { bits }),
                None => None,
            }),
    {
        match parse_bits(s) {
            Ok(bits) => Some(Uuid { bits }),
            Err(_) => None,
        }
    }
}

/// The number in front of the last `k` hexadecimal digits is made of the digits there.
proof fn lemma_leading(bits: u128, k: nat)
    requires
        k < 32,
    ensures
        bits as int / pow(16, k) == 16 * (bits as int / pow(16, k + 1)) + nibble(bits, 31 - k),
{
    lemma_pow_positive(16, k);
    lemma_pow_adds(16, k, 1);
    lemma_pow1(16);
    lemma_div_denominator(bits as int, pow(16, k), 16);
    lemma_fundamental_div_mod(bits as int / pow(16, k), 16);
}

proof fn lemma_same_leading(a: u128, b: u128, k: nat)
    requires
        k <= 32,
        forall|i: int| 0 <= i < 32 ==> nibble(a, i) == #[trigger] nibble(b, i),
    ensures
        a as int / pow(16, k) == b as int / pow(16, k),
    decreases 32 - k,
{
    if k == 32 {
        lemma_pow1(16);
        lemma_pow_adds(16, 1, 1);
        lemma_pow_adds(16, 2, 2);
        lemma_pow_adds(16, 4, 4);
        lemma_pow_adds(16, 8, 8);
        lemma_pow_adds(16, 16, 16);
        assert(pow(16, 2) == 0x100int) by (nonlinear_arith)
            requires
                pow(16, 2) == pow(16, 1) * pow(16, 1),
                pow(16, 1) == 0x10int,
        ;
        assert(pow(16, 4) == 0x10000int) by (nonlinear_arith)
            requires
                pow(16, 4) == pow(16, 2) * pow(16, 2),
                pow(16, 2) == 0x100int,
        ;
        assert(pow(16, 8) == 0x100000000int) by (nonlinear_arith)
            requires
                pow(16, 8) == pow(16, 4) * pow(16, 4),
                pow(16, 4) == 0x10000int,
        ;
        assert(pow(16, 16) == 0x10000000000000000int) by (nonlinear_arith)
            requires
                pow(16, 16) == pow(16, 8) * pow(16, 8),
                pow(16, 8) == 0x100000000int,
        ;
        assert(pow(16, 32) == 0x100000000000000000000000000000000int) by (nonlinear_arith)
            requires
                pow(16, 32) == pow(16, 16) * pow(16, 16),
                pow(16, 16) == 0x10000000000000000int,
        ;
    } else {
        lemma_same_leading(a, b, k + 1);
        lemma_leading(a, k);
        lemma_leading(b, k);
        assert(nibble(a, 31 - k) == nibble(b, 31 - k));
    }
}

/// Two UUIDs that are written the same are the same.
pub proof fn uuid_text_is_injective(a: Uuid, b: Uuid)
    requires
        a.text() == b.text(),
    ensures
        a == b,
{
    assert forall|i: int| 0 <= i < 32 implies nibble(a.bits, i) == #[trigger] nibble(b.bits, i) by {
        let p = if i < 8 { i } else if i < 12 { i + 1 } else if i < 16 { i + 2 } else if i < 20 { i + 3 } else { i + 4 };
        assert(digit_place(p) == i);
        assert(a.text()[p] == hex_digit(nibble(a.bits, i)));
        assert(b.text()[p] == hex_digit(nibble(b.bits, i)));
    }
    lemma_same_leading(a.bits, b.bits, 0);
    lemma_pow0(16);
}

} // verus!
