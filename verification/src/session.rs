use vstd::prelude::*;
use vstd::arithmetic::power::pow;

use crate::text::hex_digit;

verus! {

/// A UUID, held as its 128 bits.
#[derive(Clone, Copy, PartialEq, Eq, Structural, Debug)]
pub struct Uuid {
    pub bits: u128,
}

impl Uuid {
    pub fn from_u128(bits: u128) -> (u: Uuid)
        ensures
            u.bits == bits,
    {
        Uuid { bits }
    }

    pub fn as_u128(&self) -> (bits: u128)
        ensures
            bits == self.bits,
    {
        self.bits
    }
}

/// The bits that `uuid::Uuid::parse_str` reads out of a text, `None` where it
/// rejects the text.
pub uninterp spec fn uuid_parse(text: Seq<char>) -> Option<u128>;

/// Hexadecimal digit `k` of a UUID's bits, counted from the most
/// significant of its 32 digits.
pub open spec fn uuid_nibble(bits: u128, k: int) -> nat {
    ((bits as nat / pow(16, (31 - k) as nat) as nat) % 16) as nat
}

/// How many hyphens stand before position `p` of a hyphenated UUID.
pub open spec fn hyphens_before(p: int) -> int {
    if p > 23 {
        4
    } else if p > 18 {
        3
    } else if p > 13 {
        2
    } else if p > 8 {
        1
    } else {
        0
    }
}

/// A position of a hyphenated UUID that holds a hyphen.
pub open spec fn is_hyphen_position(p: int) -> bool {
    p == 8 || p == 13 || p == 18 || p == 23
}

/// The hyphenated lower case text of a UUID: its 32 hexadecimal digits,
/// most significant first, in groups of 8, 4, 4, 4 and 12 joined by
/// hyphens.
pub open spec fn uuid_hyphenated(bits: u128) -> Seq<char> {
    Seq::new(
        36,
        |p: int|
            if is_hyphen_position(p) {
                '-'
            } else {
                hex_digit(uuid_nibble(bits, p - hyphens_before(p)))
            },
    )
}

/// The UUID that a text denotes, as `uuid::Uuid::parse_str` reads it.
pub open spec fn parsed_uuid(text: Seq<char>) -> Option<Uuid> {
    match uuid_parse(text) {
        Some(bits) => Some(Uuid { bits }),
        None => None,
    }
}

/// Calls `uuid::Uuid::parse_str`. Its result is named by `uuid_parse`: the
/// contract claims that the result depends on the text alone.
#[verifier::external_body]
pub(crate) fn parse_uuid(text: &str) -> (r: Option<Uuid>)
    ensures
        r == parsed_uuid(text@),
{
    match uuid::Uuid::parse_str(text) {
        Ok(u) => Some(Uuid { bits: u.as_u128() }),
        Err(_) => None,
    }
}

/// Calls `uuid::Uuid`'s `Display`. The contract claims what the crate
/// documents: the text is the hyphenated lower case form, and
/// `uuid::Uuid::parse_str` reads the same UUID back from it.
#[verifier::external_body]
pub(crate) fn format_uuid(u: Uuid) -> (s: String)
    ensures
        s@ == uuid_hyphenated(u.bits),
        uuid_parse(s@) == Some(u.bits),
{
    uuid::Uuid::from_u128(u.bits).to_string()
}

/// The version field of a UUID: the high nibble of its seventh byte.
pub open spec fn uuid_version(bits: u128) -> u128 {
    (bits >> 76u128) & 0xfu128
}

/// The variant field of a UUID: the two high bits of its ninth byte.
pub open spec fn uuid_variant(bits: u128) -> u128 {
    (bits >> 62u128) & 0x3u128
}

/// Calls `uuid::Uuid::now_v7`. The result depends on the clock and on
/// chance; what is claimed is only what every version 7 UUID that the crate
/// builds carries: version 7 and the RFC 4122 variant (`0b10`). Its time and
/// random bits are left unsaid.
#[verifier::external_body]
pub(crate) fn now_v7() -> (u: Uuid)
    ensures
        uuid_version(u.bits) == 7,
        uuid_variant(u.bits) == 2,
{
    Uuid { bits: uuid::Uuid::now_v7().as_u128() }
}

/// A UUID read back from its own text is the UUID itself.
pub proof fn lemma_uuid_text_round_trip(u: Uuid, s: Seq<char>)
    requires
        s == uuid_hyphenated(u.bits),
        uuid_parse(s) == Some(u.bits),
    ensures
        parsed_uuid(s) == Some(u),
{
}

} // verus!
