//! Thread identifiers and listener epochs, both of them UUIDs.

use vstd::arithmetic::power::pow;
use vstd::prelude::*;

verus! {

/// The identifier of a conversation thread: the 128 bits of its UUID.
#[derive(Clone, Copy, Debug, PartialEq, Eq, Structural)]
pub struct ThreadId {
    pub uuid: u128,
}

/// The lower-case hexadecimal digit of a value below sixteen.
pub open spec fn hex_digit(d: int) -> char {
    if d < 10 {
        (48 + d) as char
    } else {
        (87 + d) as char
    }
}

/// The hexadecimal digit at position `k` of the 32 digits of `v`, most significant first.
pub open spec fn nibble(v: u128, k: int) -> int {
    (v as int / pow(16, (31 - k) as nat)) % 16
}

/// The hyphenated form of a UUID: digits in groups of 8, 4, 4, 4 and 12.
pub open spec fn uuid_text(v: u128) -> Seq<char> {
    Seq::new(
        36,
        |i: int|
            if i == 8 || i == 13 || i == 18 || i == 23 {
                '-'
            } else if i < 8 {
                hex_digit(nibble(v, i))
            } else if i < 13 {
                hex_digit(nibble(v, i - 1))
            } else if i < 18 {
                hex_digit(nibble(v, i - 2))
            } else if i < 23 {
                hex_digit(nibble(v, i - 3))
            } else {
                hex_digit(nibble(v, i - 4))
            },
    )
}

/// The UUID that a text denotes to `uuid::Uuid::parse_str`, if it denotes one.
pub uninterp spec fn uuid_value(text: Seq<char>) -> Option<u128>;

/// `uuid::Uuid::parse_str`: the UUID that `raw` denotes in any of the accepted notations.
#[verifier::external_body]
fn parse_uuid(raw: &str) -> (r: Option<u128>)
    ensures
        r == uuid_value(raw@),
{
    uuid::Uuid::parse_str(raw).ok().map(|id| id.as_u128())
}

/// `Display` of `uuid::Uuid`: the hyphenated lower-case form, which `parse_str` reads back.
#[verifier::external_body]
fn format_uuid(value: u128) -> (r: String)
    ensures
        r@ == uuid_text(value),
        uuid_value(r@) == Some(value),
{
    uuid::Uuid::from_u128(value).to_string()
}

/// Whether the version and variant bits of a UUID are those of a random one.
pub open spec fn is_random_uuid(v: u128) -> bool {
    &&& (v / 0x1000_0000_0000_0000_0000) % 16 == 4
    &&& (v / 0x4000_0000_0000_0000) % 4 == 2
}

/// `uuid::Uuid::new_v4`: a random UUID, of which only the version and variant bits are fixed.
#[verifier::external_body]
fn random_uuid() -> (r: u128)
    ensures
        is_random_uuid(r),
{
    uuid::Uuid::new_v4().as_u128()
}

impl ThreadId {
    /// The identifier that `raw` denotes, or `None` where it is not a UUID.
    pub fn from_string(raw: &str) -> (r: Option<ThreadId>)
        ensures
            r == (match uuid_value(raw@) {
                Some(uuid) => Some(ThreadId { uuid }),
                None => None,
            }),
    {
        match parse_uuid(raw) {
            Some(uuid) => Some(ThreadId { uuid }),
            None => None,
        }
    }

    /// The hyphenated form, which `from_string` reads back.
    pub fn to_text(&self) -> (r: String)
        ensures
            r@ == uuid_text(self.uuid),
            uuid_value(r@) == Some(self.uuid),
    {
        format_uuid(self.uuid)
    }
}

/// A fresh listener epoch: the hyphenated form of a random UUID.
pub fn fresh_epoch() -> (r: String)
    ensures
        exists|v: u128| #[trigger] is_random_uuid(v) && r@ == uuid_text(v),
        uuid_value(r@) matches Some(v) && is_random_uuid(v) && r@ == uuid_text(v),
{
    let v = random_uuid();
    format_uuid(v)
}

} // verus!
