//! Identifiers: 128-bit UUID values and the texts that stand for them.
use vstd::prelude::*;

use crate::text::hex_char;

verus! {

/// A UUID, as the 128-bit number that its sixteen bytes spell out from the
/// most significant byte down.
#[derive(Clone, Copy, Debug, PartialEq, Eq, PartialOrd, Ord, Hash, Structural)]
pub struct Uuid(pub u128);

/// The hexadecimal digit at place `k` of the thirty-two that spell `u`.
pub open spec fn uuid_nibble(u: u128, k: int) -> char {
    hex_char(((u >> ((124 - 4 * k) as u128)) & 15u128) as int)
}

/// Thirty-two lowercase hexadecimal digits.
pub open spec fn simple_form(u: u128) -> Seq<char> {
    Seq::new(32, |i: int| uuid_nibble(u, i))
}

/// The thirty-two digits in groups of 8, 4, 4, 4 and 12, joined by hyphens.
pub open spec fn hyphenated_form(u: u128) -> Seq<char> {
    Seq::new(
        36,
        |i: int|
            if i == 8 || i == 13 || i == 18 || i == 23 {
                '-'
            } else if i < 8 {
                uuid_nibble(u, i)
            } else if i < 13 {
                uuid_nibble(u, i - 1)
            } else if i < 18 {
                uuid_nibble(u, i - 2)
            } else if i < 23 {
                uuid_nibble(u, i - 3)
            } else {
                uuid_nibble(u, i - 4)
            },
    )
}

/// What `uuid::Uuid::parse_str` makes of a text: the UUID, or the text that its
/// error displays.
pub uninterp spec fn uuid_parse(s: Seq<char>) -> Result<u128, Seq<char>>;

/// The outcome of a parse that gave `u`.
pub open spec fn parse_ok(u: u128) -> Result<u128, Seq<char>> {
    Ok(u)
}

/// The outcome of a parse that failed with the message `e`.
pub open spec fn parse_err(e: Seq<char>) -> Result<u128, Seq<char>> {
    Err(e)
}

/// A parse result, with the error message taken by its characters.
pub open spec fn parse_view(r: Result<u128, String>) -> Result<u128, Seq<char>> {
    match r {
        Ok(u) => parse_ok(u),
        Err(e) => parse_err(e@),
    }
}

/// Calls `uuid::Uuid::now_v7`. Of the number that comes back only the fixed bits
/// are stated: version 7 and the RFC 4122 variant. The other bits hold the wall
/// clock, a counter and random bits, so no two calls are claimed to agree.
#[verifier::external_body]
fn uuid_now_v7() -> (r: u128)
    ensures
        (r >> 76u128) & 15u128 == 7u128,
        (r >> 62u128) & 3u128 == 2u128,
{
    uuid::Uuid::now_v7().as_u128()
}

/// Calls `uuid::Uuid::parse_str`, which depends on the text alone. The result is
/// named, not spelled out: several notations are accepted.
#[verifier::external_body]
fn uuid_parse_str(s: &str) -> (r: Result<u128, String>)
    ensures
        parse_view(r) == uuid_parse(s@),
{
    uuid::Uuid::parse_str(s).map(|u| u.as_u128()).map_err(|e| e.to_string())
}

/// Calls `Display` of `uuid::Uuid`: the hyphenated form, in lowercase, which
/// `uuid::Uuid::parse_str` reads back as the same UUID.
#[verifier::external_body]
fn uuid_to_string(u: u128) -> (r: String)
    ensures
        r@ == hyphenated_form(u),
        uuid_parse(r@) == parse_ok(u),
{
    uuid::Uuid::from_u128(u).to_string()
}

/// Calls `uuid::Uuid::simple` and its `Display`: the digits without hyphens, in
/// lowercase.
#[verifier::external_body]
fn uuid_simple(u: u128) -> (r: String)
    ensures
        r@ == simple_form(u),
{
    uuid::Uuid::from_u128(u).simple().to_string()
}

impl Uuid {
    /// The hyphenated lowercase text of this UUID.
    pub open spec fn text(self) -> Seq<char> {
        hyphenated_form(self.0)
    }

    /// Whether the text of this UUID reads as this UUID. Writing it shows that it
    /// does.
    pub open spec fn reads_back(self) -> bool {
        uuid_parse(self.text()) == parse_ok(self.0)
    }

    /// Whether the version and variant bits are those of a time-ordered UUID.
    pub open spec fn is_v7(self) -> bool {
        (self.0 >> 76u128) & 15u128 == 7u128 && (self.0 >> 62u128) & 3u128 == 2u128
    }

    /// The UUID whose bits are all zero.
    pub fn nil() -> (r: Uuid)
        ensures
            r == Uuid(0),
    {
        Uuid(0)
    }

    /// Reads a UUID; the error is the parser's own message.
    pub fn parse_str(s: &str) -> (r: Result<Uuid, String>)
        ensures
            match r {
                Ok(u) => uuid_parse(s@) == parse_ok(u.0),
                Err(e) => uuid_parse(s@) == parse_err(e@),
            },
    {
        match uuid_parse_str(s) {
            Ok(u) => Ok(Uuid(u)),
            Err(e) => Err(e),
        }
    }

    /// Writes the UUID in its hyphenated form, which reads back as the same UUID.
    pub fn to_hyphenated(&self) -> (r: String)
        ensures
            r@ == self.text(),
            self.reads_back(),
    {
        uuid_to_string(self.0)
    }

    /// Writes the UUID as thirty-two digits.
    pub fn to_simple(&self) -> (r: String)
        ensures
            r@ == simple_form(self.0),
    {
        uuid_simple(self.0)
    }
}

/// Generates a fresh, time-ordered identifier.
pub fn new_id() -> (r: Uuid)
    ensures
        r.is_v7(),
{
    Uuid(uuid_now_v7())
}

} // verus!
