//! Identifiers of computed entities.
//!
//! Every deposit, bank, portfolio and processing error of a response carries a
//! fresh random identifier, made by the `uuid` crate.

use vstd::prelude::*;

verus! {

/// Whether 128 bits are laid out as a random ("version 4") identifier: the
/// version field holds 4 and the variant field the bits `10`.
pub open spec fn is_random_layout(bits: u128) -> bool {
    (bits >> 76u128) & 0xF == 4 && (bits >> 62u128) & 0x3 == 2
}

/// The text that the `uuid` crate prints for an identifier: 32 hexadecimal
/// digits in five groups.
pub uninterp spec fn uuid_text(bits: u128) -> Seq<char>;

/// The identifier that the `uuid` crate reads from a text, if it reads one.
pub uninterp spec fn uuid_parsed(text: Seq<char>) -> Option<u128>;

/// A universally unique identifier, held as its 128 bits.
#[derive(Clone, Copy, Debug, PartialEq, Eq, Structural)]
pub struct Uuid {
    pub bits: u128,
}

impl Uuid {
    /// A fresh random identifier. Two calls give different identifiers but for
    /// a chance of one in `2^122`; nothing but the layout is promised.
    pub fn new_v4() -> (id: Uuid)
        ensures
            is_random_layout(id.bits),
    {
        Uuid { bits: random_bits() }
    }

    /// The identifier as text.
    pub fn to_text(&self) -> (text: String)
        ensures
            text@ == uuid_text(self.bits),
    {
        print(self.bits)
    }

    /// The identifier read from a text, if it holds one.
    pub fn parse(text: &str) -> (id: Option<Uuid>)
        ensures
            match uuid_parsed(text@) {
                Some(bits) => id == Some(Uuid { bits }),
                None => id is None,
            },
    {
        match read(text) {
            Some(bits) => Some(Uuid { bits }),
            None => None,
        }
    }
}

/// `uuid::Uuid::new_v4`: 122 random bits around the fixed version and variant
/// fields.
#[verifier::external_body]
fn random_bits() -> (bits: u128)
    ensures
        is_random_layout(bits),
{
    ::uuid::Uuid::new_v4().as_u128()
}

/// `uuid`'s `Display` for an identifier.
#[verifier::external_body]
fn print(bits: u128) -> (text: String)
    ensures
        text@ == uuid_text(bits),
{
    ::uuid::Uuid::from_u128(bits).to_string()
}

/// `uuid::Uuid::try_parse`: the identifier read, `None` where the text is
/// refused.
#[verifier::external_body]
fn read(text: &str) -> (bits: Option<u128>)
    ensures
        bits == uuid_parsed(text@),
{
    match ::uuid::Uuid::try_parse(text) {
        Ok(id) => Some(id.as_u128()),
        Err(_) => None,
    }
}

} // verus!
