//! Typed entity identifiers: a 128-bit universally unique value tagged with
//! the entity it identifies, so that an identifier of one kind of entity cannot
//! be passed where another kind is expected.

use crate::validation::{ValidationError, ValidationFault};
use core::marker::PhantomData;
use vstd::arithmetic::power::pow;
use vstd::prelude::*;

verus! {

/// The 128-bit value that `uuid::Uuid::try_parse` reads from a text, or `None`
/// where it rejects the text.
pub uninterp spec fn uuid_from_text(text: Seq<char>) -> Option<u128>;

/// The lower-case hexadecimal digit for a number below sixteen.
pub open spec fn hex_digit(d: nat) -> char
    recommends
        d < 16,
{
    if d < 10 {
        crate::text::digit_char(d)
    } else if d == 10 {
        'a'
    } else if d == 11 {
        'b'
    } else if d == 12 {
        'c'
    } else if d == 13 {
        'd'
    } else if d == 14 {
        'e'
    } else {
        'f'
    }
}

/// The `index`-th group of four bits of a 128-bit value, the most significant
/// group having index 0.
pub open spec fn nibble(value: u128, index: int) -> nat
    recommends
        0 <= index < 32,
{
    ((value as int / pow(16, (31 - index) as nat)) % 16) as nat
}

/// Which hexadecimal digit stands at a position of the hyphenated form that is
/// not a hyphen.
pub open spec fn hyphenated_digit_index(position: int) -> int {
    if position < 8 {
        position
    } else if position < 13 {
        position - 1
    } else if position < 18 {
        position - 2
    } else if position < 23 {
        position - 3
    } else {
        position - 4
    }
}

/// The canonical text of an identifier: 32 lower-case hexadecimal digits, most
/// significant first, in groups of 8, 4, 4, 4 and 12 separated by hyphens.
pub open spec fn hyphenated(value: u128) -> Seq<char> {
    Seq::new(
        36,
        |position: int|
            if position == 8 || position == 13 || position == 18 || position == 23 {
                '-'
            } else {
                hex_digit(nibble(value, hyphenated_digit_index(position)))
            },
    )
}

/// Parses a UUID with `uuid::Uuid::try_parse` and hands out its 128-bit value
/// (`Uuid::as_u128`). The contract only names the result: which texts the
/// parser accepts is the outside crate's business.
#[verifier::external_body]
pub(crate) fn parse_uuid(text: &str) -> (value: Option<u128>)
    ensures
        value == uuid_from_text(text@),
{
    match uuid::Uuid::try_parse(text) {
        Ok(id) => Some(id.as_u128()),
        Err(_) => None,
    }
}

/// Formats a 128-bit value as `uuid::Uuid::from_u128(value).to_string()` does.
/// The contract claims that this is the hyphenated lower-case form, and that
/// `Uuid::try_parse` reads the value back from it.
#[verifier::external_body]
pub(crate) fn format_uuid(value: u128) -> (text: String)
    ensures
        text@ == hyphenated(value),
        uuid_from_text(text@) == Some(value),
{
    uuid::Uuid::from_u128(value).to_string()
}

/// Identifier of an entity of kind `T`.
#[derive(Debug, PartialEq, Eq, Hash, PartialOrd, Ord)]
pub struct EntityId<T> {
    value: u128,
    _marker: PhantomData<T>,
}

impl<T> View for EntityId<T> {
    type V = u128;

    closed spec fn view(&self) -> u128 {
        self.value
    }
}

impl<T> Clone for EntityId<T> {
    fn clone(&self) -> (copy: Self)
        ensures
            copy@ == self@,
    {
        EntityId { value: self.value, _marker: PhantomData }
    }
}

impl<T> Default for EntityId<T> {
    /// The nil identifier, all bits zero.
    fn default() -> (id: Self)
        ensures
            id@ == 0,
    {
        EntityId { value: 0, _marker: PhantomData }
    }
}

impl<T> EntityId<T> {
    /// Wraps a 128-bit value.
    pub fn gen(value: u128) -> (id: Self)
        ensures
            id@ == value,
    {
        EntityId { value, _marker: PhantomData }
    }

    /// The wrapped 128-bit value.
    pub fn value(&self) -> (value: u128)
        ensures
            value == self@,
    {
        self.value
    }

    /// The identifier that a parser result stands for: the value it found, or
    /// a validation error where it found none.
    pub fn from_parsed(parsed: Option<u128>) -> (id: Result<Self, ValidationError>)
        ensures
            id matches Ok(found) ==> parsed == Some(found@),
            id matches Err(e) ==> parsed is None && e@ == ValidationFault::EntityId,
    {
        match parsed {
            Some(value) => Ok(Self::gen(value)),
            None => Err(ValidationError::EntityId),
        }
    }

    /// Reads an identifier from its UUID text. A text that the UUID parser
    /// rejects is a validation error.
    pub fn try_from(value: &str) -> (id: Result<Self, ValidationError>)
        ensures
            id matches Ok(found) ==> uuid_from_text(value@) == Some(found@),
            id matches Err(e) ==> uuid_from_text(value@) is None && e@
                == ValidationFault::EntityId,
    {
        Self::from_parsed(parse_uuid(value))
    }

    /// The canonical hyphenated text of the identifier, from which the
    /// identifier can be read back.
    pub fn to_text(&self) -> (text: String)
        ensures
            text@ == hyphenated(self@),
            uuid_from_text(text@) == Some(self@),
    {
        format_uuid(self.value)
    }
}

} // verus!
