//! The identifier of a user: a UUID, held as its 128 bits.

use vstd::prelude::*;
use vstd::arithmetic::power::pow;
use crate::error::UserError;

verus! {

/// The error of the UUID parser. Nothing is read from it.
#[verifier::external_type_specification]
#[verifier::external_body]
pub struct ExUuidError(::uuid::Error);

/// The 128 bits that the text of a UUID stands for; `None` where the text is
/// no UUID.
pub uninterp spec fn parsed_uuid(text: Seq<char>) -> Option<u128>;

/// The character of a hexadecimal digit, in lower case.
pub open spec fn hex_digit(n: int) -> char
    recommends
        0 <= n < 16,
{
    if n == 0 {
        '0'
    } else if n == 1 {
        '1'
    } else if n == 2 {
        '2'
    } else if n == 3 {
        '3'
    } else if n == 4 {
        '4'
    } else if n == 5 {
        '5'
    } else if n == 6 {
        '6'
    } else if n == 7 {
        '7'
    } else if n == 8 {
        '8'
    } else if n == 9 {
        '9'
    } else if n == 10 {
        'a'
    } else if n == 11 {
        'b'
    } else if n == 12 {
        'c'
    } else if n == 13 {
        'd'
    } else if n == 14 {
        'e'
    } else {
        'f'
    }
}

/// The hexadecimal digit of `value` at place `k`, counted from the highest
/// of its thirty-two digits.
pub open spec fn nibble(value: u128, k: int) -> int
    recommends
        0 <= k < 32,
{
    (value as int / pow(16, (31 - k) as nat)) % 16
}

/// The number of hyphens that stand before place `i` of the text of a UUID.
pub open spec fn hyphens_before(i: int) -> int {
    if i > 23 {
        4
    } else if i > 18 {
        3
    } else if i > 13 {
        2
    } else if i > 8 {
        1
    } else {
        0
    }
}

/// The text of the UUID with the given bits: thirty-six characters, a
/// hyphen at places 8, 13, 18 and 23, and between the hyphens the
/// thirty-two hexadecimal digits of the bits, highest first, in lower case.
pub open spec fn hyphenated(value: u128) -> Seq<char> {
    Seq::new(
        36,
        |i: int|
            if i == 8 || i == 13 || i == 18 || i == 23 {
                '-'
            } else {
                hex_digit(nibble(value, i - hyphens_before(i)))
            },
    )
}

/// Whether a text of `len` characters has the length of one of the forms of
/// a UUID: plain digits, hyphenated, hyphenated in braces, or hyphenated
/// after `urn:uuid:`.
pub open spec fn has_uuid_length(len: nat) -> bool {
    len == 32 || len == 36 || len == 38 || len == 45
}

/// The bits that every random (version 4) UUID has in common: `0100` for the
/// version and `10` for the variant.
pub open spec fn is_version_4(value: u128) -> bool {
    value & 0x0000_0000_0000_F000_C000_0000_0000_0000u128
        == 0x0000_0000_0000_4000_8000_0000_0000_0000u128
}

/// Calls `uuid::Uuid::parse_str`, and `uuid::Uuid::as_u128` on what it
/// parsed.
///
/// Trusted: whether the text parses, and to which bits, is a function of the
/// text alone, named [`parsed_uuid`]; and a text that parses has the length
/// of one of the forms of a UUID. The parser refuses every other number of
/// bytes, and in a text that it accepts each character is one byte.
#[verifier::external_body]
fn parse_uuid(text: &str) -> (bits: Result<u128, ::uuid::Error>)
    ensures
        match bits {
            Ok(value) => parsed_uuid(text@) == Some(value) && has_uuid_length(text@.len()),
            Err(_) => parsed_uuid(text@) is None,
        },
{
    match ::uuid::Uuid::parse_str(text) {
        Ok(id) => Ok(id.as_u128()),
        Err(e) => Err(e),
    }
}

/// Calls `uuid::Uuid::from_u128` and the `Display` of what it made.
///
/// Trusted: the text is [`hyphenated`] of the bits, and the parser reads it
/// back to the same bits.
#[verifier::external_body]
fn format_uuid(value: u128) -> (text: String)
    ensures
        text@ == hyphenated(value),
        parsed_uuid(text@) == Some(value),
{
    ::uuid::Uuid::from_u128(value).to_string()
}

/// Calls `uuid::Uuid::new_v4`, and `uuid::Uuid::as_u128` on what it made.
///
/// Trusted: whatever bits were drawn, the version and variant bits are those
/// of a random UUID. The call panics where the operating system gives no
/// random bytes, which no `requires` can leave out.
#[verifier::external_body]
fn random_uuid() -> (value: u128)
    ensures
        is_version_4(value),
{
    ::uuid::Uuid::new_v4().as_u128()
}

/// The identifier of one user.
#[derive(Clone, Copy, Debug, PartialEq, Eq, Structural)]
pub struct UserId {
    pub value: u128,
}

impl UserId {
    /// The identifier with the given bits.
    pub fn from_u128(value: u128) -> (id: UserId)
        ensures
            id.value == value,
    {
        UserId { value }
    }

    /// The bits of the identifier.
    pub fn as_u128(&self) -> (value: u128)
        ensures
            value == self.value,
    {
        self.value
    }

    /// A fresh random identifier.
    pub fn new_v4() -> (id: UserId)
        ensures
            is_version_4(id.value),
    {
        UserId { value: random_uuid() }
    }

    /// Reads an identifier from its text. Text that is no UUID is a
    /// [`UserError::ParseError`]; so is every text that has not the length of
    /// one of the forms of a UUID.
    pub fn parse_str(text: &str) -> (id: Result<UserId, UserError>)
        ensures
            id == (match parsed_uuid(text@) {
                Some(value) => Ok::<UserId, UserError>(UserId { value }),
                None => Err(UserError::ParseError),
            }),
            !has_uuid_length(text@.len()) ==> id == Err::<UserId, UserError>(
                UserError::ParseError,
            ),
    {
        match parse_uuid(text) {
            Ok(value) => Ok(UserId { value }),
            Err(_) => Err(UserError::ParseError),
        }
    }

    /// The text of the identifier, which [`UserId::parse_str`] reads back.
    pub fn to_string(&self) -> (text: String)
        ensures
            text@ == hyphenated(self.value),
            parsed_uuid(text@) == Some(self.value),
    {
        format_uuid(self.value)
    }
}

} // verus!
