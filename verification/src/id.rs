//! Identifiers of books, users and checkouts.
//!
//! Every identifier is a UUID, held as the 128-bit number that the `uuid`
//! crate packs it into. Two identifiers are the same exactly when the
//! numbers are.

use crate::error::AppError;
use vstd::prelude::*;

verus! {

/// What every version-4 UUID has in common: the version nibble is 4 and the
/// two variant bits are `10`.
pub open spec fn is_random_uuid(value: u128) -> bool {
    value & 0x0000_0000_0000_f000_c000_0000_0000_0000u128
        == 0x0000_0000_0000_4000_8000_0000_0000_0000u128
}

/// The text that `uuid` prints for the UUID packed in `value`.
pub uninterp spec fn uuid_text(value: u128) -> Seq<char>;

/// The UUID that `uuid` reads out of `text`, or `None` where it rejects it.
pub uninterp spec fn uuid_parsed(text: Seq<char>) -> Option<u128>;

/// Declares `uuid::Error`, the complaint of the parser, as a type that
/// verified code may hold. Nothing is known of what is inside.
#[verifier::external_type_specification]
#[verifier::external_body]
pub struct ExUuidError(uuid::Error);

/// Calls `uuid::Uuid::new_v4` and packs the result with `Uuid::as_u128`.
///
/// Trusted: the value is random, so the contract states only what `new_v4`
/// sets in every UUID it makes, the version and variant bits. `new_v4`
/// aborts the process when the operating system hands out no random bytes.
#[verifier::external_body]
fn random_uuid() -> (value: u128)
    ensures
        is_random_uuid(value),
{
    uuid::Uuid::new_v4().as_u128()
}

/// Calls `Display` of `uuid::Uuid` (lower-case hexadecimal digits in groups
/// of 8-4-4-4-12 with hyphens between) on `Uuid::from_u128(value)`.
///
/// Trusted: the text is named [`uuid_text`], nothing more is claimed of it.
#[verifier::external_body]
fn format_uuid(value: u128) -> (text: String)
    ensures
        text@ == uuid_text(value),
{
    uuid::Uuid::from_u128(value).to_string()
}

/// Calls `uuid::Uuid::parse_str` and packs a parsed UUID with
/// `Uuid::as_u128`.
///
/// Trusted: whether the text is accepted, and as which UUID, is named
/// [`uuid_parsed`]; the error is handed on as `uuid` made it.
#[verifier::external_body]
fn parse_uuid(text: &str) -> (parsed: Result<u128, uuid::Error>)
    ensures
        match parsed {
            Ok(value) => uuid_parsed(text@) == Some(value),
            Err(_) => uuid_parsed(text@) is None,
        },
{
    match uuid::Uuid::parse_str(text) {
        Ok(id) => Ok(id.as_u128()),
        Err(error) => Err(error),
    }
}

/// Calls `Display` of `uuid::Error`. Trusted, and nothing is claimed of the
/// text.
#[verifier::external_body]
fn describe_uuid_error(error: &uuid::Error) -> String {
    error.to_string()
}

/// Reads the number of a UUID, with the parser's complaint as the error.
fn parse_id(text: &str) -> (parsed: Result<u128, AppError>)
    ensures
        match parsed {
            Ok(value) => uuid_parsed(text@) == Some(value),
            Err(error) => uuid_parsed(text@) is None && error@ is ConvertToUuidError,
        },
{
    match parse_uuid(text) {
        Ok(value) => Ok(value),
        Err(error) => Err(AppError::ConvertToUuidError(describe_uuid_error(&error))),
    }
}

/// Identifies a book.
#[derive(Clone, Copy, Debug, PartialEq, Eq, Structural, Hash)]
pub struct BookId(pub u128);

impl BookId {
    /// A fresh random identifier.
    pub fn new() -> (id: Self)
        ensures
            is_random_uuid(id.0),
    {
        BookId(random_uuid())
    }

    /// The identifier packed in `value`.
    pub fn from_raw(value: u128) -> (id: Self)
        ensures
            id.0 == value,
    {
        BookId(value)
    }

    /// The 128-bit number behind the identifier.
    pub fn raw(self) -> (value: u128)
        ensures
            value == self.0,
    {
        self.0
    }

    /// Reads an identifier from any of the forms in which a UUID is written.
    /// Fails with `ConvertToUuidError` exactly on the texts that are none.
    pub fn from_str(text: &str) -> (parsed: Result<Self, AppError>)
        ensures
            match parsed {
                Ok(id) => uuid_parsed(text@) == Some(id.0),
                Err(error) => uuid_parsed(text@) is None && error@ is ConvertToUuidError,
            },
    {
        match parse_id(text) {
            Ok(value) => Ok(BookId(value)),
            Err(error) => Err(error),
        }
    }

    /// The identifier in its hyphenated lower-case form.
    pub fn to_string(&self) -> (text: String)
        ensures
            text@ == uuid_text(self.0),
    {
        format_uuid(self.0)
    }
}

/// Identifies a user.
#[derive(Clone, Copy, Debug, PartialEq, Eq, Structural, Hash)]
pub struct UserId(pub u128);

impl UserId {
    /// A fresh random identifier.
    pub fn new() -> (id: Self)
        ensures
            is_random_uuid(id.0),
    {
        UserId(random_uuid())
    }

    /// The identifier packed in `value`.
    pub fn from_raw(value: u128) -> (id: Self)
        ensures
            id.0 == value,
    {
        UserId(value)
    }

    /// The 128-bit number behind the identifier.
    pub fn raw(self) -> (value: u128)
        ensures
            value == self.0,
    {
        self.0
    }

    /// Reads an identifier from any of the forms in which a UUID is written.
    /// Fails with `ConvertToUuidError` exactly on the texts that are none.
    pub fn from_str(text: &str) -> (parsed: Result<Self, AppError>)
        ensures
            match parsed {
                Ok(id) => uuid_parsed(text@) == Some(id.0),
                Err(error) => uuid_parsed(text@) is None && error@ is ConvertToUuidError,
            },
    {
        match parse_id(text) {
            Ok(value) => Ok(UserId(value)),
            Err(error) => Err(error),
        }
    }

    /// The identifier in its hyphenated lower-case form.
    pub fn to_string(&self) -> (text: String)
        ensures
            text@ == uuid_text(self.0),
    {
        format_uuid(self.0)
    }
}

/// Identifies one loan of a book.
#[derive(Clone, Copy, Debug, PartialEq, Eq, Structural, Hash)]
pub struct CheckoutId(pub u128);

impl CheckoutId {
    /// A fresh random identifier.
    pub fn new() -> (id: Self)
        ensures
            is_random_uuid(id.0),
    {
        CheckoutId(random_uuid())
    }

    /// The identifier packed in `value`.
    pub fn from_raw(value: u128) -> (id: Self)
        ensures
            id.0 == value,
    {
        CheckoutId(value)
    }

    /// The 128-bit number behind the identifier.
    pub fn raw(self) -> (value: u128)
        ensures
            value == self.0,
    {
        self.0
    }

    /// Reads an identifier from any of the forms in which a UUID is written.
    /// Fails with `ConvertToUuidError` exactly on the texts that are none.
    pub fn from_str(text: &str) -> (parsed: Result<Self, AppError>)
        ensures
            match parsed {
                Ok(id) => uuid_parsed(text@) == Some(id.0),
                Err(error) => uuid_parsed(text@) is None && error@ is ConvertToUuidError,
            },
    {
        match parse_id(text) {
            Ok(value) => Ok(CheckoutId(value)),
            Err(error) => Err(error),
        }
    }

    /// The identifier in its hyphenated lower-case form.
    pub fn to_string(&self) -> (text: String)
        ensures
            text@ == uuid_text(self.0),
    {
        format_uuid(self.0)
    }
}

} // verus!
