//! Transaction identifiers: what ties a message that this client sent to the
//! event that the homeserver made of it.

use vstd::prelude::*;
use vstd::string::StringExecFns;
use uuid::Uuid;

verus! {

/// The identifier that `uuid` reads from a text, as a 128-bit number, or
/// `None` where it reads none.
pub uninterp spec fn uuid_parsed(text: Seq<char>) -> Option<u128>;

/// The text that `uuid` writes for the identifier with this 128-bit value.
pub uninterp spec fn uuid_hyphenated(id: u128) -> Seq<char>;

/// Whether a 128-bit value is that of a random identifier: the four bits of
/// its version read four, and the two bits of its variant read one and
/// zero. All other bits are free.
pub open spec fn is_random_identifier(id: u128) -> bool {
    (id & 0x0000_0000_0000_f000_c000_0000_0000_0000u128)
        == 0x0000_0000_0000_4000_8000_0000_0000_0000u128
}

/// Makes a random identifier.
///
/// Calls `Uuid::new_v4` of `uuid` and hands on the value of the identifier
/// as `Uuid::as_u128` gives it. The outcome is random. What is claimed of
/// it holds of every outcome: `Uuid::new_v4` takes 128 random bits and
/// sets the bits of version and variant to those of a random identifier,
/// and `Uuid::as_u128` gives those very bits back.
#[verifier::external_body]
fn new_v4() -> (id: u128)
    ensures
        is_random_identifier(id),
{
    Uuid::new_v4().as_u128()
}

/// Reads an identifier from a text.
///
/// Calls `Uuid::parse_str` of `uuid`. Where that fails the result is
/// `None`, else the value of the identifier as `Uuid::as_u128` gives it.
/// The contract only gives the outcome its name.
#[verifier::external_body]
fn parse_str(text: &str) -> (id: Option<u128>)
    ensures
        id == uuid_parsed(text@),
{
    match Uuid::parse_str(text) {
        Ok(uuid) => Some(uuid.as_u128()),
        Err(_) => None,
    }
}

/// Writes an identifier as text.
///
/// Makes the identifier with `Uuid::from_u128` of `uuid` and calls its
/// `to_string`, which writes it in lower-case hexadecimal digits, in five
/// groups with hyphens between them. The contract only gives the outcome
/// its name.
#[verifier::external_body]
fn hyphenated(id: u128) -> (text: String)
    ensures
        text@ == uuid_hyphenated(id),
{
    Uuid::from_u128(id).to_string()
}

/// The tag of the lines that echo the message sent under `id`.
pub open spec fn echo_tag(id: u128) -> Seq<char> {
    "matrix_echo_"@ + uuid_hyphenated(id)
}

/// The transaction that an event says it came from: the identifier that its
/// transaction id reads as, if it has one and it reads as one.
pub open spec fn transaction_of(transaction_id: Option<String>) -> Option<u128> {
    match transaction_id {
        Some(text) => uuid_parsed(text@),
        None => None,
    }
}

/// A fresh identifier for a message that is about to be sent: a random
/// identifier, so that it is some value with the version and variant of
/// one, and which value is left to chance.
pub fn fresh_transaction_id() -> (id: u128)
    ensures
        is_random_identifier(id),
{
    new_v4()
}

/// The transaction that an event says it came from.
pub fn transaction_id_of(transaction_id: &Option<String>) -> (id: Option<u128>)
    ensures
        id == transaction_of(*transaction_id),
{
    match transaction_id {
        Some(text) => parse_str(text.as_str()),
        None => None,
    }
}

/// The text of a transaction identifier, as it goes to the homeserver.
pub fn transaction_id_text(id: u128) -> (text: String)
    ensures
        text@ == uuid_hyphenated(id),
{
    hyphenated(id)
}

/// The tag of the lines that echo the message sent under the transaction
/// identifier that is written as `text`.
pub fn echo_tag_of(text: &str) -> (tag: String)
    ensures
        tag@ == "matrix_echo_"@ + text@,
{
    String::from_str("matrix_echo_").concat(text)
}

/// The tag of the lines that echo the message sent under `id`.
pub fn echo_tag_text(id: u128) -> (tag: String)
    ensures
        tag@ == echo_tag(id),
{
    let text = hyphenated(id);
    echo_tag_of(text.as_str())
}

} // verus!
