//! Reading the structured body of a failure answer.
//!
//! The JSON text itself is read by `serde_json`; which members make up an
//! [`ErrorMessage`], and which values they may hold, is decided here.

use vstd::prelude::*;
use vstd::string::StringExecFns;
use crate::error::{ErrorMessage, ErrorMessageView};

verus! {

#[verifier::external_type_specification]
#[verifier::external_body]
pub struct ExJsonValue(serde_json::Value);

/// The document that a text denotes, if the text is well-formed JSON.
pub uninterp spec fn json_document(text: Seq<char>) -> Option<serde_json::Value>;

/// The member of an object under a key; `None` where the value is no
/// object or has no such member.
pub uninterp spec fn json_member(value: serde_json::Value, key: Seq<char>) -> Option<
    serde_json::Value,
>;

/// The number that a value holds, if it is an integer that is not negative
/// and fits 64 bits.
pub uninterp spec fn json_unsigned(value: serde_json::Value) -> Option<u64>;

/// The text that a value holds, if it is a string.
pub uninterp spec fn json_string(value: serde_json::Value) -> Option<Seq<char>>;

/// Parses a JSON text with `serde_json::from_str`.
///
/// Trusted: whether the text is accepted, and the value that comes out,
/// depend on the text alone.
#[verifier::external_body]
fn parse_document(text: &str) -> (r: Option<serde_json::Value>)
    ensures
        r == json_document(text@),
{
    match serde_json::from_str::<serde_json::Value>(text) {
        Ok(value) => Some(value),
        Err(_) => None,
    }
}

/// Looks a member up with `serde_json::Value::get`.
///
/// Trusted: the member handed out is the one that the value holds under
/// the key, and none is handed out exactly when there is none.
#[verifier::external_body]
fn member<'a>(value: &'a serde_json::Value, key: &str) -> (r: Option<&'a serde_json::Value>)
    ensures
        match r {
            Some(found) => json_member(*value, key@) == Some(*found),
            None => json_member(*value, key@) is None,
        },
{
    value.get(key)
}

/// Reads a number with `serde_json::Value::as_u64`.
///
/// Trusted: the result depends on the value alone.
#[verifier::external_body]
fn unsigned(value: &serde_json::Value) -> (r: Option<u64>)
    ensures
        r == json_unsigned(*value),
{
    value.as_u64()
}

/// Reads a text with `serde_json::Value::as_str`.
///
/// Trusted: the result depends on the value alone.
#[verifier::external_body]
fn string<'a>(value: &'a serde_json::Value) -> (r: Option<&'a str>)
    ensures
        match r {
            Some(text) => json_string(*value) == Some(text@),
            None => json_string(*value) is None,
        },
{
    value.as_str()
}

/// The code that stands in for a body which is no structured message.
pub const FALLBACK_CODE: u16 = 422;

/// The message made of what the two members hold: both must be there, and
/// the code must fit 16 bits.
pub open spec fn message_of_fields(code: Option<u64>, message: Option<Seq<char>>) -> Option<
    ErrorMessageView,
> {
    if code is Some && message is Some && code.unwrap() <= u16::MAX {
        Some(ErrorMessageView { code: code.unwrap() as u16, message: message.unwrap() })
    } else {
        None
    }
}

/// What the member of a document under a key holds as a number.
pub open spec fn unsigned_member(document: serde_json::Value, key: Seq<char>) -> Option<u64> {
    match json_member(document, key) {
        Some(value) => json_unsigned(value),
        None => None,
    }
}

/// What the member of a document under a key holds as a text.
pub open spec fn string_member(document: serde_json::Value, key: Seq<char>) -> Option<
    Seq<char>,
> {
    match json_member(document, key) {
        Some(value) => json_string(value),
        None => None,
    }
}

/// The structured message that a body denotes: a JSON object whose member
/// `code` is a number that fits 16 bits and whose member `message` is a
/// string. Other members are ignored.
pub open spec fn decoded_message(body: Seq<char>) -> Option<ErrorMessageView> {
    match json_document(body) {
        Some(document) => message_of_fields(
            unsigned_member(document, "code"@),
            string_member(document, "message"@),
        ),
        None => None,
    }
}

/// The model of an optional message.
pub open spec fn message_view(message: Option<ErrorMessage>) -> Option<ErrorMessageView> {
    match message {
        Some(message) => Some(message@),
        None => None,
    }
}

/// The model of an optional text.
pub open spec fn text_view(text: Option<String>) -> Option<Seq<char>> {
    match text {
        Some(text) => Some(text@),
        None => None,
    }
}

impl ErrorMessage {
    /// Builds a message from what the members `code` and `message` of a
    /// body hold. There is none where either is missing or the code does
    /// not fit 16 bits.
    pub fn from_fields(code: Option<u64>, message: Option<String>) -> (r: Option<ErrorMessage>)
        ensures
            message_view(r) == message_of_fields(code, text_view(message)),
    {
        match (code, message) {
            (Some(code), Some(message)) => {
                if code <= 65535 {
                    Some(ErrorMessage { code: code as u16, message })
                } else {
                    None
                }
            },
            _ => None,
        }
    }

    /// Decodes the body of a failure answer.
    pub fn from_json(body: &str) -> (r: Option<ErrorMessage>)
        ensures
            message_view(r) == decoded_message(body@),
    {
        match parse_document(body) {
            Some(document) => {
                let code = match member(&document, "code") {
                    Some(value) => unsigned(value),
                    None => None,
                };
                let message = match member(&document, "message") {
                    Some(value) => match string(value) {
                        Some(text) => Some(String::from_str(text)),
                        None => None,
                    },
                    None => None,
                };
                ErrorMessage::from_fields(code, message)
            },
            None => None,
        }
    }

    /// The message that stands in for a body which is no structured
    /// message: the fallback code and the body as it came.
    pub fn fallback(body: String) -> (r: ErrorMessage)
        ensures
            r@ == (ErrorMessageView { code: FALLBACK_CODE, message: body@ }),
    {
        ErrorMessage { code: FALLBACK_CODE, message: body }
    }
}

} // verus!
