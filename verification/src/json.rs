//! JSON as this crate needs it: a payload is checked and encoded again
//! compactly, a stored text is decoded. Both are the work of `serde_json`.

use crate::error::AppError;
use vstd::prelude::*;

verus! {

/// A JSON value. Nothing in this crate looks inside one: a value is known
/// by what the encoder makes of it.
#[verifier::external_type_specification]
#[verifier::external_body]
pub struct ExValue(serde_json::Value);

/// What `serde_json::to_string` makes of a value: `Ok` with the compact
/// text, or `Err` with the message of the error it gave.
pub uninterp spec fn json_encoded(value: serde_json::Value) -> Result<Seq<char>, Seq<char>>;

/// What `serde_json::from_str` makes of a text: `Ok` with the value it
/// read, known by what the encoder makes of that value, or `Err` with the
/// message of the error it gave.
pub uninterp spec fn json_parsed(text: Seq<char>) -> Result<Result<Seq<char>, Seq<char>>, Seq<char>>;

/// The compact text stored for a payload: what the encoder writes for the
/// value the parser read. `Err` holds the message of whichever of the two
/// refused.
pub open spec fn compact_text(body: Seq<char>) -> Result<Seq<char>, Seq<char>> {
    match json_parsed(body) {
        Ok(encoded) => encoded,
        Err(reason) => Err(reason),
    }
}

/// Calls `serde_json::from_str` for a `serde_json::Value`. The parser reads
/// the whole text and depends on nothing else, so its answer is the one
/// `json_parsed` names: the value read, or the message of the error. The
/// empty object and the empty array are JSON, so it reads both.
#[verifier::external_body]
fn parse_json(text: &str) -> (r: Result<serde_json::Value, String>)
    ensures
        text@ == "{}"@ || text@ == "[]"@ ==> r is Ok,
        match r {
            Ok(value) => json_parsed(text@) == Ok::<Result<Seq<char>, Seq<char>>, Seq<char>>(
                json_encoded(value),
            ),
            Err(msg) => json_parsed(text@) == Err::<Result<Seq<char>, Seq<char>>, Seq<char>>(msg@),
        },
{
    match serde_json::from_str::<serde_json::Value>(text) {
        Ok(value) => Ok(value),
        Err(e) => Err(e.to_string()),
    }
}

/// Calls `serde_json::to_string`. The encoder depends on the value alone,
/// so its answer is the one `json_encoded` names: the compact text, or the
/// message of the error.
#[verifier::external_body]
fn encode_json(value: &serde_json::Value) -> (r: Result<String, String>)
    ensures
        match r {
            Ok(text) => json_encoded(*value) == Ok::<Seq<char>, Seq<char>>(text@),
            Err(msg) => json_encoded(*value) == Err::<Seq<char>, Seq<char>>(msg@),
        },
{
    match serde_json::to_string(value) {
        Ok(text) => Ok(text),
        Err(e) => Err(e.to_string()),
    }
}

/// Decodes a stored document. A text that is not JSON means the table
/// holds something that no write of this crate put there. The two default
/// documents always decode.
pub fn decode_document(text: &str) -> (r: Result<serde_json::Value, AppError>)
    ensures
        text@ == "{}"@ || text@ == "[]"@ ==> r is Ok,
        match json_parsed(text@) {
            Ok(encoded) => r matches Ok(value) && json_encoded(value) == encoded,
            Err(reason) => r matches Err(AppError::Decode(msg)) && msg@ == reason,
        },
{
    match parse_json(text) {
        Ok(value) => Ok(value),
        Err(msg) => Err(AppError::Decode(msg)),
    }
}

/// Encodes a value as the compact text that is stored for it. Where the
/// encoder refuses the value its message comes back as a payload error.
fn encode_value(value: &serde_json::Value) -> (r: Result<String, AppError>)
    ensures
        match json_encoded(*value) {
            Ok(compact) => r matches Ok(text) && text@ == compact,
            Err(reason) => r matches Err(AppError::InvalidPayload(msg)) && msg@ == reason,
        },
{
    match encode_json(value) {
        Ok(text) => Ok(text),
        Err(msg) => Err(AppError::InvalidPayload(msg)),
    }
}

/// Checks the payload of a write and encodes it again compactly. A payload
/// that is not JSON is rejected with the parser's message.
pub fn encode_payload(body: &str) -> (r: Result<String, AppError>)
    ensures
        match compact_text(body@) {
            Ok(compact) => r matches Ok(text) && text@ == compact,
            Err(reason) => r matches Err(AppError::InvalidPayload(msg)) && msg@ == reason,
        },
{
    match parse_json(body) {
        Ok(value) => encode_value(&value),
        Err(msg) => Err(AppError::InvalidPayload(msg)),
    }
}

} // verus!
