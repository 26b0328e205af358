use vstd::prelude::*;
use vstd::string::StringExecFns;

verus! {

/// Everything that can go wrong while serving a document.
#[derive(Debug, PartialEq, Eq)]
pub enum AppError {
    /// The payload of a write is not JSON; holds the parser's message.
    InvalidPayload(String),
    /// The database refused a connection or a statement; holds its message.
    Db(String),
    /// The worker that ran the storage operation was lost; holds the
    /// runtime's message.
    Join(String),
    /// A stored document no longer parses as JSON; holds the parser's message.
    Decode(String),
    /// The key is not one of the documents this service keeps.
    UnknownKey,
}

/// Status of a response whose request was malformed.
pub const STATUS_BAD_REQUEST: u16 = 400;

/// Status of a response for a document that does not exist.
pub const STATUS_NOT_FOUND: u16 = 404;

/// Status of a response when the service itself failed.
pub const STATUS_INTERNAL_ERROR: u16 = 500;

impl AppError {
    /// The HTTP status that reports this error: the client's fault for a
    /// payload that is not JSON, not found for an unknown key, and an
    /// internal error for everything that failed on the service's side.
    pub open spec fn spec_status(&self) -> u16 {
        match self {
            AppError::InvalidPayload(_) => STATUS_BAD_REQUEST,
            AppError::UnknownKey => STATUS_NOT_FOUND,
            AppError::Db(_) | AppError::Join(_) | AppError::Decode(_) => STATUS_INTERNAL_ERROR,
        }
    }

    /// The text sent with the status: the message the error carries, or a
    /// fixed phrase for an unknown key.
    pub open spec fn spec_detail(&self) -> Seq<char> {
        match self {
            AppError::InvalidPayload(msg) => msg@,
            AppError::Db(msg) => msg@,
            AppError::Join(msg) => msg@,
            AppError::Decode(msg) => msg@,
            AppError::UnknownKey => "unknown key"@,
        }
    }

    /// What a log line says of this error: a phrase naming the category,
    /// followed by the message the error carries.
    pub open spec fn spec_describe(&self) -> Seq<char> {
        match self {
            AppError::InvalidPayload(msg) => "invalid json payload: "@ + msg@,
            AppError::Db(msg) => "database error: "@ + msg@,
            AppError::Join(msg) => "task join error: "@ + msg@,
            AppError::Decode(msg) => "stored document is not json: "@ + msg@,
            AppError::UnknownKey => "unknown key"@,
        }
    }

    /// The HTTP status that reports this error.
    #[verifier::when_used_as_spec(spec_status)]
    pub fn status(&self) -> (code: u16)
        ensures
            code == self.spec_status(),
    {
        match self {
            AppError::InvalidPayload(_) => STATUS_BAD_REQUEST,
            AppError::UnknownKey => STATUS_NOT_FOUND,
            AppError::Db(_) => STATUS_INTERNAL_ERROR,
            AppError::Join(_) => STATUS_INTERNAL_ERROR,
            AppError::Decode(_) => STATUS_INTERNAL_ERROR,
        }
    }

    /// What a log line says of this error.
    pub fn describe(&self) -> (text: String)
        ensures
            text@ == self.spec_describe(),
    {
        match self {
            AppError::InvalidPayload(msg) => prefixed("invalid json payload: ", msg),
            AppError::Db(msg) => prefixed("database error: ", msg),
            AppError::Join(msg) => prefixed("task join error: ", msg),
            AppError::Decode(msg) => prefixed("stored document is not json: ", msg),
            AppError::UnknownKey => String::from_str("unknown key"),
        }
    }

    /// Turns the error into the status and text of the response that
    /// reports it.
    pub fn into_response(self) -> (r: (u16, String))
        ensures
            r.0 == self.spec_status(),
            r.1@ == self.spec_detail(),
    {
        match self {
            AppError::InvalidPayload(msg) => (STATUS_BAD_REQUEST, msg),
            AppError::Db(msg) => (STATUS_INTERNAL_ERROR, msg),
            AppError::Join(msg) => (STATUS_INTERNAL_ERROR, msg),
            AppError::Decode(msg) => (STATUS_INTERNAL_ERROR, msg),
            AppError::UnknownKey => (STATUS_NOT_FOUND, String::from_str("unknown key")),
        }
    }
}

fn prefixed(prefix: &str, msg: &String) -> (text: String)
    ensures
        text@ == prefix@ + msg@,
{
    let mut text = String::from_str(prefix);
    text.append(msg.as_str());
    text
}

} // verus!
