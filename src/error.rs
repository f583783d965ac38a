//! The error taxonomy and its translation into client-visible replies.
use vstd::prelude::*;

verus! {

/// Every failure the service can report.
#[derive(Clone, Copy, Debug, PartialEq, Eq, Structural)]
pub enum ErrorKind {
    MalformedEnvelope,
    UnsupportedFormat,
    Base64DecodeError,
    ImageDecodeError,
    ImageEncodeError,
    ModelLoadError,
    InferenceError,
    MalformedRequestBody,
    RouteNotFound,
    InternalError,
}

/// A pipeline failure: its kind and a human-readable message.
#[derive(Clone, Debug)]
pub struct ImageError {
    pub kind: ErrorKind,
    pub message: String,
}

/// The HTTP status that a failure of kind `k` is reported with.
pub open spec fn status_spec(k: ErrorKind) -> u16 {
    match k {
        ErrorKind::MalformedEnvelope => 400,
        ErrorKind::UnsupportedFormat => 400,
        ErrorKind::Base64DecodeError => 400,
        ErrorKind::ImageDecodeError => 400,
        ErrorKind::MalformedRequestBody => 400,
        ErrorKind::RouteNotFound => 404,
        ErrorKind::ImageEncodeError => 500,
        ErrorKind::ModelLoadError => 500,
        ErrorKind::InferenceError => 500,
        ErrorKind::InternalError => 500,
    }
}

/// The HTTP status that a failure of kind `k` is reported with.
pub fn status_code(k: ErrorKind) -> (r: u16)
    ensures
        r == status_spec(k),
{
    match k {
        ErrorKind::MalformedEnvelope => 400,
        ErrorKind::UnsupportedFormat => 400,
        ErrorKind::Base64DecodeError => 400,
        ErrorKind::ImageDecodeError => 400,
        ErrorKind::MalformedRequestBody => 400,
        ErrorKind::RouteNotFound => 404,
        ErrorKind::ImageEncodeError => 500,
        ErrorKind::ModelLoadError => 500,
        ErrorKind::InferenceError => 500,
        ErrorKind::InternalError => 500,
    }
}

/// The message shown to clients in place of an unclassified failure's detail.
pub open spec fn internal_message() -> Seq<char> {
    "internal server error"@
}

/// The message shown for an unmatched route.
pub open spec fn not_found_message() -> Seq<char> {
    "resource not found"@
}

/// The message a client sees for a failure of kind `k` with detail `detail`:
/// the detail itself, except that unclassified failures do not leak it and an
/// unmatched route has a fixed text.
pub open spec fn client_message_spec(k: ErrorKind, detail: Seq<char>) -> Seq<char> {
    match k {
        ErrorKind::InternalError => internal_message(),
        ErrorKind::RouteNotFound => not_found_message(),
        _ => detail,
    }
}

/// The two-field error envelope sent to clients.
#[derive(Clone, Debug)]
pub struct ErrorReply {
    pub code: u16,
    pub message: String,
}

/// Translates a failure into the error envelope a client receives.
pub fn error_reply(k: ErrorKind, detail: &str) -> (r: ErrorReply)
    ensures
        r.code == status_spec(k),
        r.message@ == client_message_spec(k, detail@),
{
    let message = match k {
        ErrorKind::InternalError => "internal server error".to_owned(),
        ErrorKind::RouteNotFound => "resource not found".to_owned(),
        _ => detail.to_owned(),
    };
    ErrorReply { code: status_code(k), message }
}

impl ImageError {
    /// A failure of kind `kind` with message `message`.
    pub fn new(kind: ErrorKind, message: &str) -> (r: ImageError)
        ensures
            r.kind == kind,
            r.message@ == message@,
    {
        ImageError { kind, message: message.to_owned() }
    }

    /// A failure of kind `kind` with message `prefix` followed by `detail`.
    pub fn with_detail(kind: ErrorKind, prefix: &str, detail: &str) -> (r: ImageError)
        ensures
            r.kind == kind,
            r.message@ == prefix@ + detail@,
    {
        let mut message = prefix.to_owned();
        message.append(detail);
        ImageError { kind, message }
    }

    /// The envelope a client receives for this failure.
    pub fn to_reply(&self) -> (r: ErrorReply)
        ensures
            r.code == status_spec(self.kind),
            r.message@ == client_message_spec(self.kind, self.message@),
            self.message@.len() > 0 ==> r.message@.len() > 0,
    {
        proof {
            reveal_strlit("internal server error");
            reveal_strlit("resource not found");
        }
        error_reply(self.kind, self.message.as_str())
    }
}

} // verus!
