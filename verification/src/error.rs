//! The failures of a sampling run, and what the HTTP boundary makes of them.

use vstd::prelude::*;
use vstd::string::StringExecFns;

verus! {

/// The text of the failure that is reported when a list query at a valid
/// offset comes back without a reference.
pub const NO_RESULT_AT_OFFSET: &'static str = "no result at offset";

/// The text of the failure that is reported when a reply carries the payload
/// of the other kind of query.
pub const UNEXPECTED_PAYLOAD: &'static str = "unexpected payload in response";

/// The text of the failure that is reported when the catalog has no item to
/// draw from.
pub const EMPTY_CATALOG: &'static str = "catalog reports no items";

/// The status that every failed sampling run is answered with.
pub const BAD_GATEWAY: u16 = 502;

/// What kind of failure ended a run.
#[derive(Debug, Clone, Copy, PartialEq, Eq, Structural)]
pub enum ErrorKind {
    /// The remote could not be reached.
    Transport,
    /// The response body did not have the expected shape.
    Decode,
    /// The response was well formed but held nothing to offer.
    Remote,
    /// The catalog's size was zero or negative, so no index could be drawn.
    EmptyCatalog,
}

/// A failure as contracts speak of it: its kind and its text.
pub struct ErrorView {
    pub kind: ErrorKind,
    pub text: Seq<char>,
}

/// Why one round-trip to the remote gave no envelope.
#[derive(Debug, Clone, PartialEq, Eq)]
pub enum FetchFailure {
    /// The request could not be sent, or no response arrived.
    Transport(String),
    /// A response arrived, and its body did not decode.
    Decode(String),
}

impl View for FetchFailure {
    type V = ErrorView;

    open spec fn view(&self) -> ErrorView {
        match self {
            FetchFailure::Transport(text) => ErrorView { kind: ErrorKind::Transport, text: text@ },
            FetchFailure::Decode(text) => ErrorView { kind: ErrorKind::Decode, text: text@ },
        }
    }
}

/// The failure of a sampling run.
#[derive(Debug, Clone, PartialEq, Eq)]
pub enum SamplerError {
    Transport(String),
    Decode(String),
    Remote(String),
    EmptyCatalog,
}

impl View for SamplerError {
    type V = ErrorView;

    open spec fn view(&self) -> ErrorView {
        match self {
            SamplerError::Transport(text) => ErrorView { kind: ErrorKind::Transport, text: text@ },
            SamplerError::Decode(text) => ErrorView { kind: ErrorKind::Decode, text: text@ },
            SamplerError::Remote(text) => ErrorView { kind: ErrorKind::Remote, text: text@ },
            SamplerError::EmptyCatalog => ErrorView {
                kind: ErrorKind::EmptyCatalog,
                text: EMPTY_CATALOG@,
            },
        }
    }
}

impl SamplerError {
    /// The failure that a failed round-trip becomes: same kind, same text.
    pub fn from_fetch(failure: FetchFailure) -> (err: SamplerError)
        ensures
            err@ == failure@,
    {
        match failure {
            FetchFailure::Transport(text) => SamplerError::Transport(text),
            FetchFailure::Decode(text) => SamplerError::Decode(text),
        }
    }

    /// The remote answered a list query at a valid offset with no reference.
    pub fn no_result_at_offset() -> (err: SamplerError)
        ensures
            err@ == (ErrorView { kind: ErrorKind::Remote, text: NO_RESULT_AT_OFFSET@ }),
    {
        SamplerError::Remote(NO_RESULT_AT_OFFSET.to_owned())
    }

    /// The reply carried the payload of the other kind of query.
    pub fn unexpected_payload() -> (err: SamplerError)
        ensures
            err@ == (ErrorView { kind: ErrorKind::Decode, text: UNEXPECTED_PAYLOAD@ }),
    {
        SamplerError::Decode(UNEXPECTED_PAYLOAD.to_owned())
    }

    pub fn kind(&self) -> (kind: ErrorKind)
        ensures
            kind == self@.kind,
    {
        match self {
            SamplerError::Transport(_) => ErrorKind::Transport,
            SamplerError::Decode(_) => ErrorKind::Decode,
            SamplerError::Remote(_) => ErrorKind::Remote,
            SamplerError::EmptyCatalog => ErrorKind::EmptyCatalog,
        }
    }

    /// The textual description of the failure.
    pub fn message(&self) -> (text: String)
        ensures
            text@ == self@.text,
    {
        match self {
            SamplerError::Transport(text) => text.clone(),
            SamplerError::Decode(text) => text.clone(),
            SamplerError::Remote(text) => text.clone(),
            SamplerError::EmptyCatalog => EMPTY_CATALOG.to_owned(),
        }
    }
}

/// The answer of the HTTP boundary to a request that failed: a status and the
/// failure's text.
#[derive(Debug, Clone, PartialEq, Eq)]
pub struct AppError {
    pub msg: String,
    pub status: u16,
}

/// The JSON string literal that stands for a text: the text between double
/// quotes, with every character escaped that JSON does not take as it is.
pub uninterp spec fn json_string(text: Seq<char>) -> Seq<char>;

/// The body that answers a failed request: a JSON object whose one member,
/// `error`, holds the failure's text.
pub open spec fn error_body(msg: Seq<char>) -> Seq<char> {
    "{\"error\":"@ + json_string(msg) + "}"@
}

/// Calls `serde_json::to_string` on a `str`. The result is the JSON string
/// literal of the text, a function of the text alone. Writing a `str` into
/// memory is a serialization that does not fail, so a literal always comes
/// back.
#[verifier::external_body]
fn json_quote(text: &str) -> (quoted: String)
    ensures
        quoted@ == json_string(text@),
{
    serde_json::to_string(text).unwrap_or_default()
}

impl AppError {
    /// The answer to a failed sampling run. Whatever its kind, the failure is
    /// answered with "bad gateway" and its own text.
    pub fn bad_gateway(err: &SamplerError) -> (app: AppError)
        ensures
            app.status == BAD_GATEWAY,
            app.msg@ == err@.text,
    {
        AppError { msg: err.message(), status: BAD_GATEWAY }
    }

    /// The response body: `{"error":<msg>}`, the message as a JSON string.
    pub fn error_body(&self) -> (body: String)
        ensures
            body@ == error_body(self.msg@),
    {
        let mut body = "{\"error\":".to_owned();
        body.append(json_quote(self.msg.as_str()).as_str());
        body.append("}");
        body
    }
}

} // verus!
