//! The closed set of failures of the client, and the classifier that decides
//! which of them are worth another attempt.

use crate::text::{contains_text, decimal, decimal_text, occurs_at, occurs_in};
use vstd::prelude::*;
use vstd::string::*;

verus! {

/// Lowest status code that counts as a failure of the request.
pub const FIRST_ERROR_STATUS: u16 = 400;

/// Lowest status code that counts as a failure of the server.
pub const FIRST_SERVER_STATUS: u16 = 500;

/// The service answered with a status that signals failure.
#[derive(Clone, Debug, PartialEq, Eq)]
pub struct ApiError {
    /// Numeric HTTP status.
    pub status: u16,
    /// Machine-readable tag of the failure.
    pub value: String,
    /// Human-readable explanation.
    pub message: String,
}

/// A failure below the level of HTTP statuses: the request could not be
/// built, sent, or its body could not be moved.
#[derive(Clone, Debug, PartialEq, Eq)]
pub struct TransportFailure {
    /// The operation ran into the configured timeout.
    pub timeout: bool,
    /// No connection could be made.
    pub connect: bool,
    /// The request itself was at fault.
    pub request: bool,
    /// The transport's own description of what went wrong.
    pub message: String,
}

/// Everything that can go wrong in one operation.
#[derive(Clone, Debug, PartialEq, Eq)]
pub enum PixelDrainError {
    /// The local filesystem failed.
    Io(String),
    /// The transport failed.
    Reqwest(TransportFailure),
    /// The service refused the request.
    Api(ApiError),
    /// A response body did not have the expected shape.
    Serde(String),
    /// No identifier could be taken from a link.
    InvalidUrl(String),
    /// A local path does not exist.
    FileNotFound(String),
    /// The operation needs a credential and none is configured.
    MissingApiKey,
}

/// The reason phrase that is customary for a status: the canonical one for a
/// status that has one, and `None` for every other number.
pub uninterp spec fn canonical_reason(status: u16) -> Option<Seq<char>>;

/// Looks up the reason phrase of `status`: `reqwest::StatusCode::from_u16`
/// makes the status, and `StatusCode::canonical_reason` gives its phrase. A
/// number that is no status, and a status without a canonical phrase, give
/// `None`. The result is taken to depend on the number alone.
#[verifier::external_body]
fn reason_phrase(status: u16) -> (r: Option<String>)
    ensures
        match r {
            Some(phrase) => canonical_reason(status) == Some(phrase@),
            None => canonical_reason(status) is None,
        },
{
    match reqwest::StatusCode::from_u16(status) {
        Ok(code) => match code.canonical_reason() {
            Some(phrase) => Some(phrase.to_string()),
            None => None,
        },
        Err(_) => None,
    }
}

/// A status as it is shown: its number, then its reason phrase, or a note
/// that the status is not known.
pub open spec fn status_text(status: u16) -> Seq<char> {
    decimal_text(status as nat) + " "@ + match canonical_reason(status) {
        Some(phrase) => phrase,
        None => "<unknown status code>"@,
    }
}

/// The phrase by which a transport reports that a body could not be moved.
pub open spec fn body_error_marker() -> Seq<char> {
    "request or response body error"@
}

impl ApiError {
    /// The status lies in the server's class of failures.
    pub open spec fn server_side(&self) -> bool {
        self.status >= FIRST_SERVER_STATUS
    }

    /// Whether the status lies in the server's class of failures.
    pub fn is_server_error(&self) -> (b: bool)
        ensures
            b == self.server_side(),
    {
        self.status >= FIRST_SERVER_STATUS
    }

    /// The text that `describe` produces.
    pub open spec fn description(&self) -> Seq<char> {
        "API Error "@ + status_text(self.status) + ": "@ + self.value@ + " - "@ + self.message@
    }

    /// Renders the error for display.
    pub fn describe(&self) -> (s: String)
        ensures
            s@ == self.description(),
    {
        let mut s: String = String::from_str("API Error ");
        let code: String = decimal(self.status as u64);
        s.append(code.as_str());
        s.append(" ");
        match reason_phrase(self.status) {
            Some(phrase) => {
                s.append(phrase.as_str());
            },
            None => {
                s.append("<unknown status code>");
            },
        }
        s.append(": ");
        s.append(self.value.as_str());
        s.append(" - ");
        s.append(self.message.as_str());
        s
    }
}

impl TransportFailure {
    /// The failure of a transfer whose body could not be read or written,
    /// with `detail` as what is known of the cause. It is told from other
    /// failures by the phrase at the start of its message, and it is
    /// retryable.
    pub fn body_failure(detail: &str) -> (f: TransportFailure)
        ensures
            f.retryable(),
            !f.timeout,
            !f.connect,
            !f.request,
            f.message@ == body_error_marker() + ": "@ + detail@,
    {
        let message: String = String::from_str("request or response body error").concat(
            ": ",
        ).concat(detail);
        proof {
            let marker = body_error_marker();
            assert(message@.subrange(0, marker.len() as int) == marker);
            assert(occurs_at(message@, marker, 0));
        }
        TransportFailure { timeout: false, connect: false, request: false, message }
    }

    /// The failure is one that another attempt may overcome: a timeout, a
    /// failed connection, a faulty request, or a body that could not be moved.
    pub open spec fn retryable(&self) -> bool {
        self.timeout || self.connect || self.request || occurs_in(
            self.message@,
            body_error_marker(),
        )
    }

    /// Whether another attempt may overcome the failure.
    pub fn is_retryable(&self) -> (b: bool)
        ensures
            b == self.retryable(),
    {
        self.timeout || self.connect || self.request || contains_text(
            self.message.as_str(),
            "request or response body error",
        )
    }
}

impl PixelDrainError {
    /// The error is retryable: a transport failure of a retryable kind, or a
    /// failure of the server. Every other error is terminal.
    pub open spec fn retryable(&self) -> bool {
        match self {
            PixelDrainError::Reqwest(failure) => failure.retryable(),
            PixelDrainError::Api(api) => api.server_side(),
            _ => false,
        }
    }

    /// Decides whether the error is retryable or terminal.
    pub fn is_retryable(&self) -> (b: bool)
        ensures
            b == self.retryable(),
    {
        match self {
            PixelDrainError::Reqwest(failure) => failure.is_retryable(),
            PixelDrainError::Api(api) => api.is_server_error(),
            _ => false,
        }
    }

    /// The text that `describe` produces.
    pub open spec fn description(&self) -> Seq<char> {
        match self {
            PixelDrainError::Io(e) => "IO error: "@ + e@,
            PixelDrainError::Reqwest(e) => "Request error: "@ + e.message@,
            PixelDrainError::Api(e) => "API error: "@ + e.description(),
            PixelDrainError::Serde(e) => "Serialization error: "@ + e@,
            PixelDrainError::InvalidUrl(m) => "Invalid URL: "@ + m@,
            PixelDrainError::FileNotFound(p) => "File not found: "@ + p@,
            PixelDrainError::MissingApiKey => "Missing API key"@,
        }
    }

    /// Renders the error as the message that is shown to the user.
    pub fn describe(&self) -> (s: String)
        ensures
            s@ == self.description(),
    {
        match self {
            PixelDrainError::Io(e) => String::from_str("IO error: ").concat(e.as_str()),
            PixelDrainError::Reqwest(e) => String::from_str("Request error: ").concat(
                e.message.as_str(),
            ),
            PixelDrainError::Api(e) => {
                let inner: String = e.describe();
                String::from_str("API error: ").concat(inner.as_str())
            },
            PixelDrainError::Serde(e) => String::from_str("Serialization error: ").concat(
                e.as_str(),
            ),
            PixelDrainError::InvalidUrl(m) => String::from_str("Invalid URL: ").concat(m.as_str()),
            PixelDrainError::FileNotFound(p) => String::from_str("File not found: ").concat(
                p.as_str(),
            ),
            PixelDrainError::MissingApiKey => String::from_str("Missing API key"),
        }
    }
}

/// A failed connection or a timeout is retryable, whatever else the failure
/// says of itself.
pub proof fn lemma_timeouts_and_connects_retry(failure: TransportFailure)
    requires
        failure.timeout || failure.connect,
    ensures
        PixelDrainError::Reqwest(failure).retryable(),
{
}

/// A refusal by the service is retryable exactly when its status is at or
/// above the first server status; client-class statuses are terminal.
pub proof fn lemma_status_decides_refusals(api: ApiError)
    ensures
        PixelDrainError::Api(api).retryable() <==> api.status >= 500,
        400 <= api.status <= 499 ==> !PixelDrainError::Api(api).retryable(),
{
}

/// Local failures, malformed responses, bad links and a missing credential are
/// never retried.
pub proof fn lemma_terminal_kinds(text: String)
    ensures
        !PixelDrainError::Io(text).retryable(),
        !PixelDrainError::Serde(text).retryable(),
        !PixelDrainError::InvalidUrl(text).retryable(),
        !PixelDrainError::FileNotFound(text).retryable(),
        !PixelDrainError::MissingApiKey.retryable(),
{
}

} // verus!
