//! Error types for the Open-Meteo API clients.
//!
//! Every failure is reported to the immediate caller as a typed result; none
//! is swallowed, and no retry is attempted at this layer.

use vstd::prelude::*;

verus! {

/// Errors that can occur when interacting with Open-Meteo APIs.
#[derive(Debug, Clone, PartialEq, Eq)]
pub enum OpenMeteoError {
    /// The HTTP transport failed (DNS, connection, TLS, timeout); carries the
    /// transport's own error text.
    RequestFailed(String),
    /// The API returned a non-2xx response; carries the extracted reason, or
    /// the raw status and body text when no reason envelope was present.
    ApiError { reason: String },
    /// The response body is not valid JSON or does not match the expected
    /// shape; carries a diagnostic.
    DeserializationError(String),
    /// A request field could not be encoded into a URL, e.g. a malformed base
    /// URL; carries the encoder's diagnostic.
    InvalidParameter(String),
    /// Geocoding returned a structurally valid but empty result set.
    NoResults,
}

/// The text that [`OpenMeteoError::describe`] returns for each error.
pub open spec fn error_text(e: OpenMeteoError) -> Seq<char> {
    match e {
        OpenMeteoError::RequestFailed(s) => "HTTP request failed: "@ + s@,
        OpenMeteoError::ApiError { reason } => "API error: "@ + reason@,
        OpenMeteoError::DeserializationError(s) => "Failed to deserialize response: "@ + s@,
        OpenMeteoError::InvalidParameter(s) => "Invalid parameter: "@ + s@,
        OpenMeteoError::NoResults => "No results found for query"@,
    }
}

impl OpenMeteoError {
    /// A human-readable description of the error.
    pub fn describe(&self) -> (r: String)
        ensures
            r@ == error_text(*self),
    {
        match self {
            OpenMeteoError::RequestFailed(s) => {
                String::from_str("HTTP request failed: ").concat(s.as_str())
            },
            OpenMeteoError::ApiError { reason } => {
                String::from_str("API error: ").concat(reason.as_str())
            },
            OpenMeteoError::DeserializationError(s) => {
                String::from_str("Failed to deserialize response: ").concat(s.as_str())
            },
            OpenMeteoError::InvalidParameter(s) => {
                String::from_str("Invalid parameter: ").concat(s.as_str())
            },
            OpenMeteoError::NoResults => String::from_str("No results found for query"),
        }
    }
}

/// Whether an HTTP status code reports success.
pub open spec fn status_success(status: u16) -> bool {
    200 <= status < 300
}

/// The `ApiError` reason built from a raw status and body text, used when
/// no error envelope gives a better one.
pub open spec fn raw_reason(status: u16, body: Seq<char>) -> Seq<char> {
    "HTTP "@ + crate::text::dec_digits(status as nat) + ": "@ + body
}

/// Build the raw status-and-body error reason.
pub(crate) fn make_raw_reason(status: u16, body: &str) -> (r: String)
    ensures
        r@ == raw_reason(status, body@),
{
    let mut reason = String::from_str("HTTP ");
    reason.append(crate::text::u16_to_string(status).as_str());
    reason.append(": ");
    reason.append(body);
    reason
}

} // verus!
