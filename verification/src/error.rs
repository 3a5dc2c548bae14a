//! The one error type of the library. A failed operation is reported by
//! kind, never by a partly filled result: callers match on the variant.

use crate::text::{decimal_text, int_text};
use vstd::prelude::*;
use vstd::string::*;

verus! {

/// Why an operation failed.
#[derive(Debug, Clone, PartialEq, Eq)]
pub enum APIError {
    /// The network call itself failed (connection, name resolution, TLS).
    /// The text is the transport's own description. Never retried here.
    TransportError(String),
    /// The remote service answered with a status outside `200..=299`.
    HttpStatusError {
        /// The status code of the answer.
        status: u16,
        /// The body of the answer, as it was received.
        body: String,
    },
    /// The body of an answer could not be read as the expected resource.
    DecodeError(String),
    /// A wait ran out before the awaited state was seen.
    Timeout,
    /// A parameter supplied by the caller is not acceptable.
    ConfigurationError(String),
    /// Reading or writing a local file failed.
    IoError(String),
}

/// The kinds of failure, without their payload.
#[derive(Debug, Clone, Copy, PartialEq, Eq, Structural)]
pub enum ErrorKind {
    /// See [`APIError::TransportError`].
    Transport,
    /// See [`APIError::HttpStatusError`].
    HttpStatus,
    /// See [`APIError::DecodeError`].
    Decode,
    /// See [`APIError::Timeout`].
    Timeout,
    /// See [`APIError::ConfigurationError`].
    Configuration,
    /// See [`APIError::IoError`].
    Io,
}

impl APIError {
    /// The kind of an error.
    pub open spec fn spec_kind(self) -> ErrorKind {
        match self {
            APIError::TransportError(_) => ErrorKind::Transport,
            APIError::HttpStatusError { .. } => ErrorKind::HttpStatus,
            APIError::DecodeError(_) => ErrorKind::Decode,
            APIError::Timeout => ErrorKind::Timeout,
            APIError::ConfigurationError(_) => ErrorKind::Configuration,
            APIError::IoError(_) => ErrorKind::Io,
        }
    }

    /// The text that `to_string` produces.
    pub open spec fn message(self) -> Seq<char> {
        match self {
            APIError::TransportError(text) => "TransportError: "@ + text@,
            APIError::HttpStatusError { status, body } => "HttpStatusError: "@ + decimal_text(
                status as int,
            ) + ": "@ + body@,
            APIError::DecodeError(text) => "DecodeError: "@ + text@,
            APIError::Timeout => "Timeout"@,
            APIError::ConfigurationError(text) => "ConfigurationError: "@ + text@,
            APIError::IoError(text) => "IoError: "@ + text@,
        }
    }

    /// The kind of this error.
    pub fn kind(&self) -> (r: ErrorKind)
        ensures
            r == self.spec_kind(),
    {
        match self {
            APIError::TransportError(_) => ErrorKind::Transport,
            APIError::HttpStatusError { .. } => ErrorKind::HttpStatus,
            APIError::DecodeError(_) => ErrorKind::Decode,
            APIError::Timeout => ErrorKind::Timeout,
            APIError::ConfigurationError(_) => ErrorKind::Configuration,
            APIError::IoError(_) => ErrorKind::Io,
        }
    }

    /// A line of text for people: the name of the kind, then the details.
    pub fn to_string(&self) -> (r: String)
        ensures
            r@ == self.message(),
    {
        match self {
            APIError::TransportError(text) => {
                let mut r = String::from_str("TransportError: ");
                r.append(text.as_str());
                r
            },
            APIError::HttpStatusError { status, body } => {
                let mut r = String::from_str("HttpStatusError: ");
                let code = int_text(*status as i64);
                r.append(code.as_str());
                r.append(": ");
                r.append(body.as_str());
                r
            },
            APIError::DecodeError(text) => {
                let mut r = String::from_str("DecodeError: ");
                r.append(text.as_str());
                r
            },
            APIError::Timeout => String::from_str("Timeout"),
            APIError::ConfigurationError(text) => {
                let mut r = String::from_str("ConfigurationError: ");
                r.append(text.as_str());
                r
            },
            APIError::IoError(text) => {
                let mut r = String::from_str("IoError: ");
                r.append(text.as_str());
                r
            },
        }
    }
}

} // verus!
