//! The errors of the client.

use crate::text::{decimal, push_decimal};
use vstd::prelude::*;
use vstd::string::*;

verus! {

/// Why a client operation failed.
#[derive(Debug, Clone, PartialEq, Eq)]
pub enum GmoCoinError {
    /// A required environment variable is missing or is no valid text; the
    /// field names the variable.
    EnvVar(String),
    /// The transport could not send the request or received no reply; the
    /// field holds the transport's own words.
    Transport(String),
    /// The server replied with a status code outside 200 to 299.
    HttpStatus(u16),
    /// The API key cannot stand in an HTTP header.
    InvalidHeaderValue,
    /// The signed headers could not be produced: the request is too long to
    /// be signed.
    MissingRequestHeaders,
    /// The body of the reply could not be read; the field holds the
    /// transport's own words.
    ResponseRead(String),
    /// The body of the reply is no JSON document of the expected shape.
    Json,
    /// The clock does not give a time that can be sent.
    SystemTime,
}

/// The model of a [`GmoCoinError`].
pub enum ErrorView {
    EnvVar(Seq<char>),
    Transport(Seq<char>),
    HttpStatus(u16),
    InvalidHeaderValue,
    MissingRequestHeaders,
    ResponseRead(Seq<char>),
    Json,
    SystemTime,
}

impl DeepView for GmoCoinError {
    type V = ErrorView;

    open spec fn deep_view(&self) -> ErrorView {
        match self {
            GmoCoinError::EnvVar(name) => ErrorView::EnvVar(name@),
            GmoCoinError::Transport(detail) => ErrorView::Transport(detail@),
            GmoCoinError::HttpStatus(status) => ErrorView::HttpStatus(*status),
            GmoCoinError::InvalidHeaderValue => ErrorView::InvalidHeaderValue,
            GmoCoinError::MissingRequestHeaders => ErrorView::MissingRequestHeaders,
            GmoCoinError::ResponseRead(detail) => ErrorView::ResponseRead(detail@),
            GmoCoinError::Json => ErrorView::Json,
            GmoCoinError::SystemTime => ErrorView::SystemTime,
        }
    }
}

impl ErrorView {
    /// The message of the error.
    pub open spec fn message(self) -> Seq<char> {
        match self {
            ErrorView::EnvVar(name) => "environment variable error: "@ + name,
            ErrorView::Transport(detail) => "http request error: "@ + detail,
            ErrorView::HttpStatus(status) => "http status error: "@ + decimal(status as nat),
            ErrorView::InvalidHeaderValue => "invalid header value"@,
            ErrorView::MissingRequestHeaders => "request headers are not available"@,
            ErrorView::ResponseRead(detail) => "response read error: "@ + detail,
            ErrorView::Json => "json parse error"@,
            ErrorView::SystemTime => "system time error"@,
        }
    }
}

impl GmoCoinError {
    /// The message of the error.
    pub fn to_string(&self) -> (s: String)
        ensures
            s@ == self.deep_view().message(),
    {
        match self {
            GmoCoinError::EnvVar(name) => String::from_str("environment variable error: ").concat(
                name.as_str(),
            ),
            GmoCoinError::Transport(detail) => String::from_str("http request error: ").concat(
                detail.as_str(),
            ),
            GmoCoinError::HttpStatus(status) => {
                let mut s = String::from_str("http status error: ");
                push_decimal(&mut s, *status as u64);
                s
            },
            GmoCoinError::InvalidHeaderValue => String::from_str("invalid header value"),
            GmoCoinError::MissingRequestHeaders => String::from_str(
                "request headers are not available",
            ),
            GmoCoinError::ResponseRead(detail) => String::from_str("response read error: ").concat(
                detail.as_str(),
            ),
            GmoCoinError::Json => String::from_str("json parse error"),
            GmoCoinError::SystemTime => String::from_str("system time error"),
        }
    }
}

} // verus!
