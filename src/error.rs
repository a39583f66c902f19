//! The errors that every operation of the client can end in.

use vstd::prelude::*;

use crate::transport::RateLimits;

verus! {

/// Why an operation failed.
#[derive(Debug)]
pub enum Error {
    /// The request never got an answer: the connection, TLS or name lookup
    /// failed, or the call was cut short.
    Transport(String),
    /// The service answered with a status that is not a success.
    Http(HttpError),
    /// A local precondition failed; nothing was sent.
    Api(ApiError),
    /// The request body could not be written as JSON.
    Json(String),
    /// The service claimed success but its body did not have the expected shape.
    Parse(String),
}

/// A failure status from the service, with what its headers said about it.
#[derive(Debug, Clone)]
pub struct HttpError {
    pub status: u16,
    /// The `X-Error-Code` header, when present and readable.
    pub error_code: Option<String>,
    /// The `X-Error` header, when present and readable.
    pub error_message: Option<String>,
    pub rate_limits: RateLimits,
}

/// A precondition that is checked before any request is sent.
#[derive(Debug, Clone, Copy, PartialEq, Eq, Structural)]
pub enum ApiError {
    /// An operation that needs an access token was finalised without one.
    MissingAccessToken,
    /// The token exchange was attempted with no request token at hand.
    MissingRequestToken,
    /// An item was to be added without a URL.
    MissingUrl,
}

/// The text of an optional string.
pub open spec fn opt_text(o: Option<String>) -> Option<Seq<char>> {
    match o {
        Some(s) => Some(s@),
        None => None,
    }
}

impl HttpError {
    /// An internal-server-error status with nothing else known.
    pub fn new() -> (r: HttpError)
        ensures
            r.status == 500,
            r.error_code is None,
            r.error_message is None,
            r.rate_limits == RateLimits::none(),
    {
        HttpError {
            status: 500,
            error_code: None,
            error_message: None,
            rate_limits: RateLimits::default(),
        }
    }

    pub fn status_code(self, status: u16) -> (r: HttpError)
        ensures
            r.status == status,
            opt_text(r.error_code) == opt_text(self.error_code),
            opt_text(r.error_message) == opt_text(self.error_message),
            r.rate_limits == self.rate_limits,
    {
        HttpError { status, ..self }
    }

    pub fn error_code(self, error_code: &str) -> (r: HttpError)
        ensures
            r.status == self.status,
            opt_text(r.error_code) == Some(error_code@),
            opt_text(r.error_message) == opt_text(self.error_message),
            r.rate_limits == self.rate_limits,
    {
        HttpError { error_code: Some(String::from_str(error_code)), ..self }
    }

    pub fn error_message(self, error_message: &str) -> (r: HttpError)
        ensures
            r.status == self.status,
            opt_text(r.error_code) == opt_text(self.error_code),
            opt_text(r.error_message) == Some(error_message@),
            r.rate_limits == self.rate_limits,
    {
        HttpError { error_message: Some(String::from_str(error_message)), ..self }
    }

    pub fn rate_limits(self, rate_limits: RateLimits) -> (r: HttpError)
        ensures
            r.status == self.status,
            opt_text(r.error_code) == opt_text(self.error_code),
            opt_text(r.error_message) == opt_text(self.error_message),
            r.rate_limits == rate_limits,
    {
        HttpError { rate_limits, ..self }
    }
}

} // verus!
