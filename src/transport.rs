//! What the client makes of a response: the status decides between a decoded
//! body and an error, and the headers give the error's details and the rate
//! limits. The request itself is sent by the caller's HTTP transport.

use vstd::prelude::*;

use reqwest::header::{HeaderMap, HeaderValue};

use crate::decimal::{parse_u32, u32_of_text};
use crate::error::{opt_text, Error, HttpError};

verus! {

#[verifier::external_type_specification]
#[verifier::external_body]
#[verifier::reject_recursive_types(T)]
pub struct ExHeaderMap<T>(HeaderMap<T>);

#[verifier::external_type_specification]
#[verifier::external_body]
pub struct ExHeaderValue(HeaderValue);

/// For each name, the bytes of the first value that `HeaderMap::get` finds
/// under it (names are matched without regard to ASCII case).
pub uninterp spec fn header_lookup(headers: HeaderMap) -> Map<Seq<char>, Seq<u8>>;

/// A byte that a header value may hold and still be read as text.
pub open spec fn is_visible_ascii(b: u8) -> bool {
    (32 <= b && b < 127) || b == 9
}

/// Every byte may be read as text.
pub open spec fn all_visible_ascii(bytes: Seq<u8>) -> bool {
    forall|i: int| 0 <= i < bytes.len() ==> is_visible_ascii(#[trigger] bytes[i])
}

/// The characters of a run of ASCII bytes.
pub open spec fn ascii_chars(bytes: Seq<u8>) -> Seq<char> {
    bytes.map_values(|b: u8| b as char)
}

/// The text of the first value under `name`, when there is one and it is all
/// visible ASCII.
pub open spec fn header_text(headers: HeaderMap, name: Seq<char>) -> Option<Seq<char>> {
    if header_lookup(headers).contains_key(name) && all_visible_ascii(
        header_lookup(headers)[name],
    ) {
        Some(ascii_chars(header_lookup(headers)[name]))
    } else {
        None
    }
}

/// The number in the first value under `name`, when it is readable as a `u32`.
pub open spec fn header_u32(headers: HeaderMap, name: Seq<char>) -> Option<u32> {
    match header_text(headers, name) {
        Some(t) => u32_of_text(t),
        None => None,
    }
}

/// Relies on `HeaderMap::get`, which yields the first value under a name, and
/// on `HeaderValue::to_str`, which succeeds exactly when every byte of the value
/// is visible ASCII (32 to 126) or a tab, and then yields those bytes as text.
#[verifier::external_body]
fn read_header(headers: &HeaderMap, name: &str) -> (r: Option<String>)
    ensures
        r.is_some() == (header_lookup(*headers).contains_key(name@) && all_visible_ascii(
            header_lookup(*headers)[name@],
        )),
        r matches Some(text) ==> text@ == ascii_chars(header_lookup(*headers)[name@]),
{
    match headers.get(name) {
        Some(value) => match value.to_str() {
            Ok(text) => Some(text.to_string()),
            Err(_) => None,
        },
        None => None,
    }
}

/// Call quotas reported by the service. A header that is absent or not a
/// number leaves its field empty.
#[derive(Debug, Clone, Copy, PartialEq, Eq, Structural)]
pub struct RateLimits {
    /// X-Limit-User-Limit: the rate limit enforced per user
    pub user_limit: Option<u32>,
    /// X-Limit-User-Remaining: calls left before the user's limit
    pub user_remaining: Option<u32>,
    /// X-Limit-User-Reset: seconds until the user's limit resets
    pub user_reset: Option<u32>,
    /// X-Limit-Key-Limit: the rate limit enforced per consumer key
    pub key_limit: Option<u32>,
    /// X-Limit-Key-Remaining: calls left before the consumer key's limit
    pub key_remaining: Option<u32>,
    /// X-Limit-Key-Reset: seconds until the consumer key's limit resets
    pub key_reset: Option<u32>,
}

impl RateLimits {
    pub const USER_LIMIT_HEADER: &'static str = "X-Limit-User-Limit";
    pub const USER_REMAINING_HEADER: &'static str = "X-Limit-User-Remaining";
    pub const USER_RESET_HEADER: &'static str = "X-Limit-User-Reset";
    pub const KEY_LIMIT_HEADER: &'static str = "X-Limit-Key-Limit";
    pub const KEY_REMAINING_HEADER: &'static str = "X-Limit-Key-Remaining";
    pub const KEY_RESET_HEADER: &'static str = "X-Limit-Key-Reset";

    /// No limit known.
    pub open spec fn none() -> RateLimits {
        RateLimits {
            user_limit: None,
            user_remaining: None,
            user_reset: None,
            key_limit: None,
            key_remaining: None,
            key_reset: None,
        }
    }

    /// The limits that a set of response headers reports.
    pub open spec fn of_headers(headers: HeaderMap) -> RateLimits {
        RateLimits {
            user_limit: header_u32(headers, Self::USER_LIMIT_HEADER@),
            user_remaining: header_u32(headers, Self::USER_REMAINING_HEADER@),
            user_reset: header_u32(headers, Self::USER_RESET_HEADER@),
            key_limit: header_u32(headers, Self::KEY_LIMIT_HEADER@),
            key_remaining: header_u32(headers, Self::KEY_REMAINING_HEADER@),
            key_reset: header_u32(headers, Self::KEY_RESET_HEADER@),
        }
    }

    pub fn from_headers(headers: &HeaderMap) -> (r: RateLimits)
        ensures
            r == RateLimits::of_headers(*headers),
    {
        RateLimits {
            user_limit: header_number(headers, Self::USER_LIMIT_HEADER),
            user_remaining: header_number(headers, Self::USER_REMAINING_HEADER),
            user_reset: header_number(headers, Self::USER_RESET_HEADER),
            key_limit: header_number(headers, Self::KEY_LIMIT_HEADER),
            key_remaining: header_number(headers, Self::KEY_REMAINING_HEADER),
            key_reset: header_number(headers, Self::KEY_RESET_HEADER),
        }
    }
}

impl Default for RateLimits {
    fn default() -> (r: RateLimits)
        ensures
            r == RateLimits::none(),
    {
        RateLimits {
            user_limit: None,
            user_remaining: None,
            user_reset: None,
            key_limit: None,
            key_remaining: None,
            key_reset: None,
        }
    }
}

fn header_number(headers: &HeaderMap, name: &str) -> (r: Option<u32>)
    ensures
        r == header_u32(*headers, name@),
{
    match read_header(headers, name) {
        Some(text) => parse_u32(text.as_str()),
        None => None,
    }
}

/// A decoded body with the rate limits that came with it.
#[derive(Debug, Clone)]
pub struct PocketyResponse<T> {
    pub rate_limits: RateLimits,
    pub data: T,
}

/// What every call to the service ends in.
pub type ApiResult<T> = Result<PocketyResponse<T>, Error>;

/// The service's fixed addresses.
#[derive(Debug, Clone, Copy, PartialEq, Eq, Structural)]
pub enum PocketyUrl {
    /// The root that every endpoint path is joined to.
    Base,
    /// The page where the user authorises a request token.
    Authorize,
}

impl PocketyUrl {
    pub open spec fn text(self) -> Seq<char> {
        match self {
            PocketyUrl::Base => BASE_URL@,
            PocketyUrl::Authorize => AUTHORIZE_URL@,
        }
    }

    pub fn as_str(&self) -> (r: &'static str)
        ensures
            r@ == self.text(),
    {
        match self {
            PocketyUrl::Base => BASE_URL,
            PocketyUrl::Authorize => AUTHORIZE_URL,
        }
    }
}

impl Default for PocketyUrl {
    fn default() -> (r: PocketyUrl)
        ensures
            r == PocketyUrl::Base,
    {
        PocketyUrl::Base
    }
}

pub const BASE_URL: &'static str = "https://getpocket.com/v3";

pub const AUTHORIZE_URL: &'static str = "https://getpocket.com/auth/authorize";

/// The endpoint that issues request tokens.
pub const REQUEST_TOKEN_PATH: &'static str = "/oauth/request";

/// The endpoint that exchanges a request token for an access token.
pub const ACCESS_TOKEN_PATH: &'static str = "/oauth/authorize";

/// The endpoint of retrieve calls.
pub const RETRIEVE_PATH: &'static str = "/get";

/// The endpoint of add and modify calls.
pub const SEND_PATH: &'static str = "/send";

/// The header that asks for a JSON answer, and its value.
pub const ACCEPT_HEADER: &'static str = "X-Accept";

pub const ACCEPT_JSON: &'static str = "application/json";

/// The header that declares a JSON request body, and its value.
pub const CONTENT_TYPE_HEADER: &'static str = "Content-Type";

pub const CONTENT_TYPE_JSON: &'static str = "application/json; charset=UTF-8";

/// The header that carries the service's error code on a failure.
pub const ERROR_CODE_HEADER: &'static str = "X-Error-Code";

/// The header that carries the service's error message on a failure.
pub const ERROR_MESSAGE_HEADER: &'static str = "X-Error";

/// The address of an endpoint: the base with the relative path appended.
pub fn endpoint_url(base: &str, relative: &str) -> (r: String)
    ensures
        r@ == base@ + relative@,
{
    String::from_str(base).concat(relative)
}

/// A status in the 2xx range.
pub open spec fn is_success_status(status: u16) -> bool {
    200 <= status && status <= 299
}

pub fn is_success(status: u16) -> (r: bool)
    ensures
        r == is_success_status(status),
{
    200 <= status && status <= 299
}

/// The error that an answer with status `status` and these headers stands for.
pub open spec fn is_failure_for(e: Error, status: u16, headers: HeaderMap) -> bool {
    &&& e matches Error::Http(h)
    &&& h.status == status
    &&& opt_text(h.error_code) == header_text(headers, ERROR_CODE_HEADER@)
    &&& opt_text(h.error_message) == header_text(headers, ERROR_MESSAGE_HEADER@)
    &&& h.rate_limits == RateLimits::of_headers(headers)
}

/// The error for an answer whose status is not a success: the status, the
/// error code and message headers where they can be read, and the rate
/// limits. A missing header leaves its field empty.
pub fn failure(status: u16, headers: &HeaderMap) -> (r: Error)
    ensures
        is_failure_for(r, status, *headers),
{
    let e = HttpError {
        status,
        error_code: read_header(headers, ERROR_CODE_HEADER),
        error_message: read_header(headers, ERROR_MESSAGE_HEADER),
        rate_limits: RateLimits::from_headers(headers),
    };
    Error::Http(e)
}

/// The outcome of an answer with a success status, from the attempt to decode
/// its body: the body with the rate limits, or a payload error with the
/// decoder's message.
pub fn success<T>(headers: &HeaderMap, decoded: Result<T, String>) -> (r: ApiResult<T>)
    ensures
        match decoded {
            Ok(data) => r == Ok::<PocketyResponse<T>, Error>(
                PocketyResponse { rate_limits: RateLimits::of_headers(*headers), data },
            ),
            Err(m) => r matches Err(Error::Parse(p)) && p@ == m@,
        },
{
    match decoded {
        Ok(data) => Ok(PocketyResponse { rate_limits: RateLimits::from_headers(headers), data }),
        Err(m) => Err(Error::Parse(m)),
    }
}

} // verus!
