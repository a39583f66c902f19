//! A typed client library for a bookmarking service's REST API: request and
//! response models, the wire codecs they need, the two-step token exchange,
//! and builders for the retrieve, add and modify operations.
//!
//! The library decides everything but the sending: a builder checks its
//! preconditions and yields the request body, and the answer's status, headers
//! and decoded body are turned into the caller's result here. The HTTP
//! transport and the JSON encoding are left to the caller.

pub mod api;
pub mod auth;
pub mod decimal;
pub mod error;
pub mod models;
pub mod transport;

pub use api::add::{AddHandler, AddRequestBody, AddResponse};
pub use api::modify::{ModifyHandler, ModifyRequestBody, ModifyResponse, PocketAction};
pub use api::retrieve::{RetrieveHandler, RetrieveRequestBody, RetrieveResponse};
pub use auth::{
    GetAccessTokenRequest, GetAccessTokenResponse, GetRequestTokenRequest, GetRequestTokenResponse,
    TokenSlot,
};
pub use error::{ApiError, Error, HttpError};
pub use transport::{ApiResult, PocketyResponse, PocketyUrl, RateLimits};
