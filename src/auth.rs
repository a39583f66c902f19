//! The two-step token exchange: a request token bound to a redirect target,
//! then an access token for it, which the client keeps for later calls.

use vstd::prelude::*;

use crate::error::{opt_text, ApiError, Error};
use crate::transport::AUTHORIZE_URL;

verus! {

/// The body that asks for a request token.
#[derive(Debug, Clone)]
pub struct GetRequestTokenRequest {
    pub consumer_key: String,
    pub redirect_uri: String,
    /// Opaque state that the service echoes back.
    pub state: Option<String>,
}

#[derive(Debug, Clone)]
pub struct GetRequestTokenResponse {
    /// The request token.
    pub code: String,
    pub state: Option<String>,
}

/// The body that exchanges a request token for an access token.
#[derive(Debug, Clone)]
pub struct GetAccessTokenRequest {
    pub consumer_key: String,
    /// The request token.
    pub code: String,
    pub state: Option<String>,
}

#[derive(Debug, Clone)]
pub struct GetAccessTokenResponse {
    pub access_token: String,
    pub username: String,
    pub state: Option<String>,
}

/// How far the token exchange has come.
#[derive(Debug, Clone, Copy, PartialEq, Eq, Structural)]
pub enum AuthState {
    Unauthenticated,
    RequestTokenIssued,
    Authenticated,
}

/// The tokens a client holds. The client shares one slot among all its
/// calls behind a lock: a call takes a copy of what it needs and lets go of the
/// lock before it sends anything, and the slot is written only once an
/// exchange has succeeded, whole and in one step.
#[derive(Debug, Clone)]
pub struct TokenSlot {
    request_token: Option<String>,
    access_token: Option<String>,
}

/// The body of a request-token call.
pub fn request_token_request(consumer_key: &str, redirect_uri: &str, state: Option<String>) -> (r:
    GetRequestTokenRequest)
    ensures
        r.consumer_key@ == consumer_key@,
        r.redirect_uri@ == redirect_uri@,
        r.state == state,
{
    GetRequestTokenRequest {
        consumer_key: String::from_str(consumer_key),
        redirect_uri: String::from_str(redirect_uri),
        state,
    }
}

/// The page where the user authorises `request_token`: the authorise address
/// with the token and the redirect target as query parameters.
pub open spec fn authorize_url_text(request_token: Seq<char>, redirect_uri: Seq<char>) -> Seq<
    char,
> {
    AUTHORIZE_URL@ + "?request_token="@ + request_token + "&redirect_uri="@ + redirect_uri
}

pub fn authorize_url(request_token: &str, redirect_uri: &str) -> (r: String)
    ensures
        r@ == authorize_url_text(request_token@, redirect_uri@),
{
    String::from_str(AUTHORIZE_URL).concat("?request_token=").concat(request_token).concat(
        "&redirect_uri=",
    ).concat(redirect_uri)
}

/// `body` exchanges `code` for the consumer key `consumer_key`.
pub open spec fn is_exchange_body(
    body: GetAccessTokenRequest,
    consumer_key: Seq<char>,
    code: Seq<char>,
    state: Option<String>,
) -> bool {
    &&& body.consumer_key@ == consumer_key
    &&& body.code@ == code
    &&& body.state == state
}

/// The access token once `token` has been recorded over `before`.
pub open spec fn recorded(before: Option<Seq<char>>, token: Seq<char>) -> Option<Seq<char>> {
    Some(token)
}

impl TokenSlot {
    pub closed spec fn request_token_text(&self) -> Option<Seq<char>> {
        opt_text(self.request_token)
    }

    pub closed spec fn access_token_text(&self) -> Option<Seq<char>> {
        opt_text(self.access_token)
    }

    pub open spec fn auth_state(&self) -> AuthState {
        if self.access_token_text() is Some {
            AuthState::Authenticated
        } else if self.request_token_text() is Some {
            AuthState::RequestTokenIssued
        } else {
            AuthState::Unauthenticated
        }
    }

    /// An empty slot.
    pub fn new() -> (r: TokenSlot)
        ensures
            r.request_token_text() is None,
            r.access_token_text() is None,
    {
        TokenSlot { request_token: None, access_token: None }
    }

    pub fn state(&self) -> (r: AuthState)
        ensures
            r == self.auth_state(),
    {
        if self.access_token.is_some() {
            AuthState::Authenticated
        } else if self.request_token.is_some() {
            AuthState::RequestTokenIssued
        } else {
            AuthState::Unauthenticated
        }
    }

    /// A copy of the access token, if there is one.
    pub fn access_token(&self) -> (r: Option<String>)
        ensures
            opt_text(r) == self.access_token_text(),
    {
        match &self.access_token {
            Some(t) => Some(t.clone()),
            None => None,
        }
    }

    /// Keeps the request token that the service issued.
    pub fn record_request_token(&mut self, code: String)
        ensures
            final(self).request_token_text() == Some(code@),
            final(self).access_token_text() == old(self).access_token_text(),
    {
        self.request_token = Some(code);
    }

    /// Keeps the access token that an exchange returned.
    pub fn record_access_token(&mut self, token: String)
        ensures
            final(self).access_token_text() == recorded(old(self).access_token_text(), token@),
            final(self).request_token_text() == old(self).request_token_text(),
    {
        self.access_token = Some(token);
    }

    /// The body of an exchange call: the code supplied by the caller, else the
    /// request token this slot keeps. With neither, the exchange fails before
    /// anything is sent.
    pub fn access_token_request(
        &self,
        consumer_key: &str,
        supplied: Option<String>,
        state: Option<String>,
    ) -> (r: Result<GetAccessTokenRequest, Error>)
        ensures
            supplied is None && self.request_token_text() is None ==> r matches Err(
                Error::Api(ApiError::MissingRequestToken),
            ),
            supplied matches Some(c) ==> (r matches Ok(body) && is_exchange_body(
                body,
                consumer_key@,
                c@,
                state,
            )),
            supplied is None ==> (self.request_token_text() matches Some(t) ==> (r matches Ok(
                body,
            ) && is_exchange_body(body, consumer_key@, t, state))),
    {
        let code = match supplied {
            Some(c) => c,
            None => match &self.request_token {
                Some(t) => t.clone(),
                None => {
                    return Err(Error::Api(ApiError::MissingRequestToken));
                },
            },
        };
        Ok(GetAccessTokenRequest { consumer_key: String::from_str(consumer_key), code, state })
    }
}

/// The access token after a run of successful exchanges has been recorded
/// one after another, starting from `start`.
pub open spec fn access_after(start: Option<Seq<char>>, tokens: Seq<Seq<char>>) -> Option<
    Seq<char>,
>
    decreases tokens.len(),
{
    if tokens.len() == 0 {
        start
    } else {
        recorded(access_after(start, tokens.drop_last()), tokens.last())
    }
}

/// However a run of exchanges is ordered by the slot's lock, once they have
/// all been recorded the slot holds one of the tokens they returned, whole.
pub proof fn lemma_slot_holds_one_of(start: Option<Seq<char>>, tokens: Seq<Seq<char>>)
    requires
        tokens.len() > 0,
    ensures
        access_after(start, tokens) matches Some(t) && tokens.contains(t),
{
    assert(tokens[tokens.len() - 1] == tokens.last());
    assert(access_after(start, tokens) == recorded(
        access_after(start, tokens.drop_last()),
        tokens.last(),
    ));
}

} // verus!
