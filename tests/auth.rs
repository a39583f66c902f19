use pockety::auth::{authorize_url, request_token_request, AuthState};
use pockety::{ApiError, Error, TokenSlot};

#[test]
fn exchange_without_any_code_fails_before_sending() {
    let slot = TokenSlot::new();
    match slot.access_token_request("key", None, None) {
        Err(Error::Api(ApiError::MissingRequestToken)) => {}
        other => panic!("unexpected {other:?}"),
    }
}

#[test]
fn exchange_with_supplied_code() {
    let slot = TokenSlot::new();
    let body = slot
        .access_token_request("key", Some("code-1".to_string()), Some("s".to_string()))
        .unwrap();
    assert_eq!(body.consumer_key, "key");
    assert_eq!(body.code, "code-1");
    assert_eq!(body.state.as_deref(), Some("s"));
}

#[test]
fn exchange_with_remembered_code() {
    let mut slot = TokenSlot::new();
    slot.record_request_token("code-2".to_string());
    let body = slot.access_token_request("key", None, None).unwrap();
    assert_eq!(body.code, "code-2");
    let body = slot.access_token_request("key", Some("code-3".to_string()), None).unwrap();
    assert_eq!(body.code, "code-3");
}

#[test]
fn slot_states() {
    let mut slot = TokenSlot::new();
    assert_eq!(slot.state(), AuthState::Unauthenticated);
    assert_eq!(slot.access_token(), None);
    slot.record_request_token("code".to_string());
    assert_eq!(slot.state(), AuthState::RequestTokenIssued);
    slot.record_access_token("token".to_string());
    assert_eq!(slot.state(), AuthState::Authenticated);
    assert_eq!(slot.access_token().as_deref(), Some("token"));
}

#[test]
fn slot_holds_the_last_recorded_token() {
    let mut slot = TokenSlot::new();
    let tokens = ["t1", "t2", "t3"];
    for t in tokens {
        slot.record_access_token(t.to_string());
    }
    let held = slot.access_token().unwrap();
    assert!(tokens.contains(&held.as_str()));
    assert_eq!(held, "t3");
}

#[test]
fn request_token_body() {
    let body = request_token_request("key", "https://app.example/cb", Some("xyz".to_string()));
    assert_eq!(body.consumer_key, "key");
    assert_eq!(body.redirect_uri, "https://app.example/cb");
    assert_eq!(body.state.as_deref(), Some("xyz"));
    let body = request_token_request("key", "https://app.example/cb", None);
    assert_eq!(body.state, None);
}

#[test]
fn authorize_url_has_token_and_redirect() {
    assert_eq!(
        authorize_url("abc", "https://app.example/cb"),
        "https://getpocket.com/auth/authorize?request_token=abc&redirect_uri=https://app.example/cb"
    );
}
