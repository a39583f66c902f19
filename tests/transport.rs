use pockety::error::ApiError;
use pockety::transport::{endpoint_url, failure, is_success, success, BASE_URL};
use pockety::{Error, HttpError, PocketyUrl, RateLimits};
use reqwest::header::{HeaderMap, HeaderValue};

fn headers(pairs: &[(&'static str, &[u8])]) -> HeaderMap {
    let mut h = HeaderMap::new();
    for (name, value) in pairs {
        h.append(*name, HeaderValue::from_bytes(value).unwrap());
    }
    h
}

#[test]
fn rate_limits_from_all_headers() {
    let h = headers(&[
        ("X-Limit-User-Limit", b"320"),
        ("X-Limit-User-Remaining", b"319"),
        ("X-Limit-User-Reset", b"3600"),
        ("X-Limit-Key-Limit", b"10000"),
        ("X-Limit-Key-Remaining", b"9999"),
        ("X-Limit-Key-Reset", b"86400"),
    ]);
    let r = RateLimits::from_headers(&h);
    assert_eq!(
        r,
        RateLimits {
            user_limit: Some(320),
            user_remaining: Some(319),
            user_reset: Some(3600),
            key_limit: Some(10000),
            key_remaining: Some(9999),
            key_reset: Some(86400),
        }
    );
}

#[test]
fn rate_limits_absent_headers_stay_absent() {
    let r = RateLimits::from_headers(&HeaderMap::new());
    assert_eq!(r, RateLimits::default());
    assert_eq!(r.user_limit, None);
    assert_eq!(r.key_reset, None);
}

#[test]
fn rate_limits_bad_header_spoils_only_its_field() {
    let h = headers(&[
        ("x-limit-user-limit", b"lots"),
        ("X-Limit-User-Remaining", b"-1"),
        ("X-Limit-Key-Limit", b"4294967296"),
        ("X-Limit-Key-Remaining", b"\xff12"),
        ("X-Limit-Key-Reset", b"+60"),
        ("X-Limit-User-Reset", b"15"),
    ]);
    let r = RateLimits::from_headers(&h);
    assert_eq!(r.user_limit, None);
    assert_eq!(r.user_remaining, None);
    assert_eq!(r.user_reset, Some(15));
    assert_eq!(r.key_limit, None);
    assert_eq!(r.key_remaining, None);
    assert_eq!(r.key_reset, Some(60));
}

#[test]
fn rate_limits_take_the_first_value() {
    let h = headers(&[("X-Limit-User-Limit", b"7"), ("X-Limit-User-Limit", b"8")]);
    assert_eq!(RateLimits::from_headers(&h).user_limit, Some(7));
}

#[test]
fn failure_reads_error_headers() {
    let h = headers(&[("X-Error-Code", b"158"), ("X-Error", b"entity not found")]);
    match failure(404, &h) {
        Error::Http(e) => {
            assert_eq!(e.status, 404);
            assert_eq!(e.error_code, Some("158".to_string()));
            assert_eq!(e.error_message, Some("entity not found".to_string()));
            assert_eq!(e.rate_limits, RateLimits::default());
        }
        other => panic!("unexpected {other:?}"),
    }
}

#[test]
fn failure_without_headers_has_empty_fields() {
    match failure(503, &HeaderMap::new()) {
        Error::Http(e) => {
            assert_eq!(e.status, 503);
            assert_eq!(e.error_code, None);
            assert_eq!(e.error_message, None);
        }
        other => panic!("unexpected {other:?}"),
    }
}

#[test]
fn failure_keeps_rate_limits() {
    let h = headers(&[("X-Error-Code", b"199"), ("X-Limit-User-Remaining", b"0")]);
    match failure(403, &h) {
        Error::Http(e) => {
            assert_eq!(e.error_code.as_deref(), Some("199"));
            assert_eq!(e.rate_limits.user_remaining, Some(0));
        }
        other => panic!("unexpected {other:?}"),
    }
}

#[test]
fn success_with_bad_body_is_a_payload_error() {
    let h = HeaderMap::new();
    let r = success::<Vec<bool>>(&h, Err("missing field `action_results`".to_string()));
    match r {
        Err(Error::Parse(m)) => assert_eq!(m, "missing field `action_results`"),
        other => panic!("unexpected {other:?}"),
    }
}

#[test]
fn success_with_body_carries_rate_limits() {
    let h = headers(&[("X-Limit-Key-Limit", b"10000")]);
    let r = success(&h, Ok(vec![true, false])).unwrap();
    assert_eq!(r.data, vec![true, false]);
    assert_eq!(r.rate_limits.key_limit, Some(10000));
    assert_eq!(r.rate_limits.user_limit, None);
}

#[test]
fn success_statuses() {
    assert!(is_success(200));
    assert!(is_success(299));
    assert!(!is_success(199));
    assert!(!is_success(300));
    assert!(!is_success(404));
}

#[test]
fn endpoint_urls() {
    assert_eq!(endpoint_url(BASE_URL, "/get"), "https://getpocket.com/v3/get");
    assert_eq!(PocketyUrl::Base.as_str(), "https://getpocket.com/v3");
    assert_eq!(PocketyUrl::Authorize.as_str(), "https://getpocket.com/auth/authorize");
    assert_eq!(PocketyUrl::default(), PocketyUrl::Base);
}

#[test]
fn http_error_builders() {
    let e = HttpError::new();
    assert_eq!(e.status, 500);
    assert_eq!(e.error_code, None);
    let limits = RateLimits { user_limit: Some(1), ..RateLimits::default() };
    let e = e
        .status_code(404)
        .error_code("158")
        .error_message("entity not found")
        .rate_limits(limits);
    assert_eq!(e.status, 404);
    assert_eq!(e.error_code.as_deref(), Some("158"));
    assert_eq!(e.error_message.as_deref(), Some("entity not found"));
    assert_eq!(e.rate_limits, limits);
}

#[test]
fn precondition_errors_compare() {
    assert_eq!(ApiError::MissingAccessToken, ApiError::MissingAccessToken);
    assert_ne!(ApiError::MissingAccessToken, ApiError::MissingRequestToken);
}

#[test]
fn header_names_match_without_regard_to_case() {
    let h = headers(&[("x-limit-user-limit", b"5"), ("X-ERROR", b"gone")]);
    assert_eq!(RateLimits::from_headers(&h).user_limit, Some(5));
    match failure(410, &h) {
        Error::Http(e) => assert_eq!(e.error_message.as_deref(), Some("gone")),
        other => panic!("unexpected {other:?}"),
    }
}
