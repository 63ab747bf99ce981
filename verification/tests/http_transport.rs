use deribit_mcp::http_transport::{authorize, constant_time_eq, is_bearer_match, BearerDecision};

#[test]
fn bearer_match_accepts_correct_token() {
    assert!(is_bearer_match(Some(b"Bearer secret".as_slice()), "secret"));
}

#[test]
fn bearer_match_rejects_wrong_token() {
    assert!(!is_bearer_match(Some(b"Bearer wrong".as_slice()), "secret"));
}

#[test]
fn bearer_match_rejects_missing_header() {
    assert!(!is_bearer_match(None, "secret"));
}

#[test]
fn bearer_match_rejects_non_bearer_scheme() {
    assert!(!is_bearer_match(Some(b"Basic secret".as_slice()), "secret"));
}

#[test]
fn constant_time_eq_basic() {
    assert!(constant_time_eq(b"a", b"a"));
    assert!(!constant_time_eq(b"a", b"b"));
    assert!(!constant_time_eq(b"a", b"aa"));
}

#[test]
fn constant_time_eq_rejects_lengths_differing_by_256() {
    let short = b"a".to_vec();
    let mut long = b"a".to_vec();
    long.extend(std::iter::repeat(0u8).take(256));
    assert!(!constant_time_eq(&short, &long));
    assert!(constant_time_eq(b"", b""));
}

#[test]
fn bearer_scheme_is_case_sensitive_and_needs_a_space() {
    assert!(!is_bearer_match(Some(b"bearer secret".as_slice()), "secret"));
    assert!(!is_bearer_match(Some(b"Bearersecret".as_slice()), "secret"));
    assert!(!is_bearer_match(Some(b"Bearer secret ".as_slice()), "secret"));
    assert!(!is_bearer_match(Some(b"Bearer \xffsecret".as_slice()), "secret"));
}

#[test]
fn authorize_forwards_everything_without_a_token() {
    assert_eq!(authorize(None, None), BearerDecision::Forward);
    assert_eq!(authorize(None, Some(b"Bearer x".as_slice())), BearerDecision::Forward);
    assert_eq!(authorize(Some("supersecret"), None), BearerDecision::Unauthorized);
    assert_eq!(
        authorize(Some("supersecret"), Some(b"Bearer supersecret".as_slice())),
        BearerDecision::Forward
    );
    assert_eq!(
        authorize(Some("supersecret"), Some(b"Bearer other".as_slice())),
        BearerDecision::Unauthorized
    );
}
