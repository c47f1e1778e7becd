use xurl::callback::{address_list, callback_path_from, parse_redirect_uri, path_matches};

#[test]
fn address_list_localhost_dual_binds() {
    let addrs = address_list("localhost", 9090);
    assert_eq!(addrs, vec!["127.0.0.1:9090", "[::1]:9090"]);
}

#[test]
fn address_list_explicit_ipv4_single() {
    let addrs = address_list("127.0.0.1", 9090);
    assert_eq!(addrs, vec!["127.0.0.1:9090"]);
}

#[test]
fn address_list_explicit_ipv6_wraps_brackets() {
    let addrs = address_list("::1", 9090);
    assert_eq!(addrs, vec!["[::1]:9090"]);
}

#[test]
fn callback_path_from_explicit_path() {
    let uri = parse_redirect_uri("http://localhost:8080/callback").expect("test URL must parse");
    assert_eq!(callback_path_from(&uri), "/callback");
}

#[test]
fn callback_path_from_trailing_slash_root_honoured() {
    let uri = parse_redirect_uri("http://localhost:8080/").expect("test URL must parse");
    assert_eq!(callback_path_from(&uri), "/");
}

#[test]
fn callback_path_from_custom_path() {
    let uri = parse_redirect_uri("http://localhost:8080/oauth/return").expect("test URL must parse");
    assert_eq!(callback_path_from(&uri), "/oauth/return");
}

#[test]
fn path_matches_exact() {
    assert!(path_matches("/callback", "/callback"));
}

#[test]
fn path_matches_querystring() {
    assert!(path_matches("/callback", "/callback?code=abc&state=xyz"));
}

#[test]
fn path_matches_rejects_loose_prefix() {
    assert!(!path_matches("/callback", "/callbackOther"));
    assert!(!path_matches("/callback", "/callbackOther?code=abc"));
}

#[test]
fn path_matches_rejects_unrelated() {
    assert!(!path_matches("/callback", "/other"));
}

#[test]
fn path_matches_root_exact() {
    assert!(path_matches("/", "/"));
    assert!(path_matches("/", "/?code=abc"));
}

use xurl::callback::{
    bind_failure_error, callback_result, callback_target, classify_callback_request, partial_bind_warning,
    request_path_of, CallbackReply,
};
use xurl::error::Error;

#[test]
fn classify_requests() {
    let ok = classify_callback_request("GET /callback?state=st&code=abc HTTP/1.1\r\nHost: x\r\n\r\n", "/callback", "st");
    assert!(matches!(&ok, CallbackReply::Code(c) if c == "abc"));
    assert!(ok.response().starts_with("HTTP/1.1 200 OK"));
    assert_eq!(ok.delivered(), Some(Ok("abc".to_string())));
    let bad = classify_callback_request("GET /callback?state=zz&code=abc HTTP/1.1\r\n", "/callback", "st");
    assert!(matches!(bad, CallbackReply::BadState));
    assert_eq!(bad.delivered(), Some(Err("invalid state parameter".to_string())));
    let no_state = classify_callback_request("GET /callback?code=abc HTTP/1.1\r\n", "/callback", "st");
    assert!(matches!(no_state, CallbackReply::BadState));
    let empty = classify_callback_request("GET /callback?state=st&code= HTTP/1.1\r\n", "/callback", "st");
    assert!(matches!(empty, CallbackReply::EmptyCode));
    let other = classify_callback_request("GET /favicon.ico HTTP/1.1\r\n", "/callback", "st");
    assert!(matches!(other, CallbackReply::NotFound));
    assert_eq!(other.delivered(), None);
    assert_eq!(request_path_of("GET /a?b=c HTTP/1.1\r\nHost: h"), "/a?b=c");
}

#[test]
fn listener_setup_and_results() {
    let uri = parse_redirect_uri("http://localhost:8080/callback").unwrap();
    let (host, port, path) = callback_target(&uri).unwrap();
    assert_eq!((host.as_str(), port, path.as_str()), ("localhost", 8080, "/callback"));
    match bind_failure_error(&vec![("127.0.0.1:1".to_string(), "denied".to_string())]) {
        Error::Auth(m) => assert_eq!(m, "could not bind callback listener: 127.0.0.1:1: denied"),
        other => panic!("{other:?}"),
    }
    let w = partial_bind_warning(
        "localhost",
        &vec!["127.0.0.1:8080".to_string()],
        &vec![("[::1]:8080".to_string(), "in use".to_string())],
    );
    assert_eq!(
        w.as_deref(),
        Some("callback listener bound 127.0.0.1:8080 but failed to bind [::1]:8080 (in use); continuing with the bound address")
    );
    match callback_result(Err("invalid state parameter".to_string())) {
        Err(Error::Auth(m)) => assert_eq!(m, "CallbackError: invalid state parameter"),
        other => panic!("{other:?}"),
    }
    match parse_redirect_uri("not a url") {
        Err(Error::Auth(m)) => assert!(m.starts_with("InvalidURL: ")),
        other => panic!("{other:?}"),
    }
}
