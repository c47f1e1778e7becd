use xurl::error::Error;
use xurl::request::{CallOptions, RequestTarget, DEFAULT_TIMEOUT_SECS};
use xurl::url::build_url_for_target;

const TEST_BASE_URL: &str = "https://api.x.com";

fn tmpl(path: &str) -> RequestTarget {
    RequestTarget::Template { path: path.to_string(), path_params: Vec::new(), query: Vec::new() }
}

#[test]
fn call_options_to_request_options_maps_all_fields() {
    let opts = CallOptions {
        auth_type: "oauth2".to_string(),
        username: "testuser".to_string(),
        no_auth: true,
        verbose: true,
        trace: true,
        timeout_secs: 45,
        pagination_token: "abc123".to_string(),
    };

    let req = opts.to_request_options();

    assert_eq!(req.auth_type, "oauth2");
    assert_eq!(req.username, "testuser");
    assert!(req.no_auth);
    assert!(req.verbose);
    assert!(req.trace);
    assert_eq!(req.pagination_token, "abc123");
    assert!(req.method.is_empty());
    match &req.target {
        RequestTarget::Template { path, path_params, query } => {
            assert!(path.is_empty());
            assert!(path_params.is_empty());
            assert!(query.is_empty());
        }
        RequestTarget::RawUrl(_) => panic!("default target must be Template"),
    }
    assert!(req.data.is_empty());
    assert!(req.headers.is_empty());
}

#[test]
fn call_options_default_has_safe_values() {
    let opts = CallOptions::default();
    let req = opts.to_request_options();

    assert!(!req.no_auth, "no_auth should default to false");
    assert!(!req.verbose);
    assert!(!req.trace);
    assert!(req.auth_type.is_empty());
    assert!(req.username.is_empty());
    assert!(
        opts.pagination_token.is_empty(),
        "pagination_token should default to empty so non-paginated endpoints stay clean"
    );
    assert_eq!(opts.timeout_secs, DEFAULT_TIMEOUT_SECS, "timeout_secs should default to {DEFAULT_TIMEOUT_SECS}");
}

#[test]
fn request_build_url_template_empty_params_and_query() {
    let url = build_url_for_target(TEST_BASE_URL, &tmpl("/2/users/me")).unwrap();
    assert_eq!(url, "https://api.x.com/2/users/me");
}

#[test]
fn request_build_url_template_substitutes_path_param() {
    let params = vec![("id".to_string(), "12345".to_string())];
    let target = RequestTarget::Template {
        path: "/2/users/{id}/likes".to_string(),
        path_params: params,
        query: Vec::new(),
    };
    let url = build_url_for_target(TEST_BASE_URL, &target).unwrap();
    assert_eq!(url, "https://api.x.com/2/users/12345/likes");
}

#[test]
fn request_build_url_template_query_preserves_insertion_order() {
    let target = RequestTarget::Template {
        path: "/2/tweets/search/recent".to_string(),
        path_params: Vec::new(),
        query: vec![
            ("query".to_string(), "rustlang".to_string()),
            ("max_results".to_string(), "10".to_string()),
        ],
    };
    let url = build_url_for_target(TEST_BASE_URL, &target).unwrap();
    assert_eq!(url, "https://api.x.com/2/tweets/search/recent?query=rustlang&max_results=10");
}

#[test]
fn request_build_url_template_percent_encodes_value_with_spaces() {
    let target = RequestTarget::Template {
        path: "/2/tweets/search/recent".to_string(),
        path_params: Vec::new(),
        query: vec![("query".to_string(), "hello world".to_string())],
    };
    let url = build_url_for_target(TEST_BASE_URL, &target).unwrap();
    assert_eq!(url, "https://api.x.com/2/tweets/search/recent?query=hello%20world");
}

#[test]
fn request_build_url_template_rejects_path_param_with_slash() {
    let params = vec![("id".to_string(), "abc/etc/passwd".to_string())];
    let target = RequestTarget::Template {
        path: "/2/users/{id}/likes".to_string(),
        path_params: params,
        query: Vec::new(),
    };
    let err = build_url_for_target(TEST_BASE_URL, &target).unwrap_err();
    match err {
        Error::InvalidPathParam { name, value } => {
            assert_eq!(name, "id");
            assert_eq!(value, "abc/etc/passwd");
        }
        other => panic!("expected InvalidPathParam, got {other:?}"),
    }
}

#[test]
fn request_build_url_template_rejects_path_param_with_question_mark() {
    let params = vec![("id".to_string(), "abc?injected".to_string())];
    let target = RequestTarget::Template {
        path: "/2/users/{id}".to_string(),
        path_params: params,
        query: Vec::new(),
    };
    let err = build_url_for_target(TEST_BASE_URL, &target).unwrap_err();
    assert!(matches!(err, Error::InvalidPathParam { .. }));
}

#[test]
fn request_build_url_template_missing_path_param_is_internal_error() {
    let target = RequestTarget::Template {
        path: "/2/users/{id}/likes".to_string(),
        path_params: Vec::new(),
        query: Vec::new(),
    };
    let err = build_url_for_target(TEST_BASE_URL, &target).unwrap_err();
    assert!(matches!(err, Error::Internal(_)), "got {err:?}");
}

#[test]
fn request_build_url_raw_url_https_returns_clone() {
    let target = RequestTarget::RawUrl("https://api.x.com/2/raw".to_string());
    let url = build_url_for_target(TEST_BASE_URL, &target).unwrap();
    assert_eq!(url, "https://api.x.com/2/raw");
}

#[test]
fn request_build_url_raw_url_http_returns_clone() {
    let target = RequestTarget::RawUrl("http://localhost:8080/dev".to_string());
    let url = build_url_for_target(TEST_BASE_URL, &target).unwrap();
    assert_eq!(url, "http://localhost:8080/dev");
}

#[test]
fn request_build_url_raw_url_file_scheme_rejected() {
    let target = RequestTarget::RawUrl("file:///etc/passwd".to_string());
    let err = build_url_for_target(TEST_BASE_URL, &target).unwrap_err();
    assert!(matches!(err, Error::InvalidUrl(_)), "got {err:?}");
}

#[test]
fn request_build_url_raw_url_ftp_scheme_rejected() {
    let target = RequestTarget::RawUrl("ftp://attacker.com/payload".to_string());
    let err = build_url_for_target(TEST_BASE_URL, &target).unwrap_err();
    assert!(matches!(err, Error::InvalidUrl(_)), "got {err:?}");
}
