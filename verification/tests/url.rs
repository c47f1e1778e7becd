use xurl::error::Error;
use xurl::request::RequestTarget;
use xurl::url::{build_url_for_target, encode_value_string, render_template_path, render_template_template};

const TEST_BASE_URL: &str = "https://api.x.com";

fn tmpl(path: &str) -> RequestTarget {
    RequestTarget::Template { path: path.to_string(), path_params: Vec::new(), query: Vec::new() }
}

#[test]
fn url_build_url_template_empty_params_and_query() {
    let url = build_url_for_target(TEST_BASE_URL, &tmpl("/2/users/me")).unwrap();
    assert_eq!(url, "https://api.x.com/2/users/me");
}

#[test]
fn url_build_url_template_substitutes_path_param() {
    let params = vec![("id".to_string(), "12345".to_string())];
    let target = RequestTarget::Template {
        path: "/2/users/{id}/likes".to_string(),
        path_params: params,
        query: Vec::new(),
    };
    let url = build_url_for_target(TEST_BASE_URL, &target).unwrap();
    assert_eq!(url, "https://api.x.com/2/users/12345/likes");
}

#[test]
fn url_build_url_template_query_preserves_insertion_order() {
    let target = RequestTarget::Template {
        path: "/2/tweets/search/recent".to_string(),
        path_params: Vec::new(),
        query: vec![
            ("query".to_string(), "rustlang".to_string()),
            ("max_results".to_string(), "10".to_string()),
        ],
    };
    let url = build_url_for_target(TEST_BASE_URL, &target).unwrap();
    assert_eq!(url, "https://api.x.com/2/tweets/search/recent?query=rustlang&max_results=10");
}

#[test]
fn url_build_url_template_percent_encodes_value_with_spaces() {
    let target = RequestTarget::Template {
        path: "/2/tweets/search/recent".to_string(),
        path_params: Vec::new(),
        query: vec![("query".to_string(), "hello world".to_string())],
    };
    let url = build_url_for_target(TEST_BASE_URL, &target).unwrap();
    assert_eq!(url, "https://api.x.com/2/tweets/search/recent?query=hello%20world");
}

#[test]
fn url_build_url_template_rejects_path_param_with_slash() {
    let params = vec![("id".to_string(), "abc/etc/passwd".to_string())];
    let target = RequestTarget::Template {
        path: "/2/users/{id}/likes".to_string(),
        path_params: params,
        query: Vec::new(),
    };
    let err = build_url_for_target(TEST_BASE_URL, &target).unwrap_err();
    match err {
        Error::InvalidPathParam { name, value } => {
            assert_eq!(name, "id");
            assert_eq!(value, "abc/etc/passwd");
        }
        other => panic!("expected InvalidPathParam, got {other:?}"),
    }
}

#[test]
fn build_url_template_rejects_path_param_with_hash() {
    let params = vec![("id".to_string(), "abc#fragment".to_string())];
    let target = RequestTarget::Template {
        path: "/2/users/{id}/likes".to_string(),
        path_params: params,
        query: Vec::new(),
    };
    let err = build_url_for_target(TEST_BASE_URL, &target).unwrap_err();
    match err {
        Error::InvalidPathParam { name, value } => {
            assert_eq!(name, "id");
            assert_eq!(value, "abc#fragment");
        }
        other => panic!("expected InvalidPathParam, got {other:?}"),
    }
}

#[test]
fn build_url_template_rejects_path_param_with_percent() {
    let params = vec![("id".to_string(), "already%20encoded".to_string())];
    let target = RequestTarget::Template {
        path: "/2/users/{id}/likes".to_string(),
        path_params: params,
        query: Vec::new(),
    };
    let err = build_url_for_target(TEST_BASE_URL, &target).unwrap_err();
    match err {
        Error::InvalidPathParam { name, value } => {
            assert_eq!(name, "id");
            assert_eq!(value, "already%20encoded");
        }
        other => panic!("expected InvalidPathParam, got {other:?}"),
    }
}

#[test]
fn url_build_url_template_rejects_path_param_with_question_mark() {
    let params = vec![("id".to_string(), "abc?injected".to_string())];
    let target = RequestTarget::Template {
        path: "/2/users/{id}".to_string(),
        path_params: params,
        query: Vec::new(),
    };
    let err = build_url_for_target(TEST_BASE_URL, &target).unwrap_err();
    assert!(matches!(err, Error::InvalidPathParam { .. }));
}

#[test]
fn url_build_url_template_missing_path_param_is_internal_error() {
    let target = RequestTarget::Template {
        path: "/2/users/{id}/likes".to_string(),
        path_params: Vec::new(),
        query: Vec::new(),
    };
    let err = build_url_for_target(TEST_BASE_URL, &target).unwrap_err();
    assert!(matches!(err, Error::Internal(_)), "got {err:?}");
}

#[test]
fn url_build_url_raw_url_https_returns_clone() {
    let target = RequestTarget::RawUrl("https://api.x.com/2/raw".to_string());
    let url = build_url_for_target(TEST_BASE_URL, &target).unwrap();
    assert_eq!(url, "https://api.x.com/2/raw");
}

#[test]
fn url_build_url_raw_url_http_returns_clone() {
    let target = RequestTarget::RawUrl("http://localhost:8080/dev".to_string());
    let url = build_url_for_target(TEST_BASE_URL, &target).unwrap();
    assert_eq!(url, "http://localhost:8080/dev");
}

#[test]
fn url_build_url_raw_url_file_scheme_rejected() {
    let target = RequestTarget::RawUrl("file:///etc/passwd".to_string());
    let err = build_url_for_target(TEST_BASE_URL, &target).unwrap_err();
    assert!(matches!(err, Error::InvalidUrl(_)), "got {err:?}");
}

#[test]
fn url_build_url_raw_url_ftp_scheme_rejected() {
    let target = RequestTarget::RawUrl("ftp://attacker.com/payload".to_string());
    let err = build_url_for_target(TEST_BASE_URL, &target).unwrap_err();
    assert!(matches!(err, Error::InvalidUrl(_)), "got {err:?}");
}

#[test]
fn encode_value_reserved_and_unicode() {
    assert_eq!(encode_value_string("a b&c=d/é~-._"), "a%20b%26c%3Dd%2F%C3%A9~-._");
    assert_eq!(encode_value_string(""), "");
}

#[test]
fn render_uses_first_matching_param_and_keeps_literals() {
    let params = vec![
        ("id".to_string(), "1".to_string()),
        ("id".to_string(), "2".to_string()),
        ("tid".to_string(), "9".to_string()),
    ];
    assert_eq!(render_template_path("/2/users/{id}/x/{tid}", &params).unwrap(), "/2/users/1/x/9");
    assert_eq!(render_template_path("/2/plain", &Vec::new()).unwrap(), "/2/plain");
}

#[test]
fn render_template_of_raw_url_is_internal() {
    let t = RequestTarget::RawUrl("https://api.x.com/2/raw".to_string());
    assert!(matches!(render_template_template(&t), Err(Error::Internal(_))));
    assert_eq!(render_template_template(&tmpl("/2/users/me")).unwrap(), "/2/users/me");
}

#[test]
fn base_url_with_trailing_slash_is_not_doubled() {
    let url = build_url_for_target("https://api.x.com/", &tmpl("/2/users/me")).unwrap();
    assert_eq!(url, "https://api.x.com/2/users/me");
    let url = build_url_for_target("https://api.x.com", &tmpl("2/users/me")).unwrap();
    assert_eq!(url, "https://api.x.com/2/users/me");
}

#[test]
fn missing_param_message_quotes_template() {
    match render_template_path("/2/users/{id}/likes", &Vec::new()) {
        Err(Error::Internal(m)) => assert_eq!(
            m,
            "path template \"/2/users/{id}/likes\" references {id} but path_params has no such key"
        ),
        other => panic!("{other:?}"),
    }
    match build_url_for_target(TEST_BASE_URL, &RequestTarget::RawUrl("ftp://x/y".to_string())) {
        Err(Error::InvalidUrl(m)) => assert_eq!(m, "URL must start with http:// or https://: ftp://x/y"),
        other => panic!("{other:?}"),
    }
}

#[test]
fn raw_endpoints_join_the_base() {
    assert_eq!(xurl::url::endpoint_url("https://api.x.com", "/2/users/me"), "https://api.x.com/2/users/me");
    assert_eq!(xurl::url::endpoint_url("https://api.x.com/", "2/users/me"), "https://api.x.com/2/users/me");
    assert_eq!(xurl::url::endpoint_url("https://api.x.com", "HTTPS://other.example/x"), "HTTPS://other.example/x");
}
