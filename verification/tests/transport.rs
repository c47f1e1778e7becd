use xurl::transport::{is_valid_method, user_agent, user_supplied_header};

#[test]
fn user_supplied_header_detects_canonical_case() {
    let headers = vec!["Authorization: Bearer foo".to_string()];
    assert!(user_supplied_header(&headers, "Authorization"));
}

#[test]
fn user_supplied_header_is_case_insensitive_on_input_key() {
    for raw in ["authorization: Bearer foo", "AUTHORIZATION: Bearer foo", "aUtHoRiZaTiOn: Bearer foo"] {
        assert!(user_supplied_header(&vec![raw.to_string()], "Authorization"), "did not detect: {raw}");
    }
}

#[test]
fn user_supplied_header_is_case_insensitive_on_query_name() {
    let headers = vec!["Authorization: Bearer foo".to_string()];
    for query in ["authorization", "AUTHORIZATION", "aUtHoRiZaTiOn"] {
        assert!(user_supplied_header(&headers, query), "did not detect with query: {query}");
    }
}

#[test]
fn user_supplied_header_ignores_surrounding_whitespace_on_key() {
    let headers = vec!["  Authorization  : Bearer foo".to_string()];
    assert!(user_supplied_header(&headers, "Authorization"));
}

#[test]
fn user_supplied_header_false_for_empty_list() {
    let headers: Vec<String> = Vec::new();
    assert!(!user_supplied_header(&headers, "Authorization"));
    assert!(!user_supplied_header(&headers, "User-Agent"));
}

#[test]
fn user_supplied_header_does_not_match_substring_keys() {
    let headers = vec!["Cookie: session=abc".to_string(), "X-Authorization-Hint: ignored".to_string()];
    assert!(!user_supplied_header(&headers, "Authorization"));
}

#[test]
fn user_supplied_header_false_for_unparseable_entry() {
    let headers = vec!["malformed-no-colon".to_string()];
    assert!(!user_supplied_header(&headers, "Authorization"));
}

#[test]
fn user_supplied_header_detects_each_xurl_added_header() {
    let headers = vec![
        "Content-Type: application/xml".to_string(),
        "Authorization: Bearer foo".to_string(),
        "User-Agent: custom/1.0".to_string(),
        "X-B3-Flags: 0".to_string(),
    ];
    assert!(user_supplied_header(&headers, "Content-Type"));
    assert!(user_supplied_header(&headers, "Authorization"));
    assert!(user_supplied_header(&headers, "User-Agent"));
    assert!(user_supplied_header(&headers, "X-B3-Flags"));
}

#[test]
fn methods_accepted_and_refused() {
    for m in ["GET", "post", "Put", "DELETE", "patch", "HEAD", "options"] {
        assert!(is_valid_method(m), "{m}");
    }
    assert!(is_valid_method("PROPFIND"));
    assert!(!is_valid_method("GET POST"));
    assert!(!is_valid_method("G(T"));
    assert!(!is_valid_method(""));
}

#[test]
fn user_agent_names_version() {
    assert_eq!(user_agent("1.2.3"), "xurl/1.2.3");
}

use xurl::error::Error;
use xurl::request::{CallOptions, RequestTarget};
use xurl::transport::{json_response_outcome, plan_request, response_precheck, SendKind};

fn post_with(data: &str, headers: Vec<String>) -> xurl::request::RequestOptions {
    let mut r = CallOptions::default().to_request_options();
    r.method = "post".to_string();
    r.data = data.to_string();
    r.headers = headers;
    r.target = RequestTarget::RawUrl("https://api.x.com/2/tweets".to_string());
    r
}

#[test]
fn plan_sets_content_type_by_body() {
    let p = plan_request(&post_with("{\"text\":\"hi\"}", Vec::new()), "https://api.x.com", SendKind::Json).unwrap();
    assert_eq!(p.method, "POST");
    assert_eq!(p.content_type.as_deref(), Some("application/json"));
    assert_eq!(p.body.as_deref(), Some("{\"text\":\"hi\"}"));
    assert!(p.add_auth && p.add_user_agent && !p.add_trace);
    let p = plan_request(&post_with("a=1&b=2", Vec::new()), "https://api.x.com", SendKind::Json).unwrap();
    assert_eq!(p.content_type.as_deref(), Some("application/x-www-form-urlencoded"));
}

#[test]
fn plan_respects_caller_headers() {
    let p = plan_request(
        &post_with("{}", vec!["Content-Type: text/plain".to_string(), "Authorization: Bearer x".to_string()]),
        "https://api.x.com",
        SendKind::Json,
    )
    .unwrap();
    assert!(p.content_type.is_none());
    assert!(!p.add_auth);
    assert_eq!(p.headers[0], ("Content-Type".to_string(), "text/plain".to_string()));
}

#[test]
fn plan_rejects_bad_method_and_get_sends_no_body() {
    let mut r = post_with("{}", Vec::new());
    r.method = "BAD METHOD".to_string();
    assert!(matches!(plan_request(&r, "https://api.x.com", SendKind::Json), Err(Error::InvalidMethod(_))));
    r.method = String::new();
    let p = plan_request(&r, "https://api.x.com", SendKind::Json).unwrap();
    assert_eq!(p.method, "GET");
    assert!(p.body.is_none());
}

#[test]
fn response_outcomes() {
    assert!(matches!(json_response_outcome(200, "200 OK", "", None), Ok(None)));
    assert!(matches!(json_response_outcome(404, "404 Not Found", "", None), Err(Error::Api { status: 404, .. })));
    match json_response_outcome(500, "500 Internal Server Error", "oops", None) {
        Err(Error::Api { body, .. }) => assert_eq!(body, "HTTP error: 500 Internal Server Error"),
        other => panic!("{other:?}"),
    }
    assert_eq!(json_response_outcome(200, "200 OK", "{}", Some("{}".to_string())).unwrap(), Some("{}".to_string()));
}

#[test]
fn precheck_of_reply_shapes() {
    match response_precheck(true, 0, false, false, "{}") {
        Err(Error::Json(m)) => assert_eq!(m, "empty response body — expected JSON with a \"data\" field"),
        other => panic!("{other:?}"),
    }
    let errs = "{\"errors\":[{\"title\":\"Not Found Error\"}]}";
    match response_precheck(true, 1, false, true, errs) {
        Err(Error::Validation(m)) => assert!(m.contains("Not Found Error")),
        other => panic!("{other:?}"),
    }
    assert!(response_precheck(true, 2, true, true, "{}").is_ok());
    assert!(response_precheck(false, 0, false, false, "[]").is_ok());
}

#[test]
fn raw_mode_kinds() {
    assert_eq!(xurl::transport::request_kind("/2/media/upload/1/append", false, "f.mp4"), SendKind::Multipart);
    assert_eq!(xurl::transport::request_kind("/2/media/upload/1/append", false, ""), SendKind::Json);
    assert_eq!(xurl::transport::request_kind("/2/tweets/search/stream", false, ""), SendKind::Stream);
    assert_eq!(xurl::transport::request_kind("/2/users/me", true, ""), SendKind::Stream);
    assert_eq!(xurl::transport::request_kind("/2/users/me", false, ""), SendKind::Json);
}

use xurl::transport::{multipart_outcome, precheck_body, send_outcome, stream_failure};

#[test]
fn send_outcome_compacts_the_body() {
    assert_eq!(send_outcome(200, "200 OK", "{ \"data\" : { \"id\" : \"1\" } }").unwrap(), Some("{\"data\":{\"id\":\"1\"}}".to_string()));
    assert!(matches!(send_outcome(200, "200 OK", "not json"), Ok(None)));
    assert!(matches!(send_outcome(200, "200 OK", ""), Ok(None)));
    match send_outcome(403, "403 Forbidden", "{\"title\": \"Forbidden\"}") {
        Err(Error::Api { status, body }) => {
            assert_eq!(status, 403);
            assert_eq!(body, "{\"title\":\"Forbidden\"}");
        }
        other => panic!("{other:?}"),
    }
    match send_outcome(502, "502 Bad Gateway", "<html>") {
        Err(Error::Api { body, .. }) => assert_eq!(body, "HTTP error: 502 Bad Gateway"),
        other => panic!("{other:?}"),
    }
    match send_outcome(404, "404 Not Found", "") {
        Err(Error::Api { body, .. }) => assert_eq!(body, "{}"),
        other => panic!("{other:?}"),
    }
}

#[test]
fn multipart_outcome_counts_non_json_as_empty() {
    assert_eq!(multipart_outcome(200, "{ \"a\": 1 }").unwrap(), Some("{\"a\":1}".to_string()));
    assert!(matches!(multipart_outcome(200, "ok"), Ok(None)));
    match multipart_outcome(400, "bad") {
        Err(Error::Api { status: 400, body }) => assert_eq!(body, "{}"),
        other => panic!("{other:?}"),
    }
}

#[test]
fn stream_failure_carries_json_or_raw_body() {
    assert!(stream_failure(200, "{}").is_none());
    match stream_failure(429, "{ \"title\": \"Too Many Requests\" }") {
        Some(Error::Api { status: 429, body }) => assert_eq!(body, "{\"title\":\"Too Many Requests\"}"),
        other => panic!("{other:?}"),
    }
    match stream_failure(500, "plain text") {
        Some(Error::Api { body, .. }) => assert_eq!(body, "plain text"),
        other => panic!("{other:?}"),
    }
}

#[test]
fn precheck_body_reads_the_json() {
    match precheck_body("{}") {
        Err(Error::Json(m)) => assert_eq!(m, "empty response body — expected JSON with a \"data\" field"),
        other => panic!("{other:?}"),
    }
    match precheck_body("{ \"errors\": [ { \"title\": \"Not Found Error\" } ] }") {
        Err(Error::Validation(m)) => assert_eq!(m, "{\"errors\":[{\"title\":\"Not Found Error\"}]}"),
        other => panic!("{other:?}"),
    }
    assert!(precheck_body("{\"data\":{},\"errors\":[]}").is_ok());
    assert!(precheck_body("{\"meta\":{}}").is_ok());
    assert!(precheck_body("[]").is_ok());
    assert!(precheck_body("not json").is_ok());
}
