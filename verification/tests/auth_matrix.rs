use xurl::auth_matrix::{auth_matrix_entries, shortcut_templates, supported_auth, validate, AuthScheme};
use xurl::error::Error;
use xurl::request::RequestTarget;

const EXPECTED_SHORTCUT_COUNT: usize = 32;

fn tmpl(path: &str) -> RequestTarget {
    RequestTarget::Template { path: path.to_string(), path_params: Vec::new(), query: Vec::new() }
}

#[test]
fn shortcut_templates_anchor_count() {
    assert_eq!(
        shortcut_templates().len(),
        EXPECTED_SHORTCUT_COUNT,
        "SHORTCUT_TEMPLATES drifted from the locked-in shortcut count"
    );
}

#[test]
fn matrix_has_at_least_one_entry_per_allowlist_pair() {
    let matrix = auth_matrix_entries();
    assert!(!matrix.is_empty(), "AUTH_MATRIX is empty — build-time codegen produced nothing");
    assert!(
        matrix.len() >= EXPECTED_SHORTCUT_COUNT - 2,
        "AUTH_MATRIX has {} entries, expected at least {}",
        matrix.len(),
        EXPECTED_SHORTCUT_COUNT - 2,
    );
}

#[test]
fn supported_auth_media_upload_post() {
    let schemes = supported_auth("POST", "/2/media/upload").expect("/2/media/upload POST must be in the matrix");
    assert_eq!(
        schemes,
        vec![AuthScheme::OAuth2User(vec!["media.write".to_string()]), AuthScheme::OAuth1User],
        "media upload init must accept OAuth2 (media.write) + OAuth1"
    );
}

#[test]
fn supported_auth_delete_tweet() {
    let schemes =
        supported_auth("DELETE", "/2/tweets/{id}").expect("DELETE /2/tweets/{{id}} must be in the matrix");
    assert!(!schemes.is_empty(), "DELETE /2/tweets/{{id}} must declare at least one scheme");
    assert!(
        schemes.contains(&AuthScheme::OAuth1User),
        "DELETE /2/tweets/{{id}} must accept OAuth1 user context"
    );
}

#[test]
fn literal_vs_param_no_precedence_resolution() {
    let me = supported_auth("GET", "/2/users/me");
    assert!(me.is_some(), "/2/users/me must be in the matrix");
    let bare = supported_auth("GET", "/2/users/{id}");
    assert!(bare.is_none(), "lookup must be a direct hash hit, no path-template precedence resolution");
}

#[test]
fn unknown_path_returns_none() {
    assert_eq!(supported_auth("POST", "/2/never/heard/of"), None);
}

#[test]
fn unknown_method_returns_none() {
    assert_eq!(supported_auth("PATCH", "/2/tweets"), None);
}

#[test]
fn method_case_insensitive() {
    let upper = supported_auth("POST", "/2/tweets");
    let lower = supported_auth("post", "/2/tweets");
    assert!(upper.is_some());
    assert_eq!(upper, lower, "method comparison must be case-insensitive");
}

#[test]
fn supported_auth_empty_method_returns_none() {
    assert_eq!(supported_auth("", "/2/tweets"), None);
}

#[test]
fn supported_auth_oversize_method_returns_none() {
    assert_eq!(supported_auth("PROPPATCH", "/2/tweets"), None);
}

#[test]
fn supported_auth_non_ascii_method_returns_none() {
    assert_eq!(supported_auth("GÉT", "/2/tweets"), None);
}

#[test]
fn validate_raw_url_always_ok() {
    let target = RequestTarget::RawUrl("https://api.x.com/2/media/upload".to_string());
    assert!(validate(&target, "POST", "app", None).is_ok());
    assert!(validate(&target, "GET", "oauth1", None).is_ok());
    assert!(validate(&target, "DELETE", "", None).is_ok());
}

#[test]
fn validate_template_empty_requested_is_ok() {
    let target = tmpl("/2/media/upload");
    assert!(validate(&target, "POST", "", None).is_ok());
}

#[test]
fn validate_template_matrix_miss_is_ok() {
    let target = tmpl("/2/never/heard/of");
    assert!(validate(&target, "POST", "app", None).is_ok());
    assert!(validate(&target, "GET", "oauth2", None).is_ok());
}

#[test]
fn validate_template_requested_in_supported_is_ok() {
    let target = tmpl("/2/media/upload");
    assert!(validate(&target, "POST", "oauth1", None).is_ok());
    assert!(validate(&target, "POST", "oauth2", None).is_ok());
}

#[test]
fn validate_template_requested_case_insensitive() {
    let target = tmpl("/2/media/upload");
    assert!(validate(&target, "post", "OAuth1", None).is_ok());
}

#[test]
fn validate_template_requested_not_in_supported_errors() {
    let target = tmpl("/2/media/upload");
    let err = validate(&target, "POST", "app", None).unwrap_err();
    match err {
        Error::AuthMethodMismatch { endpoint, method, requested, supported, available_in_app, .. } => {
            assert_eq!(endpoint, "/2/media/upload");
            assert_eq!(method, "POST");
            assert_eq!(requested.as_deref(), Some("app"));
            assert_eq!(supported, vec!["oauth2".to_string(), "oauth1".to_string()]);
            assert!(
                available_in_app.is_none(),
                "explicit-mismatch shape must leave `available_in_app` at None"
            );
        }
        other => panic!("expected AuthMethodMismatch, got {other:?}"),
    }
}

#[test]
fn validate_envelope_message_lists_alternatives() {
    let target = tmpl("/2/media/upload");
    let err = validate(&target, "POST", "app", None).unwrap_err();
    let msg = err.message();
    assert!(msg.contains("Bearer (app)"), "message must pretty-print requested scheme: {msg}");
    assert!(
        msg.contains("--auth oauth2") && msg.contains("--auth oauth1"),
        "message must list both supported alternatives: {msg}"
    );
    assert!(msg.contains("POST /2/media/upload"), "message must include method + endpoint: {msg}");
}

#[test]
fn validate_mismatch_message_exact() {
    let target = tmpl("/2/media/upload");
    let err = validate(&target, "POST", "app", Some("work")).unwrap_err();
    assert_eq!(
        err.message(),
        "Auth Method Mismatch: POST /2/media/upload does not accept Bearer (app); use --auth oauth2 or --auth oauth1"
    );
    assert_eq!(err.error_type(), "Auth Method Mismatch");
}

#[test]
fn validate_unknown_scheme_name_is_mismatch() {
    let target = tmpl("/2/media/upload");
    assert!(matches!(
        validate(&target, "POST", "kerberos", None),
        Err(Error::AuthMethodMismatch { .. })
    ));
}
