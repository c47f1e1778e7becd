use xurl::error::Error;
use xurl::request::{CallOptions, RequestOptions, RequestTarget};
use xurl::select::{select_auth, AuthPlan};
use xurl::store::{new_token_store, TokenStore};

const BASE: &str = "https://api.x.com";

fn request(method: &str, path: &str, auth: &str) -> RequestOptions {
    let mut r = CallOptions::default().to_request_options();
    r.method = method.to_string();
    r.auth_type = auth.to_string();
    r.target = RequestTarget::Template { path: path.to_string(), path_params: Vec::new(), query: Vec::new() };
    r
}

fn store_with_bearer() -> TokenStore {
    let mut s = new_token_store("/tmp/.xurl");
    s.add_app("work", "id", "secret").unwrap();
    s.save_bearer_token("B");
    s
}

#[test]
fn auto_prefers_oauth2_then_oauth1_then_bearer() {
    let mut s = store_with_bearer();
    let r = request("GET", "/2/tweets/search/recent", "");
    assert!(matches!(select_auth(&s, "", false, BASE, &r), Ok(AuthPlan::Bearer)));
    s.save_o_auth1_tokens("at", "ts", "ck", "cs");
    match select_auth(&s, "", false, BASE, &r).unwrap() {
        AuthPlan::OAuth1 { method, url } => {
            assert_eq!(method, "GET");
            assert_eq!(url, "https://api.x.com/2/tweets/search/recent");
        }
        other => panic!("expected OAuth1, got {other:?}"),
    }
    s.save_o_auth2_token("alice", "a", "r", 1);
    assert!(matches!(select_auth(&s, "", false, BASE, &r), Ok(AuthPlan::OAuth2)));
}

#[test]
fn auto_with_nothing_stored_is_no_auth_method() {
    let mut s = new_token_store("/tmp/.xurl");
    s.add_app("work", "id", "secret").unwrap();
    let r = request("GET", "/2/never/heard/of", "");
    match select_auth(&s, "", false, BASE, &r) {
        Err(Error::Auth(m)) => assert_eq!(m, "NoAuthMethod: no authentication method available"),
        other => panic!("unexpected {other:?}"),
    }
}

#[test]
fn env_bearer_counts_as_available() {
    let mut s = new_token_store("/tmp/.xurl");
    s.add_app("work", "id", "secret").unwrap();
    let r = request("GET", "/2/tweets/search/recent", "");
    assert!(matches!(select_auth(&s, "", true, BASE, &r), Ok(AuthPlan::Bearer)));
}

#[test]
fn auto_empty_intersection_is_mismatch_with_available() {
    let s = store_with_bearer();
    let r = request("POST", "/2/media/upload", "");
    match select_auth(&s, "", false, BASE, &r) {
        Err(Error::AuthMethodMismatch { requested, supported, available_in_app, app, .. }) => {
            assert!(requested.is_none());
            assert_eq!(supported, vec!["oauth2".to_string(), "oauth1".to_string()]);
            assert_eq!(available_in_app, Some(vec!["app".to_string()]));
            assert_eq!(app.as_deref(), Some("work"));
        }
        other => panic!("unexpected {other:?}"),
    }
}

#[test]
fn auto_mismatch_names_other_credentialed_apps() {
    let mut s = new_token_store("/tmp/.xurl");
    s.add_app("empty", "id", "secret").unwrap();
    s.add_app("zeta", "id", "secret").unwrap();
    s.add_app("alpha", "id", "secret").unwrap();
    s.save_o_auth1_tokens_for_app("zeta", "at", "ts", "ck", "cs");
    s.save_o_auth1_tokens_for_app("alpha", "at", "ts", "ck", "cs");
    let r = request("POST", "/2/media/upload", "");
    match select_auth(&s, "", false, BASE, &r) {
        Err(e @ Error::AuthMethodMismatch { .. }) => {
            if let Error::AuthMethodMismatch { other_apps_with_creds, .. } = &e {
                assert_eq!(other_apps_with_creds.clone(), Some(vec!["alpha".to_string(), "zeta".to_string()]));
            }
            assert!(e.message().contains("apps with credentials: alpha, zeta"), "{}", e.message());
        }
        other => panic!("unexpected {other:?}"),
    }
}

#[test]
fn explicit_auth_dispatches_as_given() {
    let s = new_token_store("/tmp/.xurl");
    let r = request("GET", "/2/users/me", "OAuth2");
    assert!(matches!(select_auth(&s, "", false, BASE, &r), Ok(AuthPlan::OAuth2)));
    let r = request("GET", "/2/tweets/search/recent", "app");
    assert!(matches!(select_auth(&s, "", false, BASE, &r), Ok(AuthPlan::Bearer)));
}

#[test]
fn explicit_auth_refused_by_endpoint_is_mismatch() {
    let s = store_with_bearer();
    let r = request("POST", "/2/media/upload", "app");
    assert!(matches!(
        select_auth(&s, "", false, BASE, &r),
        Err(Error::AuthMethodMismatch { requested: Some(_), .. })
    ));
}

#[test]
fn explicit_unknown_auth_on_unknown_endpoint_is_invalid() {
    let s = store_with_bearer();
    let r = request("GET", "/2/never/heard/of", "kerberos");
    match select_auth(&s, "", false, BASE, &r) {
        Err(Error::Auth(m)) => assert_eq!(m, "invalid auth type: kerberos"),
        other => panic!("unexpected {other:?}"),
    }
}

use xurl::auth::{new_config, Auth};
use xurl::auth_matrix::WireScheme;
use xurl::builder::ClientBuilder;
use xurl::select::CredentialSource;

#[test]
fn scheme_facts_for_store_and_direct() {
    let mut s = new_token_store("/tmp/.xurl");
    s.add_app("work", "id", "secret").unwrap();
    s.add_app("home", "id", "secret").unwrap();
    s.save_o_auth1_tokens_for_app("work", "at", "ts", "ck", "cs");
    s.save_bearer_token_for_app("home", "B");
    let cfg = new_config(None, None, None, None, None, None, None);
    let src = CredentialSource::Store(Auth::new(&cfg, s, None));
    assert!(src.store().is_some());
    let f = src.scheme_facts(true);
    assert_eq!(f.stored, vec![WireScheme::OAuth1]);
    assert_eq!(f.available, vec![WireScheme::OAuth1, WireScheme::App]);
    assert_eq!(f.app.as_deref(), Some("work"));
    assert_eq!(f.other_apps_with_creds, vec!["home".to_string()]);

    let parts = ClientBuilder::new().bearer("B").build().unwrap();
    let direct = CredentialSource::Direct(parts.credentials);
    assert!(direct.store().is_none());
    let f = direct.scheme_facts(true);
    assert_eq!(f.available, vec![WireScheme::App]);
    assert!(f.app.is_none());
}
