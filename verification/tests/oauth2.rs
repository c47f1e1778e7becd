use xurl::error::Error;
use xurl::oauth2::{
    build_auth_url, challenge_for, exchange_outcome, finish_exchange, flow_code, generate_code_verifier_and_challenge,
    generate_state, get_oauth2_scopes, is_expired, last_pair_value, refresh_outcome, refresh_step, remote_step2_code,
    scope_string, stored_oauth2_token, RefreshStep, TokenReply,
};
use xurl::store::{new_token_store, OAuth2Token};

fn reply(success: bool, access: Option<&str>) -> TokenReply {
    TokenReply {
        success,
        status_text: "400 Bad Request".to_string(),
        error: Some("invalid_grant".to_string()),
        error_description: Some("bad code".to_string()),
        access_token: access.map(str::to_string),
        refresh_token: Some("rt".to_string()),
        expires_in: None,
    }
}

#[test]
fn pkce_challenge_rfc7636_vector() {
    assert_eq!(
        challenge_for("dBjftJeZ4CVP-mB92K27uhbUJU1p1r_wW1gFWFOEjXk"),
        "E9Melhoa2OwvFrEMTJguCHaoeK1t8URWbuGJSstw-cM"
    );
}

#[test]
fn fresh_verifier_matches_its_challenge() {
    let (v, c) = generate_code_verifier_and_challenge();
    assert_eq!(v.len(), 43);
    assert_eq!(challenge_for(&v), c);
    let s = generate_state();
    assert_eq!(s.len(), 44);
    assert_ne!(generate_state(), s);
}

#[test]
fn scopes_listed_and_joined() {
    let scopes = get_oauth2_scopes();
    assert_eq!(scopes[0], "tweet.read");
    assert!(scopes.contains(&"offline.access".to_string()));
    assert_eq!(scope_string(), scopes.join(" "));
}

#[test]
fn auth_url_carries_pkce_parameters() {
    let u = build_auth_url("https://x.com/i/oauth2/authorize", "cid", "http://localhost:8080/callback", "st", "ch")
        .unwrap();
    assert!(u.starts_with(
        "https://x.com/i/oauth2/authorize?response_type=code&client_id=cid&redirect_uri=http%3A%2F%2Flocalhost%3A8080%2Fcallback&scope=tweet.read+users.read"
    ));
    assert!(u.ends_with("&state=st&code_challenge=ch&code_challenge_method=S256"));
    match build_auth_url("::bad", "cid", "r", "s", "c") {
        Err(Error::Auth(m)) => assert!(m.starts_with("InvalidURL: ")),
        other => panic!("unexpected {other:?}"),
    }
}

#[test]
fn exchange_failure_names_endpoint_error() {
    match exchange_outcome(&reply(false, None), 100) {
        Err(Error::Auth(m)) => assert_eq!(m, "TokenExchangeError: HTTP 400 Bad Request — invalid_grant: bad code"),
        other => panic!("unexpected {other:?}"),
    }
}

#[test]
fn exchange_success_sets_expiry() {
    let t = exchange_outcome(&reply(true, Some("at")), 100).unwrap();
    assert_eq!(t.access_token, "at");
    assert_eq!(t.refresh_token, "rt");
    assert_eq!(t.expiration_time, 7300);
    match exchange_outcome(&reply(true, None), 100) {
        Err(Error::Auth(m)) => assert_eq!(m, "TokenExchangeError: no access_token in response"),
        other => panic!("unexpected {other:?}"),
    }
    let mut r = reply(true, Some("at"));
    r.expires_in = Some(60);
    assert_eq!(refresh_outcome(&r, 10).unwrap().expiration_time, 70);
}

#[test]
fn finish_exchange_saves_then_reads_back() {
    let mut s = new_token_store("/tmp/.xurl");
    s.add_app("work", "id", "sec").unwrap();
    let t = exchange_outcome(&reply(true, Some("at")), 100).unwrap();
    assert_eq!(finish_exchange(&mut s, "work", "", Some("alice"), &t), "at");
    let o = stored_oauth2_token(&s, "work", "alice").unwrap();
    assert_eq!(o.access_token, "at");
    assert_eq!(stored_oauth2_token(&s, "work", "").unwrap().access_token, "at");
}

#[test]
fn refresh_step_depends_on_expiry() {
    let mut s = new_token_store("/tmp/.xurl");
    s.add_app("work", "id", "sec").unwrap();
    match refresh_step(&s, "work", "alice", 10) {
        Err(Error::Auth(m)) => assert_eq!(m, "TokenNotFound: oauth2 token not found"),
        other => panic!("unexpected {other:?}"),
    }
    s.save_o_auth2_token_for_app("work", "alice", "at", "rt", 50);
    assert!(matches!(refresh_step(&s, "work", "alice", 10), Ok(RefreshStep::Valid(a)) if a == "at"));
    assert!(matches!(refresh_step(&s, "work", "alice", 50), Ok(RefreshStep::Refresh(r)) if r == "rt"));
}

#[test]
fn expiry_is_inclusive() {
    let t = OAuth2Token { access_token: "a".to_string(), refresh_token: "r".to_string(), expiration_time: 5 };
    assert!(!is_expired(&t, 4));
    assert!(is_expired(&t, 5));
}

#[test]
fn browser_failure_wins() {
    match flow_code(true, Ok("code".to_string())) {
        Err(Error::Auth(m)) => assert!(m.starts_with("browser-open failed")),
        other => panic!("unexpected {other:?}"),
    }
    assert_eq!(flow_code(false, Ok("code".to_string())).unwrap(), "code");
}

#[test]
fn last_pair_wins() {
    let ps = vec![("a".to_string(), "1".to_string()), ("b".to_string(), "2".to_string()), ("a".to_string(), "3".to_string())];
    assert_eq!(last_pair_value(&ps, "a"), Some("3".to_string()));
    assert_eq!(last_pair_value(&ps, "c"), None);
}

#[test]
fn remote_step2_checks_in_order() {
    let ok = remote_step2_code("cid", "work", "st", "cid", "http://localhost:8080/callback?state=st&code=abc");
    assert_eq!(ok.unwrap(), "abc");
    match remote_step2_code("other", "work", "st", "cid", "http://x/?state=st&code=abc") {
        Err(Error::Auth(m)) => assert_eq!(
            m,
            "AppMismatch: pending state was created for app \"work\" (client_id: other), but current context uses client_id: cid. Re-run step 1 with the correct --app"
        ),
        other => panic!("unexpected {other:?}"),
    }
    match remote_step2_code("cid", "work", "st", "cid", "http://x/?code=abc") {
        Err(Error::Auth(m)) => assert!(m.starts_with("MissingState")),
        other => panic!("unexpected {other:?}"),
    }
    match remote_step2_code("cid", "work", "st", "cid", "http://x/?state=zz&code=abc") {
        Err(Error::Auth(m)) => assert!(m.starts_with("StateMismatch")),
        other => panic!("unexpected {other:?}"),
    }
    match remote_step2_code("cid", "work", "st", "cid", "http://x/?state=st") {
        Err(Error::Auth(m)) => assert!(m.starts_with("MissingCode")),
        other => panic!("unexpected {other:?}"),
    }
    match remote_step2_code("cid", "work", "st", "cid", "not a url") {
        Err(Error::Auth(m)) => assert!(m.starts_with("InvalidRedirectURL: failed to parse redirect URL: ")),
        other => panic!("unexpected {other:?}"),
    }
}
