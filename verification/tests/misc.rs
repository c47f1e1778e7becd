use xurl::auth::{
    bearer_header, new_config, oauth2_header_step, resolve_bearer_token, resolve_redirect_uri_from, Auth, OAuth2Step,
    RedirectSource,
};
use xurl::auth_matrix::WireScheme;
use xurl::builder::{
    build_date_init, commit_init, resolve_version, version_init, ClientBuilder, OAuth2Credential, OnTokenRefreshed,
};
use xurl::endpoints::{is_streaming_endpoint, streaming_endpoints_init};
use xurl::error::{
    is_api_error, is_auth_error, is_error_type, new_auth_error, new_error, new_http_error, new_invalid_method_error,
    new_io_error, new_json_error, new_token_store_error, Error, ERR_TYPE_AUTH, ERR_TYPE_HTTP,
};
use xurl::format::{color_of_value, colorize_json, colorize_line, Color};
use xurl::pending::{check_pending_permissions, expired_error, is_pending_expired, new_pending_state, not_found_error};
use xurl::picker::{new_picker_model, run_picker, PickerCommand};
use xurl::store::new_token_store;
use xurl::webhook::{crc_response_token, crc_token_of, webhook_reply, WebhookReply};

#[test]
fn error_messages_and_kinds() {
    assert_eq!(new_http_error("boom").message(), "HTTP Error: boom");
    assert_eq!(new_io_error("disk").message(), "IO Error: disk");
    assert_eq!(new_invalid_method_error("FOO").message(), "Invalid Method: Invalid HTTP method: FOO");
    assert_eq!(new_json_error("bad").message(), "JSON Error: bad");
    assert_eq!(new_auth_error("nope").message(), "Auth Error: nope");
    assert_eq!(new_token_store_error("x").message(), "Token Store Error: x");
    assert!(is_auth_error(&new_auth_error("a")));
    assert!(!is_api_error(&new_auth_error("a")));
    assert!(is_error_type(&new_http_error("a"), ERR_TYPE_HTTP));
    assert_eq!(new_error(ERR_TYPE_AUTH, "m").error_type(), ERR_TYPE_AUTH);
    let api = Error::Api { status: 404, body: "{}".to_string() };
    assert!(is_api_error(&api));
    assert_eq!(api.message(), "API Error: {}");
    assert!(new_auth_error("a").is(&new_auth_error("b")));
    assert!(!new_auth_error("a").is(&new_io_error("a")));
}

#[test]
fn pending_state_rules() {
    let p = new_pending_state("v", "s", "cid", "http://localhost:8080/callback", "work", 1000);
    assert_eq!(p.client_id, "cid");
    assert_eq!(p.created_at, 1000);
    assert!(!is_pending_expired(1000, 1900));
    assert!(is_pending_expired(1000, 1901));
    assert!(!is_pending_expired(1000, 10));
    match expired_error() {
        Error::Auth(m) => assert_eq!(m, "PendingStateExpired: pending OAuth2 state is older than 15 minutes"),
        other => panic!("{other:?}"),
    }
    assert!(matches!(not_found_error(), Error::Auth(_)));
}

#[test]
fn pending_permissions() {
    assert!(check_pending_permissions(0o100600, 5, 5).is_ok());
    match check_pending_permissions(0o100644, 5, 5) {
        Err(Error::Auth(m)) => assert_eq!(m, "PendingStatePermissions: expected mode 0600, got 0644"),
        other => panic!("{other:?}"),
    }
    match check_pending_permissions(0o600, 7, 5) {
        Err(Error::Auth(m)) => assert_eq!(m, "PendingStatePermissions: file owned by uid 7, expected 5"),
        other => panic!("{other:?}"),
    }
}

#[test]
fn config_defaults_and_overrides() {
    let c = new_config(None, None, None, None, None, None, None);
    assert_eq!(c.redirect_uri, "http://localhost:8080/callback");
    assert_eq!(c.redirect_uri_source, RedirectSource::Default);
    assert_eq!(c.api_base_url, "https://api.x.com");
    assert_eq!(c.info_url, "https://api.x.com/2/users/me");
    assert_eq!(c.token_url, "https://api.x.com/2/oauth2/token");
    let c = new_config(Some("id"), None, Some("http://127.0.0.1:9/cb"), None, None, Some("http://h"), None);
    assert_eq!(c.client_id, "id");
    assert_eq!(c.redirect_uri_source, RedirectSource::Env);
    assert_eq!(c.info_url, "http://h/2/users/me");
}

#[test]
fn redirect_precedence() {
    let (u, s) = resolve_redirect_uri_from(Some("http://e".to_string()), Some("http://a".to_string()));
    assert_eq!((u.as_str(), s), ("http://e", RedirectSource::Env));
    let (u, s) = resolve_redirect_uri_from(Some(String::new()), Some("http://a".to_string()));
    assert_eq!((u.as_str(), s), ("http://a", RedirectSource::App));
    let (_, s) = resolve_redirect_uri_from(None, None);
    assert_eq!(s, RedirectSource::Default);
}

#[test]
fn auth_takes_app_credentials_when_env_unset() {
    let mut store = new_token_store("/tmp/.xurl");
    store.add_app("work", "app-id", "app-secret").unwrap();
    let cfg = new_config(None, None, None, None, None, None, None);
    let a = Auth::new(&cfg, store, None);
    assert_eq!(a.client_id(), "app-id");
    assert_eq!(a.client_secret(), "app-secret");
    assert!(!a.client_id_from_env);
    let cfg = new_config(Some("env-id"), None, None, None, None, None, None);
    let mut store = new_token_store("/tmp/.xurl");
    store.add_app("work", "app-id", "app-secret").unwrap();
    let a = Auth::new(&cfg, store, None);
    assert_eq!(a.client_id(), "env-id");
    assert_eq!(a.client_secret(), "app-secret");
}

#[test]
fn bearer_resolution() {
    let mut store = new_token_store("/tmp/.xurl");
    store.add_app("work", "id", "s").unwrap();
    assert_eq!(resolve_bearer_token(Some("ENV".to_string()), &store, "").unwrap(), "Bearer ENV");
    match resolve_bearer_token(None, &store, "") {
        Err(Error::Auth(m)) => assert_eq!(m, "TokenNotFound: bearer token not found"),
        other => panic!("{other:?}"),
    }
    store.save_bearer_token("STORED");
    assert_eq!(resolve_bearer_token(Some(String::new()), &store, "").unwrap(), "Bearer STORED");
    assert_eq!(bearer_header("x"), "Bearer x");
}

#[test]
fn oauth1_header_needs_stored_credentials() {
    let mut store = new_token_store("/tmp/.xurl");
    store.add_app("work", "id", "s").unwrap();
    let cfg = new_config(None, None, None, None, None, None, None);
    let a = Auth::new(&cfg, store, None);
    match a.get_oauth1_header("GET", "https://api.x.com/2/users/me", None) {
        Err(Error::Auth(m)) => assert_eq!(m, "TokenNotFound: OAuth1 token not found"),
        other => panic!("{other:?}"),
    }
}

#[test]
fn oauth2_cache_and_expiry() {
    let mut store = new_token_store("/tmp/.xurl");
    store.add_app("work", "id", "s").unwrap();
    store.save_o_auth2_token("alice", "at", "rt", 100);
    let cfg = new_config(None, None, None, None, None, None, None);
    let a = Auth::new(&cfg, store, None);
    assert!(a.has_oauth2_token("alice"));
    assert!(!a.has_oauth2_token("bob"));
    assert!(a.oauth2_cached(""));
    assert_eq!(a.unexpired_oauth2_access_token("alice", 99), Some("at".to_string()));
    assert_eq!(a.unexpired_oauth2_access_token("alice", 100), None);
}

#[test]
fn builder_requires_a_credential() {
    match ClientBuilder::new().build() {
        Err(Error::Validation(m)) => assert!(m.starts_with("no credential given")),
        Err(e) => panic!("{e:?}"),
        Ok(_) => panic!("built without a credential"),
    }
    let parts = ClientBuilder::new().bearer("B").base_url("http://h").timeout(9).build().unwrap();
    assert_eq!(parts.base_url, "http://h");
    assert_eq!(parts.timeout_secs, 9);
    assert_eq!(parts.credentials.bearer, Some("B".to_string()));
    assert_eq!(parts.credentials.available(), vec![WireScheme::App]);
    let cred = OAuth2Credential { access_token: "a".to_string(), refresh_token: "r".to_string(), expires_at: 1 };
    let parts = ClientBuilder::new().bearer("B").oauth2(cred).build().unwrap();
    assert_eq!(parts.credentials.available(), vec![WireScheme::OAuth2, WireScheme::App]);
}

#[test]
fn versions() {
    assert_eq!(resolve_version("1.2", Some("0.9")), "1.2");
    assert_eq!(resolve_version("", Some("0.9")), "0.9");
    assert_eq!(resolve_version("", Some("(devel)")), "dev");
    assert_eq!(version_init(), "dev");
    assert_eq!(commit_init(), "none");
    assert_eq!(build_date_init(), "unknown");
}

#[test]
fn picker_moves_and_chooses() {
    assert!(matches!(run_picker("t", &Vec::new()), Err(Error::Validation(_))));
    let mut p = run_picker("Pick", &vec!["a".to_string(), "b".to_string()]).unwrap();
    assert_eq!(p.init(), PickerCommand::Continue);
    assert_eq!(p.view(), "Pick\n\n▸ a\n  b\n\n↑/↓ navigate • enter select • q quit\n");
    assert_eq!(p.update("up"), PickerCommand::Continue);
    assert_eq!(p.cursor, 0);
    p.update("j");
    p.update("down");
    assert_eq!(p.cursor, 1);
    assert_eq!(p.update("enter"), PickerCommand::Quit);
    assert_eq!(p.choice, "b");
    assert_eq!(p.view(), "");
    let mut q = run_picker("Pick", &vec!["a".to_string()]).unwrap();
    assert_eq!(q.update("esc"), PickerCommand::Quit);
    assert_eq!(q.view(), "Cancelled.\n");
}

#[test]
fn json_colouring() {
    assert_eq!(color_of_value("\"x\","), Color::Green);
    assert_eq!(color_of_value(" true "), Color::Magenta);
    assert_eq!(color_of_value("null,"), Color::Red);
    assert_eq!(color_of_value("12"), Color::Yellow);
    assert_eq!(colorize_line("  {"), vec![("  {".to_string(), Color::WhiteBold)]);
    let spans = colorize_line("  \"a\": 1,");
    assert_eq!(spans[0], ("  \"a\"".to_string(), Color::CyanBold));
    assert_eq!(spans[1], (":".to_string(), Color::Plain));
    let lines = colorize_json("{\n  \"a\": null\n}\n");
    assert_eq!(lines.len(), 3);
    assert_eq!(lines[2], vec![("}".to_string(), Color::WhiteBold)]);
}

#[test]
fn webhook_crc() {
    assert_eq!(crc_response_token("secret", "challenge"), "sha256=oeUF6Wxqoezggrue+wbIDxKRPSF6esKwizR2MHh9HaA=");
    match webhook_reply("GET", "challenge", "secret") {
        WebhookReply::Json(b) => {
            assert_eq!(b, "{\"response_token\":\"sha256=oeUF6Wxqoezggrue+wbIDxKRPSF6esKwizR2MHh9HaA=\"}")
        }
        other => panic!("{other:?}"),
    }
    assert!(matches!(webhook_reply("GET", "", "s"), WebhookReply::BadRequest(_)));
    assert!(matches!(webhook_reply("POST", "", "s"), WebhookReply::Event));
    assert!(matches!(webhook_reply("PUT", "", "s"), WebhookReply::NotAllowed(_)));
}

#[test]
fn streaming_detection() {
    assert_eq!(streaming_endpoints_init().len(), 8);
    assert!(is_streaming_endpoint("/2/tweets/search/stream"));
    assert!(is_streaming_endpoint("https://api.x.com/2/tweets/sample/stream?x=1"));
    assert!(is_streaming_endpoint("/2/tweets/search/stream/"));
    assert!(!is_streaming_endpoint("/2/tweets/search/recent"));
}

#[test]
fn picker_model_starts_at_top() {
    let p = new_picker_model("T", &vec!["x".to_string()]);
    assert_eq!(p.cursor, 0);
    assert!(!p.quitting && p.choice.is_empty());
}

#[test]
fn crc_token_is_read_from_the_request_target() {
    assert_eq!(crc_token_of("GET /webhook?crc_token=abc%2B1&x=2 HTTP/1.1\r\nHost: h\r\n\r\n"), "abc+1");
    assert_eq!(crc_token_of("GET /webhook?crc_token=a+b&crc_token=z HTTP/1.1\r\n\r\n"), "a b");
    assert_eq!(crc_token_of("GET /webhook HTTP/1.1\r\n\r\n"), "");
    assert_eq!(crc_token_of("POST /webhook?x=1 HTTP/1.1\r\n\r\n{}"), "");
}

#[test]
fn app_name_is_the_last_one_set() {
    let cfg = new_config(None, None, None, None, None, None, None);
    let a = Auth::new(&cfg, new_token_store("/tmp/.xurl"), None);
    assert_eq!(a.app_name(), "");
    let mut a = a.with_token_store(new_token_store("/tmp/.xurl"));
    assert_eq!(a.app_name(), "");
    a.with_app_name("one", None);
    a.with_app_name("two", None);
    let mut store = new_token_store("/tmp/.xurl");
    store.add_app("one", "i", "s").unwrap();
    let a = a.with_token_store(store);
    assert_eq!(a.app_name(), "two");
}

#[test]
fn oauth2_header_step_follows_the_store() {
    let mut store = new_token_store("/tmp/.xurl");
    store.add_app("work", "id", "s").unwrap();
    assert_eq!(oauth2_header_step(&store, "work", ""), OAuth2Step::RunFlow);
    assert_eq!(oauth2_header_step(&store, "work", "alice"), OAuth2Step::RunFlow);
    store.save_o_auth2_token_for_app("work", "alice", "at", "rt", 10);
    assert_eq!(oauth2_header_step(&store, "work", ""), OAuth2Step::Refresh);
    assert_eq!(oauth2_header_step(&store, "work", "bob"), OAuth2Step::Refresh);
    assert_eq!(oauth2_header_step(&store, "other", "alice"), OAuth2Step::Refresh);
}

struct Recorder(std::sync::Mutex<Vec<(String, String, u64)>>);

impl OnTokenRefreshed for Recorder {
    fn on_token_refreshed(&self, access_token: &str, refresh_token: &str, expires_at: u64) {
        self.0.lock().unwrap().push((access_token.to_string(), refresh_token.to_string(), expires_at));
    }
}

#[test]
fn builder_hands_the_hook_to_the_credentials() {
    let rec = std::sync::Arc::new(Recorder(std::sync::Mutex::new(Vec::new())));
    let hook: std::sync::Arc<dyn OnTokenRefreshed> = rec.clone();
    let cred = OAuth2Credential { access_token: "a".to_string(), refresh_token: "r".to_string(), expires_at: 1 };
    let parts = ClientBuilder::new().oauth2(cred).on_token_refreshed(Some(hook)).timeout(5).build().unwrap();
    let held = parts.credentials.hook.expect("hook kept");
    held.on_token_refreshed("a2", "r2", 99);
    assert_eq!(rec.0.lock().unwrap().as_slice(), &[("a2".to_string(), "r2".to_string(), 99)]);
    assert!(ClientBuilder::new().bearer("B").build().unwrap().credentials.hook.is_none());
}

#[test]
fn webhook_secret_comes_from_the_stored_oauth1_credentials() {
    let mut store = new_token_store("/tmp/.xurl");
    store.add_app("work", "id", "s").unwrap();
    match xurl::webhook::webhook_consumer_secret(&store) {
        Err(Error::Auth(m)) => assert!(m.starts_with("OAuth 1.0a consumer secret not found")),
        Err(e) => panic!("{e:?}"),
        Ok(s) => panic!("unexpected secret {s}"),
    }
    store.save_o_auth1_tokens_for_app("work", "at", "ts", "ck", "");
    assert!(xurl::webhook::webhook_consumer_secret(&store).is_err());
    store.save_o_auth1_tokens_for_app("work", "at", "ts", "ck", "cs");
    assert_eq!(xurl::webhook::webhook_consumer_secret(&store).unwrap(), "cs");
}
