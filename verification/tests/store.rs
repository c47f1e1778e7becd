use xurl::error::Error;
use xurl::store::{new_token_store, TokenStore, TokenType};

fn store_with(apps: &[&str]) -> TokenStore {
    let mut s = new_token_store("/tmp/.xurl");
    for a in apps {
        s.add_app(a, &format!("{a}-id"), &format!("{a}-secret")).unwrap();
    }
    s
}

#[test]
fn first_added_app_becomes_default() {
    let s = store_with(&["work", "home"]);
    assert_eq!(s.get_default_app(), "work");
    assert_eq!(s.list_apps(), vec!["home".to_string(), "work".to_string()]);
}

#[test]
fn add_existing_app_fails() {
    let mut s = store_with(&["work"]);
    let e = s.add_app("work", "x", "y").unwrap_err();
    assert!(matches!(e, Error::TokenStore(_)));
    assert_eq!(s.get_app("work").unwrap().client_id, "work-id");
}

#[test]
fn add_then_get_returns_credentials() {
    let s = store_with(&["work"]);
    let a = s.get_app("work").expect("app");
    assert_eq!(a.client_id, "work-id");
    assert_eq!(a.client_secret, "work-secret");
    assert!(a.bearer_token.is_none());
    assert!(s.get_app("nope").is_none());
}

#[test]
fn remove_default_promotes_first_remaining() {
    let mut s = store_with(&["a", "b", "c"]);
    s.remove_app("a").unwrap();
    assert!(s.get_app("a").is_none());
    assert_eq!(s.get_default_app(), "b");
    assert!(matches!(s.remove_app("a"), Err(Error::TokenStore(_))));
}

#[test]
fn remove_last_app_clears_default() {
    let mut s = store_with(&["only"]);
    s.remove_app("only").unwrap();
    assert_eq!(s.get_default_app(), "");
    assert!(s.list_apps().is_empty());
}

#[test]
fn set_default_app_requires_existing() {
    let mut s = store_with(&["a", "b"]);
    s.set_default_app("b").unwrap();
    assert_eq!(s.get_default_app(), "b");
    assert!(s.set_default_app("zzz").is_err());
    assert_eq!(s.get_default_app(), "b");
}

#[test]
fn oauth2_save_then_get_for_named_app() {
    let mut s = store_with(&["work", "home"]);
    s.save_o_auth2_token_for_app("home", "alice", "acc", "ref", 1234);
    let t = s.get_o_auth2_token_for_app("home", "alice").expect("token");
    assert_eq!(t.token_type, TokenType::OAuth2);
    let o = t.o_auth2.unwrap();
    assert_eq!(o.access_token, "acc");
    assert_eq!(o.refresh_token, "ref");
    assert_eq!(o.expiration_time, 1234);
    // the other app is untouched
    assert!(s.get_o_auth2_token_for_app("work", "alice").is_none());
}

#[test]
fn oauth2_save_replaces_existing_user() {
    let mut s = store_with(&["work"]);
    s.save_o_auth2_token("alice", "one", "r1", 1);
    s.save_o_auth2_token("alice", "two", "r2", 2);
    assert_eq!(s.get_o_auth2_usernames(), vec!["alice".to_string()]);
    assert_eq!(s.get_o_auth2_token("alice").unwrap().o_auth2.unwrap().access_token, "two");
}

#[test]
fn oauth2_clear_then_get_is_none() {
    let mut s = store_with(&["work"]);
    s.save_o_auth2_token("alice", "a", "r", 5);
    s.save_o_auth2_token("bob", "b", "r", 5);
    s.clear_o_auth2_token("alice");
    assert!(s.get_o_auth2_token("alice").is_none());
    assert!(s.get_o_auth2_token("bob").is_some());
}

#[test]
fn usernames_are_sorted() {
    let mut s = store_with(&["work"]);
    s.save_o_auth2_token("zed", "a", "r", 5);
    s.save_o_auth2_token("amy", "b", "r", 5);
    s.save_o_auth2_token("kim", "c", "r", 5);
    assert_eq!(s.get_o_auth2_usernames(), vec!["amy".to_string(), "kim".to_string(), "zed".to_string()]);
}

#[test]
fn bearer_save_then_get() {
    let mut s = store_with(&["work"]);
    assert!(!s.has_bearer_token());
    s.save_bearer_token("BEARER");
    assert!(s.has_bearer_token());
    let t = s.get_bearer_token().unwrap();
    assert_eq!(t.token_type, TokenType::Bearer);
    assert_eq!(t.bearer.unwrap(), "BEARER");
    s.clear_bearer_token();
    assert!(s.get_bearer_token().is_none());
}

#[test]
fn oauth1_save_then_get() {
    let mut s = store_with(&["work"]);
    s.save_o_auth1_tokens("at", "ts", "ck", "cs");
    assert!(s.has_o_auth1_tokens());
    let t = s.get_o_auth1_tokens().unwrap().o_auth1.unwrap();
    assert_eq!(t.access_token, "at");
    assert_eq!(t.token_secret, "ts");
    assert_eq!(t.consumer_key, "ck");
    assert_eq!(t.consumer_secret, "cs");
    s.clear_o_auth1_tokens();
    assert!(!s.has_o_auth1_tokens());
}

#[test]
fn write_to_empty_store_creates_default_app() {
    let mut s = new_token_store("/tmp/.xurl");
    s.save_bearer_token("B");
    assert_eq!(s.get_default_app(), "default");
    assert_eq!(s.list_apps(), vec!["default".to_string()]);
    assert_eq!(s.get_bearer_token().unwrap().bearer.unwrap(), "B");
}

#[test]
fn unknown_app_name_falls_back_to_default_app() {
    let mut s = store_with(&["work"]);
    s.save_bearer_token_for_app("nope", "B");
    assert_eq!(s.get_bearer_token_for_app("work").unwrap().bearer.unwrap(), "B");
    assert_eq!(s.list_apps(), vec!["work".to_string()]);
}

#[test]
fn clear_all_empties_app() {
    let mut s = store_with(&["work"]);
    s.save_bearer_token("B");
    s.save_o_auth1_tokens("at", "ts", "ck", "cs");
    s.save_o_auth2_token("alice", "a", "r", 1);
    s.clear_all();
    assert!(s.get_bearer_token().is_none());
    assert!(s.get_o_auth1_tokens().is_none());
    assert!(s.get_o_auth2_usernames().is_empty());
    assert!(s.get_first_o_auth2_token().is_none());
}

#[test]
fn default_user_must_hold_token() {
    let mut s = store_with(&["work"]);
    assert!(matches!(s.set_default_user("work", "alice"), Err(Error::TokenStore(_))));
    s.save_o_auth2_token_for_app("work", "alice", "a", "r", 1);
    s.set_default_user("work", "alice").unwrap();
    assert_eq!(s.get_default_user("work"), "alice");
}

#[test]
fn active_app_name_prefers_explicit() {
    let s = store_with(&["work", "home"]);
    assert_eq!(s.get_active_app_name("home"), "home");
    assert_eq!(s.get_active_app_name(""), "work");
}

#[test]
fn backfill_fills_only_credentialed_apps_missing_ids() {
    let mut s = new_token_store("/tmp/.xurl");
    s.save_bearer_token("B");
    s.add_app("empty", "", "").unwrap();
    assert!(s.backfill_credentials("cid", "csec"));
    assert_eq!(s.get_app("default").unwrap().client_id, "cid");
    assert_eq!(s.get_app("empty").unwrap().client_id, "");
    assert!(!s.backfill_credentials("cid2", "csec2"));
}

#[test]
fn apps_with_credentials_lists_apps_holding_tokens() {
    let mut s = store_with(&["a", "b"]);
    s.save_bearer_token_for_app("b", "B");
    assert_eq!(s.apps_with_credentials(), vec!["b".to_string()]);
}

#[test]
fn promote_first_credentialed_app() {
    let mut s = store_with(&["a", "b"]);
    s.save_bearer_token_for_app("b", "B");
    assert!(s.promote_to_default_if_first_credentialed("b"));
    assert_eq!(s.get_default_app(), "b");
    assert!(!s.promote_to_default_if_first_credentialed("a"));
    assert_eq!(s.get_default_app(), "b");
}

#[test]
fn active_app_and_creation() {
    let mut s = new_token_store("/tmp/.xurl");
    assert!(s.active_app().is_none());
    let a = s.active_app_or_create();
    assert_eq!(a.client_id, "");
    assert_eq!(s.get_default_app(), "default");
    assert!(s.active_app().is_some());
    let mut s = store_with(&["work"]);
    assert_eq!(s.active_app_or_create().client_id, "work-id");
    assert_eq!(s.list_apps(), vec!["work".to_string()]);
}

#[test]
fn store_error_messages_quote_names() {
    let mut s = store_with(&["work"]);
    match s.add_app("work", "x", "y") {
        Err(Error::TokenStore(m)) => assert_eq!(m, "app \"work\" already exists"),
        other => panic!("{other:?}"),
    }
    match s.remove_app("nope") {
        Err(Error::TokenStore(m)) => assert_eq!(m, "app \"nope\" not found"),
        other => panic!("{other:?}"),
    }
    match s.set_default_user("work", "al\"ice") {
        Err(Error::TokenStore(m)) => assert_eq!(m, "user \"al\\\"ice\" not found in app"),
        other => panic!("{other:?}"),
    }
}

#[test]
fn writes_keep_one_default_app() {
    let mut s = new_token_store("/tmp/.xurl");
    s.save_bearer_token_for_app("ghost", "A");
    s.save_o_auth1_tokens_for_app("phantom", "at", "ts", "ck", "cs");
    s.save_o_auth2_token_for_app("", "u", "a", "r", 1);
    assert_eq!(s.list_apps(), vec!["default".to_string()]);
    assert!(s.has_bearer_token() && s.has_o_auth1_tokens());
}
