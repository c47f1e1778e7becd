use xurl::request::{CallOptions, RequestTarget};
use xurl::shortcuts::{
    create_post_request, delete_post_request, i32_string, lookup_user_request, post_body, reply_to_post_request,
    resolve_post_id, resolve_username, search_posts_request, send_dm_request, validate_dm_body,
    validate_media_attachments, validate_post_body, validate_post_id, validate_target_username,
};
use xurl::url::build_url_for_target;

#[test]
fn post_id_from_url_or_plain() {
    assert_eq!(resolve_post_id("https://x.com/user/status/1234567890"), "1234567890");
    assert_eq!(resolve_post_id("https://twitter.com/user/status/42/"), "42");
    assert_eq!(resolve_post_id("  987  "), "987");
    assert_eq!(resolve_post_id("https://x.com/user"), "https://x.com/user");
}

#[test]
fn username_normalised() {
    assert_eq!(resolve_username("  @jack "), "jack");
    assert_eq!(resolve_username("@@jack"), "@jack");
    assert_eq!(resolve_username("jack"), "jack");
    assert_eq!(resolve_username(" @ "), "");
}

#[test]
fn validators() {
    assert_eq!(validate_post_body(""), Err("empty-body"));
    assert_eq!(validate_post_body(&"a".repeat(280)), Ok(()));
    assert_eq!(validate_post_body(&"é".repeat(281)), Err("body-too-long"));
    assert_eq!(validate_media_attachments(&vec!["1".to_string(); 5]), Err("too-many-attachments"));
    assert_eq!(validate_media_attachments(&vec!["1".to_string(); 4]), Ok(()));
    assert_eq!(validate_dm_body(""), Err("empty-body"));
    assert_eq!(validate_dm_body("hi"), Ok(()));
    assert_eq!(validate_target_username("@"), Err("empty-username"));
    assert_eq!(validate_target_username("@bob"), Ok(()));
    assert_eq!(validate_post_id("   "), Err("empty-post-id"));
    assert_eq!(validate_post_id("1"), Ok(()));
}

#[test]
fn post_body_json() {
    assert_eq!(post_body("hi \"x\"", None, None, &Vec::new()), "{\"text\":\"hi \\\"x\\\"\"}");
    assert_eq!(
        post_body("t", Some("1"), Some("2"), &vec!["a".to_string(), "b".to_string()]),
        "{\"text\":\"t\",\"reply\":{\"in_reply_to_tweet_id\":\"1\"},\"quote_tweet_id\":\"2\",\"media\":{\"media_ids\":[\"a\",\"b\"]}}"
    );
}

#[test]
fn i32_decimal() {
    assert_eq!(i32_string(0), "0");
    assert_eq!(i32_string(-45), "-45");
    assert_eq!(i32_string(i32::MIN), "-2147483648");
}

#[test]
fn create_post_shape() {
    let opts = CallOptions { auth_type: "oauth2".to_string(), ..CallOptions::default() };
    let r = create_post_request("hello", &Vec::new(), &opts);
    assert_eq!(r.method, "POST");
    assert_eq!(r.data, "{\"text\":\"hello\"}");
    assert_eq!(r.auth_type, "oauth2");
    assert_eq!(build_url_for_target("https://api.x.com", &r.target).unwrap(), "https://api.x.com/2/tweets");
}

#[test]
fn reply_resolves_post_url() {
    let r = reply_to_post_request("https://x.com/a/status/77", "yo", &Vec::new(), &CallOptions::default());
    assert_eq!(r.data, "{\"text\":\"yo\",\"reply\":{\"in_reply_to_tweet_id\":\"77\"}}");
}

#[test]
fn delete_and_lookup_urls() {
    let r = delete_post_request("https://x.com/a/status/77", &CallOptions::default());
    assert_eq!(r.method, "DELETE");
    assert_eq!(build_url_for_target("https://api.x.com", &r.target).unwrap(), "https://api.x.com/2/tweets/77");
    let r = lookup_user_request("@jack", &CallOptions::default());
    assert_eq!(
        build_url_for_target("https://api.x.com", &r.target).unwrap(),
        "https://api.x.com/2/users/by/username/jack?user.fields=created_at%2Cdescription%2Cpublic_metrics%2Cverified%2Cprofile_image_url"
    );
}

#[test]
fn search_clamps_and_pages() {
    let opts = CallOptions { pagination_token: "tok".to_string(), ..CallOptions::default() };
    let r = search_posts_request("rust lang", 500, &opts);
    match &r.target {
        RequestTarget::Template { path, query, .. } => {
            assert_eq!(path, "/2/tweets/search/recent");
            assert_eq!(query[0], ("query".to_string(), "rust lang".to_string()));
            assert_eq!(query[1], ("max_results".to_string(), "100".to_string()));
            assert_eq!(query.last().unwrap(), &("pagination_token".to_string(), "tok".to_string()));
        }
        other => panic!("unexpected {other:?}"),
    }
    let r = search_posts_request("q", 3, &CallOptions::default());
    match &r.target {
        RequestTarget::Template { query, .. } => {
            assert_eq!(query[1].1, "10");
            assert_eq!(query.len(), 5);
        }
        other => panic!("unexpected {other:?}"),
    }
}

#[test]
fn dm_request_body() {
    let r = send_dm_request("99", "hey", &CallOptions::default());
    assert_eq!(r.method, "POST");
    assert_eq!(r.data, "{\"text\":\"hey\"}");
    assert_eq!(
        build_url_for_target("https://api.x.com", &r.target).unwrap(),
        "https://api.x.com/2/dm_conversations/with/99/messages"
    );
}

#[test]
fn page_query() {
    assert!(xurl::shortcuts::build_query(&CallOptions::default()).is_empty());
    let opts = CallOptions { pagination_token: "p1".to_string(), ..CallOptions::default() };
    assert_eq!(xurl::shortcuts::build_query(&opts), vec![("pagination_token".to_string(), "p1".to_string())]);
}
