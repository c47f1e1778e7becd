use xurl::error::Error;
use xurl::oauth1::{
    build_oauth1_header, build_oauth1_header_with, form_encode_string, generate_nonce, generate_signature,
    generate_timestamp, normalize_params,
};
use xurl::store::OAuth1Token;

fn token() -> OAuth1Token {
    OAuth1Token {
        access_token: "at".to_string(),
        token_secret: "ts".to_string(),
        consumer_key: "ck".to_string(),
        consumer_secret: "cs".to_string(),
    }
}

fn pairs(ps: &[(&str, &str)]) -> Vec<(String, String)> {
    ps.iter().map(|(k, v)| (k.to_string(), v.to_string())).collect()
}

#[test]
fn form_encoding_matches_query_escape() {
    assert_eq!(form_encode_string("a b*c-d._e~f/g=h&é"), "a+b*c-d._e%7Ef%2Fg%3Dh%26%C3%A9");
    assert_eq!(form_encode_string(""), "");
}

#[test]
fn normalize_sorts_by_name_and_last_value_wins() {
    let got = normalize_params(&pairs(&[("b", "2"), ("a", "1"), ("c", "3"), ("a", "9")]));
    assert_eq!(got, pairs(&[("a", "9"), ("b", "2"), ("c", "3")]));
}

#[test]
fn signature_known_value() {
    let params = pairs(&[("b", "2"), ("a", "1 x"), ("a", "3")]);
    assert_eq!(generate_signature("POST", "https://api.x.com/2/tweets", &params, "c s", "t~s"), "3ctxevwDX56IGadfDfRGhJS/C6o=");
}

#[test]
fn header_with_fixed_nonce_and_timestamp() {
    let h = build_oauth1_header_with(
        "get",
        "https://api.x.com/2/users/me?user.fields=id,name",
        &token(),
        None,
        "12345",
        "1700000000",
    )
    .unwrap();
    assert_eq!(
        h,
        "OAuth oauth_consumer_key=\"ck\", oauth_nonce=\"12345\", oauth_signature=\"3FfuioTvLWCZK4XAyW85MH799P0%3D\", oauth_signature_method=\"HMAC-SHA1\", oauth_timestamp=\"1700000000\", oauth_token=\"at\", oauth_version=\"1.0\""
    );
}

#[test]
fn header_rejects_unparseable_url() {
    let e = build_oauth1_header("GET", "not a url", &token(), None).unwrap_err();
    match e {
        Error::Auth(m) => assert!(m.starts_with("InvalidURL: "), "{m}"),
        other => panic!("expected Auth, got {other:?}"),
    }
}

#[test]
fn fresh_header_has_all_fields() {
    let h = build_oauth1_header("POST", "https://api.x.com/2/tweets", &token(), None).unwrap();
    assert!(h.starts_with("OAuth oauth_consumer_key=\"ck\", oauth_nonce=\""));
    assert!(h.ends_with("oauth_token=\"at\", oauth_version=\"1.0\""));
}

#[test]
fn nonce_and_timestamp_are_decimal() {
    let n = generate_nonce();
    assert!(!n.is_empty() && n.chars().all(|c| c.is_ascii_digit()));
    assert!(n.parse::<u64>().unwrap() < 1_000_000_000);
    let t = generate_timestamp();
    assert!(t.parse::<u64>().unwrap() > 1_600_000_000);
}

fn signature_of(url: &str) -> String {
    let h = build_oauth1_header_with("get", url, &token(), None, "12345", "1700000000").unwrap();
    let start = h.find("oauth_signature=\"").unwrap() + "oauth_signature=\"".len();
    let rest = &h[start..];
    rest[..rest.find('"').unwrap()].to_string()
}

#[test]
fn non_default_port_is_signed() {
    assert_eq!(signature_of("http://h:8080/p"), "rNESKpkuA8ypaXlTqyzR9UqPQjo%3D");
    assert_eq!(signature_of("http://h/p"), "FPZiopeuo%2BeM4tRGFZN9O%2F8x%2Bog%3D");
}

#[test]
fn default_port_is_not_signed() {
    assert_eq!(signature_of("http://h:80/p"), signature_of("http://h/p"));
    assert_eq!(
        signature_of("https://api.x.com:443/2/users/me?user.fields=id,name"),
        "3FfuioTvLWCZK4XAyW85MH799P0%3D"
    );
}
