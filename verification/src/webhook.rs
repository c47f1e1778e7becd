//! The webhook listener's answers: the CRC challenge response and what
//! each incoming request gets. Serving HTTP and the tunnel in front of it
//! are the caller's.

use vstd::prelude::*;

use crate::crypto::{base64_standard, base64_standard_encode, hmac_sha256, hmac_sha256_tag};
use crate::oauth1::{utf8_of, utf8_vec};
use crate::callback::{first_line, request_path_of, second_word};
use crate::text::{owned, push_str, str_eq};
use crate::weburl::{parse_url, url_parse};
use crate::error::Error;
use crate::store::{resolved_app, StoreV, TokenStore};

verus! {

/// The CRC response token: `sha256=` and the base64 HMAC-SHA256 of the
/// token under the consumer secret.
pub open spec fn crc_token_text(consumer_secret: Seq<char>, crc_token: Seq<char>) -> Seq<char> {
    "sha256="@ + base64_standard(hmac_sha256(utf8_of(consumer_secret), utf8_of(crc_token)))
}

/// The CRC response token for a challenge.
pub fn crc_response_token(consumer_secret: &str, crc_token: &str) -> (r: String)
    ensures
        r@ == crc_token_text(consumer_secret@, crc_token@),
{
    let tag = hmac_sha256_tag(&utf8_vec(consumer_secret), &utf8_vec(crc_token));
    let mut r = owned("sha256=");
    push_str(&mut r, base64_standard_encode(&tag).as_str());
    r
}

/// What the webhook answers a request with.
#[derive(Debug, Clone)]
pub enum WebhookReply {
    /// 400 with this message.
    BadRequest(String),
    /// 200 with a JSON body.
    Json(String),
    /// 200 with no body; the request body is an event to record.
    Event,
    /// 405 with this message.
    NotAllowed(String),
}

/// The answer to a request with the given method and `crc_token` query
/// value (empty when absent).
pub fn webhook_reply(method: &str, crc_token: &str, consumer_secret: &str) -> (r: WebhookReply)
    ensures
        method@ == "GET"@ && crc_token@.len() == 0 ==> (r matches WebhookReply::BadRequest(m) && m@
            == "Error: crc_token missing from request"@),
        method@ == "GET"@ && crc_token@.len() > 0 ==> (r matches WebhookReply::Json(b) && b@
            == "{\"response_token\":\""@ + crc_token_text(consumer_secret@, crc_token@) + "\"}"@),
        method@ != "GET"@ && method@ == "POST"@ ==> r matches WebhookReply::Event,
        method@ != "GET"@ && method@ != "POST"@ ==> (r matches WebhookReply::NotAllowed(m) && m@
            == "Method not allowed"@),
{
    if str_eq(method, "GET") {
        if crc_token.is_empty() {
            return WebhookReply::BadRequest(owned("Error: crc_token missing from request"));
        }
        let mut b = owned("{\"response_token\":\"");
        push_str(&mut b, crc_response_token(consumer_secret, crc_token).as_str());
        push_str(&mut b, "\"}");
        return WebhookReply::Json(b);
    }
    if str_eq(method, "POST") {
        return WebhookReply::Event;
    }
    WebhookReply::NotAllowed(owned("Method not allowed"))
}

/// The OAuth1 consumer secret the webhook signs CRC answers with: the one
/// stored with the default app's OAuth1 credentials, when it is non-empty.
pub open spec fn stored_consumer_secret(s: StoreV) -> Option<Seq<char>> {
    match resolved_app(s, Seq::empty()) {
        Some(a) => match a.o_auth1_token {
            Some(t) => match t.o_auth1 {
                Some(o) => if o.consumer_secret.len() > 0 {
                    Some(o.consumer_secret)
                } else {
                    None
                },
                None => None,
            },
            None => None,
        },
        None => None,
    }
}

/// The message when no consumer secret is stored.
pub open spec fn missing_secret_text() -> Seq<char> {
    "OAuth 1.0a consumer secret not found. Please configure OAuth 1.0a credentials using 'xurl auth oauth1'."@
}

/// The consumer secret for the webhook's CRC answers, from the store's
/// OAuth1 credentials; an auth error when there is none.
pub fn webhook_consumer_secret(store: &TokenStore) -> (r: Result<String, Error>)
    ensures
        match stored_consumer_secret(store@) {
            Some(c) => r matches Ok(x) && x@ == c,
            None => r matches Err(Error::Auth(m)) && m@ == missing_secret_text(),
        },
{
    match store.get_o_auth1_tokens() {
        Some(t) => match t.o_auth1 {
            Some(o) => {
                if !o.consumer_secret.as_str().is_empty() {
                    return Ok(o.consumer_secret);
                }
            },
            None => {},
        },
        None => {},
    }
    Err(
        Error::Auth(
            owned(
                "OAuth 1.0a consumer secret not found. Please configure OAuth 1.0a credentials using 'xurl auth oauth1'.",
            ),
        ),
    )
}

/// The value of the first pair named `name`.
pub open spec fn first_value(ps: Seq<(Seq<char>, Seq<char>)>, name: Seq<char>) -> Option<Seq<char>>
    decreases ps.len(),
{
    if ps.len() == 0 {
        None
    } else if ps[0].0 == name {
        Some(ps[0].1)
    } else {
        first_value(ps.drop_first(), name)
    }
}

/// The `crc_token` query value of an HTTP request (its first line's
/// target, read as a URL path on the local host), form-decoded; empty when
/// the query has none.
pub open spec fn crc_token_in(request: Seq<char>) -> Seq<char> {
    match url_parse("http://localhost"@ + second_word(first_line(request))) {
        Ok(u) => match first_value(u.pairs, "crc_token"@) {
            Some(v) => v,
            None => Seq::empty(),
        },
        Err(_) => Seq::empty(),
    }
}

/// The `crc_token` a webhook request carries (see [`crc_token_in`]).
pub fn crc_token_of(request: &str) -> (r: String)
    ensures
        r@ == crc_token_in(request@),
{
    let target = request_path_of(request);
    let mut url = owned("http://localhost");
    push_str(&mut url, target.as_str());
    match parse_url(url.as_str()) {
        Ok(u) => {
            let mut i: usize = 0;
            proof {
                assert(u@.pairs.skip(0) =~= u@.pairs);
            }
            while i < u.pairs.len()
                invariant
                    i <= u.pairs.len(),
                    first_value(u@.pairs, "crc_token"@) == first_value(u@.pairs.skip(i as int), "crc_token"@),
                    crc_token_in(request@) == match first_value(u@.pairs, "crc_token"@) {
                        Some(v) => v,
                        None => Seq::empty(),
                    },
                decreases u.pairs.len() - i,
            {
                proof {
                    assert(u@.pairs.skip(i as int).drop_first() =~= u@.pairs.skip(i + 1));
                }
                if str_eq(u.pairs[i].0.as_str(), "crc_token") {
                    let v = owned(u.pairs[i].1.as_str());
                    proof {
                        assert(u@.pairs.skip(i as int)[0] == u@.pairs[i as int]);
                    }
                    return v;
                }
                i = i + 1;
            }
            String::new()
        },
        Err(_) => String::new(),
    }
}

} // verus!
