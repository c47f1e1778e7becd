//! Endpoint -> accepted auth schemes, for the `(method, path template)`
//! pairs the shortcut and media layers target.
//!
//! Lookup is a direct match on the upper-cased method and the path template;
//! no path-template precedence resolution. Unknown pairs yield `None`, which
//! the validator treats as permissive (the request goes out and X arbitrates).

use vstd::prelude::*;

use crate::error::Error;
use crate::request::{pairs_view, RequestTarget};
use crate::text::{ascii_lowercase, ascii_uppercase, chars_of, lower, owned, str_eq, upper};
use crate::url::{render, render_template_path, Rendered};

verus! {

/// Auth schemes an X API endpoint accepts.
#[derive(Debug, Clone, PartialEq, Eq)]
pub enum AuthScheme {
    /// App-only Bearer token.
    Bearer,
    /// OAuth 1.0a user context.
    OAuth1User,
    /// OAuth 2.0 PKCE user context with the scopes it requires.
    OAuth2User(Vec<String>),
}

/// The model of an [`AuthScheme`].
pub enum SchemeSpec {
    Bearer,
    OAuth1User,
    OAuth2User(Seq<Seq<char>>),
}

/// The model of a list of strings.
pub open spec fn strings_view(v: Seq<String>) -> Seq<Seq<char>> {
    Seq::new(v.len(), |i: int| v[i]@)
}

impl AuthScheme {
    /// The model of this scheme.
    pub open spec fn spec_of(self) -> SchemeSpec {
        match self {
            AuthScheme::Bearer => SchemeSpec::Bearer,
            AuthScheme::OAuth1User => SchemeSpec::OAuth1User,
            AuthScheme::OAuth2User(s) => SchemeSpec::OAuth2User(strings_view(s@)),
        }
    }
}

/// The model of a list of schemes.
pub open spec fn schemes_view(v: Seq<AuthScheme>) -> Seq<SchemeSpec> {
    Seq::new(v.len(), |i: int| v[i].spec_of())
}

/// The wire form of a scheme, as the `--auth` flag spells it.
#[derive(Debug, Clone, Copy, PartialEq, Eq, Structural)]
pub enum WireScheme {
    /// `oauth2`.
    OAuth2,
    /// `oauth1`.
    OAuth1,
    /// `app` (bearer).
    App,
}

/// `oauth2`, `oauth1`, `app`.
pub open spec fn wire_text(w: WireScheme) -> Seq<char> {
    match w {
        WireScheme::OAuth2 => "oauth2"@,
        WireScheme::OAuth1 => "oauth1"@,
        WireScheme::App => "app"@,
    }
}

impl WireScheme {
    /// The wire string of this scheme.
    pub fn as_wire(&self) -> (r: String)
        ensures
            r@ == wire_text(*self),
    {
        match self {
            WireScheme::OAuth2 => owned("oauth2"),
            WireScheme::OAuth1 => owned("oauth1"),
            WireScheme::App => owned("app"),
        }
    }

    /// The auto-detect preference order: OAuth2, OAuth1, Bearer.
    pub fn all_by_preference() -> (r: Vec<WireScheme>)
        ensures
            r@ == seq![WireScheme::OAuth2, WireScheme::OAuth1, WireScheme::App],
    {
        vec![WireScheme::OAuth2, WireScheme::OAuth1, WireScheme::App]
    }
}

/// The wire scheme a scheme collapses to.
pub open spec fn scheme_wire(s: SchemeSpec) -> WireScheme {
    match s {
        SchemeSpec::Bearer => WireScheme::App,
        SchemeSpec::OAuth1User => WireScheme::OAuth1,
        SchemeSpec::OAuth2User(_) => WireScheme::OAuth2,
    }
}

/// Maps an [`AuthScheme`] to its wire-format `--auth` flag value.
pub fn auth_scheme_wire_str(scheme: &AuthScheme) -> (r: String)
    ensures
        r@ == wire_text(scheme_wire(scheme.spec_of())),
{
    match scheme {
        AuthScheme::Bearer => owned("app"),
        AuthScheme::OAuth1User => owned("oauth1"),
        AuthScheme::OAuth2User(_) => owned("oauth2"),
    }
}

/// The wire scheme of an [`AuthScheme`].
pub fn auth_scheme_wire(scheme: &AuthScheme) -> (r: WireScheme)
    ensures
        r == scheme_wire(scheme.spec_of()),
{
    match scheme {
        AuthScheme::Bearer => WireScheme::App,
        AuthScheme::OAuth1User => WireScheme::OAuth1,
        AuthScheme::OAuth2User(_) => WireScheme::OAuth2,
    }
}

/// Longest method the matrix can hold.
pub const MAX_METHOD_LEN: usize = 8;

/// The accepted schemes of each `(METHOD, path template)` pair.
pub open spec fn matrix(m: Seq<char>, p: Seq<char>) -> Option<Seq<SchemeSpec>> {
    if m == "POST"@ && p == "/2/tweets"@ {
        Some(seq![SchemeSpec::OAuth2User(seq!["tweet.read"@, "tweet.write"@, "users.read"@]), SchemeSpec::OAuth1User])
    } else if m == "GET"@ && p == "/2/tweets/{id}"@ {
        Some(seq![SchemeSpec::Bearer, SchemeSpec::OAuth2User(seq!["tweet.read"@, "users.read"@]), SchemeSpec::OAuth1User])
    } else if m == "DELETE"@ && p == "/2/tweets/{id}"@ {
        Some(seq![SchemeSpec::OAuth2User(seq!["tweet.read"@, "tweet.write"@, "users.read"@]), SchemeSpec::OAuth1User])
    } else if m == "GET"@ && p == "/2/tweets/search/recent"@ {
        Some(seq![SchemeSpec::Bearer, SchemeSpec::OAuth2User(seq!["tweet.read"@, "users.read"@]), SchemeSpec::OAuth1User])
    } else if m == "GET"@ && p == "/2/users/me"@ {
        Some(seq![SchemeSpec::OAuth2User(seq!["tweet.read"@, "users.read"@]), SchemeSpec::OAuth1User])
    } else if m == "GET"@ && p == "/2/users/by/username/{username}"@ {
        Some(seq![SchemeSpec::Bearer, SchemeSpec::OAuth2User(seq!["tweet.read"@, "users.read"@]), SchemeSpec::OAuth1User])
    } else if m == "GET"@ && p == "/2/users/{id}/timelines/reverse_chronological"@ {
        Some(seq![SchemeSpec::OAuth2User(seq!["tweet.read"@, "users.read"@]), SchemeSpec::OAuth1User])
    } else if m == "GET"@ && p == "/2/users/{id}/mentions"@ {
        Some(seq![SchemeSpec::Bearer, SchemeSpec::OAuth2User(seq!["tweet.read"@, "users.read"@]), SchemeSpec::OAuth1User])
    } else if m == "GET"@ && p == "/2/users/{id}/followers"@ {
        Some(seq![SchemeSpec::Bearer, SchemeSpec::OAuth2User(seq!["follows.read"@, "tweet.read"@, "users.read"@]), SchemeSpec::OAuth1User])
    } else if m == "GET"@ && p == "/2/users/{id}/liked_tweets"@ {
        Some(seq![SchemeSpec::Bearer, SchemeSpec::OAuth2User(seq!["like.read"@, "tweet.read"@, "users.read"@]), SchemeSpec::OAuth1User])
    } else if m == "GET"@ && p == "/2/users/{id}/blocking"@ {
        Some(seq![SchemeSpec::OAuth2User(seq!["block.read"@, "tweet.read"@, "users.read"@]), SchemeSpec::OAuth1User])
    } else if m == "POST"@ && p == "/2/users/{id}/likes"@ {
        Some(seq![SchemeSpec::OAuth2User(seq!["like.write"@, "tweet.read"@, "users.read"@]), SchemeSpec::OAuth1User])
    } else if m == "DELETE"@ && p == "/2/users/{id}/likes/{tweet_id}"@ {
        Some(seq![SchemeSpec::OAuth2User(seq!["like.write"@, "tweet.read"@, "users.read"@]), SchemeSpec::OAuth1User])
    } else if m == "POST"@ && p == "/2/users/{id}/retweets"@ {
        Some(seq![SchemeSpec::OAuth2User(seq!["tweet.read"@, "tweet.write"@, "users.read"@]), SchemeSpec::OAuth1User])
    } else if m == "DELETE"@ && p == "/2/users/{id}/retweets/{source_tweet_id}"@ {
        Some(seq![SchemeSpec::OAuth2User(seq!["tweet.read"@, "tweet.write"@, "users.read"@]), SchemeSpec::OAuth1User])
    } else if m == "GET"@ && p == "/2/users/{id}/bookmarks"@ {
        Some(seq![SchemeSpec::OAuth2User(seq!["bookmark.read"@, "tweet.read"@, "users.read"@])])
    } else if m == "POST"@ && p == "/2/users/{id}/bookmarks"@ {
        Some(seq![SchemeSpec::OAuth2User(seq!["bookmark.write"@, "tweet.read"@, "users.read"@])])
    } else if m == "DELETE"@ && p == "/2/users/{id}/bookmarks/{tweet_id}"@ {
        Some(seq![SchemeSpec::OAuth2User(seq!["bookmark.write"@, "tweet.read"@, "users.read"@])])
    } else if m == "GET"@ && p == "/2/users/{id}/following"@ {
        Some(seq![SchemeSpec::Bearer, SchemeSpec::OAuth2User(seq!["follows.read"@, "tweet.read"@, "users.read"@]), SchemeSpec::OAuth1User])
    } else if m == "POST"@ && p == "/2/users/{id}/following"@ {
        Some(seq![SchemeSpec::OAuth2User(seq!["follows.read"@, "follows.write"@, "tweet.read"@, "users.read"@]), SchemeSpec::OAuth1User])
    } else if m == "DELETE"@ && p == "/2/users/{source_user_id}/following/{target_user_id}"@ {
        Some(seq![SchemeSpec::OAuth2User(seq!["follows.write"@, "tweet.read"@, "users.read"@]), SchemeSpec::OAuth1User])
    } else if m == "GET"@ && p == "/2/users/{id}/muting"@ {
        Some(seq![SchemeSpec::OAuth2User(seq!["mute.read"@, "tweet.read"@, "users.read"@]), SchemeSpec::OAuth1User])
    } else if m == "POST"@ && p == "/2/users/{id}/muting"@ {
        Some(seq![SchemeSpec::OAuth2User(seq!["mute.write"@, "tweet.read"@, "users.read"@]), SchemeSpec::OAuth1User])
    } else if m == "DELETE"@ && p == "/2/users/{source_user_id}/muting/{target_user_id}"@ {
        Some(seq![SchemeSpec::OAuth2User(seq!["mute.write"@, "tweet.read"@, "users.read"@]), SchemeSpec::OAuth1User])
    } else if m == "POST"@ && p == "/2/dm_conversations/with/{participant_id}/messages"@ {
        Some(seq![SchemeSpec::OAuth2User(seq!["dm.read"@, "dm.write"@, "tweet.read"@, "users.read"@]), SchemeSpec::OAuth1User])
    } else if m == "GET"@ && p == "/2/dm_events"@ {
        Some(seq![SchemeSpec::OAuth2User(seq!["dm.read"@, "tweet.read"@, "users.read"@]), SchemeSpec::OAuth1User])
    } else if m == "GET"@ && p == "/2/usage/tweets"@ {
        Some(seq![SchemeSpec::Bearer])
    } else if m == "POST"@ && p == "/2/media/upload"@ {
        Some(seq![SchemeSpec::OAuth2User(seq!["media.write"@]), SchemeSpec::OAuth1User])
    } else if m == "GET"@ && p == "/2/media/upload"@ {
        Some(seq![SchemeSpec::OAuth2User(seq!["media.write"@]), SchemeSpec::OAuth1User])
    } else if m == "POST"@ && p == "/2/media/upload/initialize"@ {
        Some(seq![SchemeSpec::OAuth2User(seq!["media.write"@]), SchemeSpec::OAuth1User])
    } else if m == "POST"@ && p == "/2/media/upload/{id}/append"@ {
        Some(seq![SchemeSpec::OAuth2User(seq!["media.write"@]), SchemeSpec::OAuth1User])
    } else if m == "POST"@ && p == "/2/media/upload/{id}/finalize"@ {
        Some(seq![SchemeSpec::OAuth2User(seq!["media.write"@]), SchemeSpec::OAuth1User])
    } else {
        None
    }
}

/// Every character of `s` is ASCII.
pub open spec fn all_ascii(s: Seq<char>) -> bool {
    forall|i: int| 0 <= i < s.len() ==> (s[i] as u32) < 128
}

/// The schemes `supported_auth` reports for a method and path.
pub open spec fn supported(method: Seq<char>, path: Seq<char>) -> Option<Seq<SchemeSpec>> {
    if method.len() == 0 || method.len() > MAX_METHOD_LEN || !all_ascii(method) {
        None
    } else {
        matrix(upper(method), path)
    }
}

/// A character and its upper-case form are both ASCII or both not.
proof fn lemma_upper_char_ascii(c: char, d: char)
    requires
        crate::text::upper_char(c) == crate::text::upper_char(d),
        (c as u32) < 128,
    ensures
        (d as u32) < 128,
{
}

/// The lookup ignores the method's letter case: two methods that
/// upper-case alike are accepted or refused alike, and find the same
/// schemes.
pub proof fn law_method_case_insensitive(m1: Seq<char>, m2: Seq<char>, path: Seq<char>)
    requires
        upper(m1) == upper(m2),
    ensures
        supported(m1, path) == supported(m2, path),
{
    assert(m1.len() == upper(m1).len() && m2.len() == upper(m2).len());
    assert(all_ascii(m1) == all_ascii(m2)) by {
        if all_ascii(m1) {
            assert forall|i: int| 0 <= i < m2.len() implies (m2[i] as u32) < 128 by {
                assert(upper(m1)[i] == crate::text::upper_char(m1[i]));
                assert(upper(m2)[i] == crate::text::upper_char(m2[i]));
                lemma_upper_char_ascii(m1[i], m2[i]);
            }
        }
        if all_ascii(m2) {
            assert forall|i: int| 0 <= i < m1.len() implies (m1[i] as u32) < 128 by {
                assert(upper(m1)[i] == crate::text::upper_char(m1[i]));
                assert(upper(m2)[i] == crate::text::upper_char(m2[i]));
                lemma_upper_char_ascii(m2[i], m1[i]);
            }
        }
    }
}

/// The public read endpoints (a post, search, a user by name, and a
/// user's mentions, followers, following and liked posts): what an app-only
/// bearer token is for.
pub open spec fn public_read_templates() -> Seq<Seq<char>> {
    seq![
        "/2/tweets/{id}"@,
        "/2/tweets/search/recent"@,
        "/2/users/by/username/{username}"@,
        "/2/users/{id}/mentions"@,
        "/2/users/{id}/followers"@,
        "/2/users/{id}/following"@,
        "/2/users/{id}/liked_tweets"@,
    ]
}

/// OAuth2 with the `tweet.read` and `users.read` scopes.
pub open spec fn reads_as_user(x: SchemeSpec) -> bool {
    x matches SchemeSpec::OAuth2User(scopes) && scopes.contains("tweet.read"@) && scopes.contains("users.read"@)
}

/// A bearer token alone is enough for public reads and search: every
/// public read endpoint, looked up with `GET` in any letter case, accepts
/// the app-only Bearer scheme, and also a user context (OAuth2 with
/// `tweet.read` and `users.read`, and OAuth1).
pub proof fn law_public_reads_accept_bearer(m: Seq<char>, i: int)
    requires
        upper(m) == "GET"@,
        0 <= i < public_read_templates().len(),
    ensures
        supported(m, public_read_templates()[i]) matches Some(s) && s.contains(SchemeSpec::Bearer)
            && s.contains(SchemeSpec::OAuth1User) && exists|k: int| 0 <= k < s.len() && #[trigger] reads_as_user(s[k]),
{
    reveal_strlit("POST");
    reveal_strlit("/2/tweets");
    reveal_strlit("GET");
    reveal_strlit("/2/tweets/{id}");
    reveal_strlit("DELETE");
    reveal_strlit("/2/tweets/search/recent");
    reveal_strlit("/2/users/me");
    reveal_strlit("/2/users/by/username/{username}");
    reveal_strlit("/2/users/{id}/timelines/reverse_chronological");
    reveal_strlit("/2/users/{id}/mentions");
    reveal_strlit("/2/users/{id}/followers");
    reveal_strlit("/2/users/{id}/liked_tweets");
    reveal_strlit("/2/users/{id}/blocking");
    reveal_strlit("/2/users/{id}/likes");
    reveal_strlit("/2/users/{id}/likes/{tweet_id}");
    reveal_strlit("/2/users/{id}/retweets");
    reveal_strlit("/2/users/{id}/retweets/{source_tweet_id}");
    reveal_strlit("/2/users/{id}/bookmarks");
    reveal_strlit("/2/users/{id}/bookmarks/{tweet_id}");
    reveal_strlit("/2/users/{id}/following");
    reveal_strlit("/2/users/{source_user_id}/following/{target_user_id}");
    reveal_strlit("/2/users/{id}/muting");
    reveal_strlit("/2/users/{source_user_id}/muting/{target_user_id}");
    reveal_strlit("/2/dm_conversations/with/{participant_id}/messages");
    reveal_strlit("/2/dm_events");
    reveal_strlit("/2/usage/tweets");
    reveal_strlit("/2/media/upload");
    reveal_strlit("/2/media/upload/initialize");
    reveal_strlit("/2/media/upload/{id}/append");
    reveal_strlit("/2/media/upload/{id}/finalize");
    let g = "GET"@;
    assert(upper(g) =~= g);
    assert(all_ascii(g));
    law_method_case_insensitive(m, g, public_read_templates()[i]);
    let p = public_read_templates()[i];
    let tu = seq!["tweet.read"@, "users.read"@];
    let std_reads = Some(seq![SchemeSpec::Bearer, SchemeSpec::OAuth2User(tu), SchemeSpec::OAuth1User]);
    if i == 0 {
        assert(p == "/2/tweets/{id}"@);
        assert(matrix(g, p) == std_reads);
    } else if i == 1 {
        assert(p == "/2/tweets/search/recent"@);
        assert("/2/tweets/search/recent"@ != "/2/tweets/{id}"@) by { assert("/2/tweets/search/recent"@.len() == 23); assert("/2/tweets/{id}"@.len() == 14); }
        assert(matrix(g, p) == std_reads);
    } else if i == 2 {
        assert(p == "/2/users/by/username/{username}"@);
        assert("/2/users/by/username/{username}"@ != "/2/tweets/{id}"@) by { assert("/2/users/by/username/{username}"@.len() == 31); assert("/2/tweets/{id}"@.len() == 14); }
        assert("/2/users/by/username/{username}"@ != "/2/tweets/search/recent"@) by { assert("/2/users/by/username/{username}"@.len() == 31); assert("/2/tweets/search/recent"@.len() == 23); }
        assert("/2/users/by/username/{username}"@ != "/2/users/me"@) by { assert("/2/users/by/username/{username}"@.len() == 31); assert("/2/users/me"@.len() == 11); }
        assert(matrix(g, p) == std_reads);
    } else if i == 3 {
        assert(p == "/2/users/{id}/mentions"@);
        assert("/2/users/{id}/mentions"@ != "/2/tweets/{id}"@) by { assert("/2/users/{id}/mentions"@.len() == 22); assert("/2/tweets/{id}"@.len() == 14); }
        assert("/2/users/{id}/mentions"@ != "/2/tweets/search/recent"@) by { assert("/2/users/{id}/mentions"@.len() == 22); assert("/2/tweets/search/recent"@.len() == 23); }
        assert("/2/users/{id}/mentions"@ != "/2/users/me"@) by { assert("/2/users/{id}/mentions"@.len() == 22); assert("/2/users/me"@.len() == 11); }
        assert("/2/users/{id}/mentions"@ != "/2/users/by/username/{username}"@) by { assert("/2/users/{id}/mentions"@.len() == 22); assert("/2/users/by/username/{username}"@.len() == 31); }
        assert("/2/users/{id}/mentions"@ != "/2/users/{id}/timelines/reverse_chronological"@) by { assert("/2/users/{id}/mentions"@.len() == 22); assert("/2/users/{id}/timelines/reverse_chronological"@.len() == 45); }
        assert(matrix(g, p) == std_reads);
    } else if i == 4 {
        assert(p == "/2/users/{id}/followers"@);
        assert("/2/users/{id}/followers"@ != "/2/tweets/{id}"@) by { assert("/2/users/{id}/followers"@.len() == 23); assert("/2/tweets/{id}"@.len() == 14); }
        assert("/2/users/{id}/followers"@ != "/2/tweets/search/recent"@) by { assert("/2/users/{id}/followers"@[3] == 'u'); assert("/2/tweets/search/recent"@[3] == 't'); }
        assert("/2/users/{id}/followers"@ != "/2/users/me"@) by { assert("/2/users/{id}/followers"@.len() == 23); assert("/2/users/me"@.len() == 11); }
        assert("/2/users/{id}/followers"@ != "/2/users/by/username/{username}"@) by { assert("/2/users/{id}/followers"@.len() == 23); assert("/2/users/by/username/{username}"@.len() == 31); }
        assert("/2/users/{id}/followers"@ != "/2/users/{id}/timelines/reverse_chronological"@) by { assert("/2/users/{id}/followers"@.len() == 23); assert("/2/users/{id}/timelines/reverse_chronological"@.len() == 45); }
        assert("/2/users/{id}/followers"@ != "/2/users/{id}/mentions"@) by { assert("/2/users/{id}/followers"@.len() == 23); assert("/2/users/{id}/mentions"@.len() == 22); }
        let sc = seq!["follows.read"@, "tweet.read"@, "users.read"@];
        assert(matrix(g, p) == Some(seq![SchemeSpec::Bearer, SchemeSpec::OAuth2User(sc), SchemeSpec::OAuth1User]));
    } else if i == 5 {
        assert(p == "/2/users/{id}/following"@);
        assert("/2/users/{id}/following"@ != "/2/tweets/{id}"@) by { assert("/2/users/{id}/following"@.len() == 23); assert("/2/tweets/{id}"@.len() == 14); }
        assert("/2/users/{id}/following"@ != "/2/tweets/search/recent"@) by { assert("/2/users/{id}/following"@[3] == 'u'); assert("/2/tweets/search/recent"@[3] == 't'); }
        assert("/2/users/{id}/following"@ != "/2/users/me"@) by { assert("/2/users/{id}/following"@.len() == 23); assert("/2/users/me"@.len() == 11); }
        assert("/2/users/{id}/following"@ != "/2/users/by/username/{username}"@) by { assert("/2/users/{id}/following"@.len() == 23); assert("/2/users/by/username/{username}"@.len() == 31); }
        assert("/2/users/{id}/following"@ != "/2/users/{id}/timelines/reverse_chronological"@) by { assert("/2/users/{id}/following"@.len() == 23); assert("/2/users/{id}/timelines/reverse_chronological"@.len() == 45); }
        assert("/2/users/{id}/following"@ != "/2/users/{id}/mentions"@) by { assert("/2/users/{id}/following"@.len() == 23); assert("/2/users/{id}/mentions"@.len() == 22); }
        assert("/2/users/{id}/following"@ != "/2/users/{id}/followers"@) by { assert("/2/users/{id}/following"@[20] == 'i'); assert("/2/users/{id}/followers"@[20] == 'e'); }
        assert("/2/users/{id}/following"@ != "/2/users/{id}/liked_tweets"@) by { assert("/2/users/{id}/following"@.len() == 23); assert("/2/users/{id}/liked_tweets"@.len() == 26); }
        assert("/2/users/{id}/following"@ != "/2/users/{id}/blocking"@) by { assert("/2/users/{id}/following"@.len() == 23); assert("/2/users/{id}/blocking"@.len() == 22); }
        assert("/2/users/{id}/following"@ != "/2/users/{id}/bookmarks"@) by { assert("/2/users/{id}/following"@[14] == 'f'); assert("/2/users/{id}/bookmarks"@[14] == 'b'); }
        let sc = seq!["follows.read"@, "tweet.read"@, "users.read"@];
        assert(matrix(g, p) == Some(seq![SchemeSpec::Bearer, SchemeSpec::OAuth2User(sc), SchemeSpec::OAuth1User]));
    } else if i == 6 {
        assert(p == "/2/users/{id}/liked_tweets"@);
        assert("/2/users/{id}/liked_tweets"@ != "/2/tweets/{id}"@) by { assert("/2/users/{id}/liked_tweets"@.len() == 26); assert("/2/tweets/{id}"@.len() == 14); }
        assert("/2/users/{id}/liked_tweets"@ != "/2/tweets/search/recent"@) by { assert("/2/users/{id}/liked_tweets"@.len() == 26); assert("/2/tweets/search/recent"@.len() == 23); }
        assert("/2/users/{id}/liked_tweets"@ != "/2/users/me"@) by { assert("/2/users/{id}/liked_tweets"@.len() == 26); assert("/2/users/me"@.len() == 11); }
        assert("/2/users/{id}/liked_tweets"@ != "/2/users/by/username/{username}"@) by { assert("/2/users/{id}/liked_tweets"@.len() == 26); assert("/2/users/by/username/{username}"@.len() == 31); }
        assert("/2/users/{id}/liked_tweets"@ != "/2/users/{id}/timelines/reverse_chronological"@) by { assert("/2/users/{id}/liked_tweets"@.len() == 26); assert("/2/users/{id}/timelines/reverse_chronological"@.len() == 45); }
        assert("/2/users/{id}/liked_tweets"@ != "/2/users/{id}/mentions"@) by { assert("/2/users/{id}/liked_tweets"@.len() == 26); assert("/2/users/{id}/mentions"@.len() == 22); }
        assert("/2/users/{id}/liked_tweets"@ != "/2/users/{id}/followers"@) by { assert("/2/users/{id}/liked_tweets"@.len() == 26); assert("/2/users/{id}/followers"@.len() == 23); }
        let sc = seq!["like.read"@, "tweet.read"@, "users.read"@];
        assert(matrix(g, p) == Some(seq![SchemeSpec::Bearer, SchemeSpec::OAuth2User(sc), SchemeSpec::OAuth1User]));
    }
    let s = supported(g, p)->Some_0;
    assert(s[0] == SchemeSpec::Bearer);
    assert(s[2] == SchemeSpec::OAuth1User);
    assert(reads_as_user(s[1])) by {
        let scopes = s[1]->OAuth2User_0;
        if i <= 3 {
            assert(scopes[0] == "tweet.read"@ && scopes[1] == "users.read"@);
        } else {
            assert(scopes[1] == "tweet.read"@ && scopes[2] == "users.read"@);
        }
    }
}

/// Only reads take a bearer token: no endpoint accepts the app-only Bearer
/// scheme for a method other than `GET`, so a write always needs a user
/// context.
pub proof fn law_bearer_only_for_reads(m: Seq<char>, p: Seq<char>)
    requires
        upper(m) != "GET"@,
    ensures
        supported(m, p) matches Some(s) ==> !s.contains(SchemeSpec::Bearer),
{
    if let Some(s) = supported(m, p) {
        if s.contains(SchemeSpec::Bearer) {
            let k = choose|k: int| 0 <= k < s.len() && s[k] == SchemeSpec::Bearer;
            assert(s[k] == SchemeSpec::Bearer);
        }
    }
}

fn scopes1(a: &str) -> (r: Vec<String>)
    ensures
        strings_view(r@) == seq![a@],
{
    let r = vec![owned(a)];
    assert(strings_view(r@) =~= seq![a@]);
    r
}

fn scopes2(a: &str, b: &str) -> (r: Vec<String>)
    ensures
        strings_view(r@) == seq![a@, b@],
{
    let r = vec![owned(a), owned(b)];
    assert(strings_view(r@) =~= seq![a@, b@]);
    r
}

fn scopes3(a: &str, b: &str, c: &str) -> (r: Vec<String>)
    ensures
        strings_view(r@) == seq![a@, b@, c@],
{
    let r = vec![owned(a), owned(b), owned(c)];
    assert(strings_view(r@) =~= seq![a@, b@, c@]);
    r
}

fn scopes4(a: &str, b: &str, c: &str, d: &str) -> (r: Vec<String>)
    ensures
        strings_view(r@) == seq![a@, b@, c@, d@],
{
    let r = vec![owned(a), owned(b), owned(c), owned(d)];
    assert(strings_view(r@) =~= seq![a@, b@, c@, d@]);
    r
}

fn matrix_lookup(m: &str, path: &str) -> (r: Option<Vec<AuthScheme>>)
    ensures
        match matrix(m@, path@) {
            None => r is None,
            Some(s) => r matches Some(v) && schemes_view(v@) == s,
        },
{
    if str_eq(m, "POST") && str_eq(path, "/2/tweets") {
        Some(vec![AuthScheme::OAuth2User(scopes3("tweet.read", "tweet.write", "users.read")), AuthScheme::OAuth1User])
    } else if str_eq(m, "GET") && str_eq(path, "/2/tweets/{id}") {
        Some(vec![AuthScheme::Bearer, AuthScheme::OAuth2User(scopes2("tweet.read", "users.read")), AuthScheme::OAuth1User])
    } else if str_eq(m, "DELETE") && str_eq(path, "/2/tweets/{id}") {
        Some(vec![AuthScheme::OAuth2User(scopes3("tweet.read", "tweet.write", "users.read")), AuthScheme::OAuth1User])
    } else if str_eq(m, "GET") && str_eq(path, "/2/tweets/search/recent") {
        Some(vec![AuthScheme::Bearer, AuthScheme::OAuth2User(scopes2("tweet.read", "users.read")), AuthScheme::OAuth1User])
    } else if str_eq(m, "GET") && str_eq(path, "/2/users/me") {
        Some(vec![AuthScheme::OAuth2User(scopes2("tweet.read", "users.read")), AuthScheme::OAuth1User])
    } else if str_eq(m, "GET") && str_eq(path, "/2/users/by/username/{username}") {
        Some(vec![AuthScheme::Bearer, AuthScheme::OAuth2User(scopes2("tweet.read", "users.read")), AuthScheme::OAuth1User])
    } else if str_eq(m, "GET") && str_eq(path, "/2/users/{id}/timelines/reverse_chronological") {
        Some(vec![AuthScheme::OAuth2User(scopes2("tweet.read", "users.read")), AuthScheme::OAuth1User])
    } else if str_eq(m, "GET") && str_eq(path, "/2/users/{id}/mentions") {
        Some(vec![AuthScheme::Bearer, AuthScheme::OAuth2User(scopes2("tweet.read", "users.read")), AuthScheme::OAuth1User])
    } else if str_eq(m, "GET") && str_eq(path, "/2/users/{id}/followers") {
        Some(vec![AuthScheme::Bearer, AuthScheme::OAuth2User(scopes3("follows.read", "tweet.read", "users.read")), AuthScheme::OAuth1User])
    } else if str_eq(m, "GET") && str_eq(path, "/2/users/{id}/liked_tweets") {
        Some(vec![AuthScheme::Bearer, AuthScheme::OAuth2User(scopes3("like.read", "tweet.read", "users.read")), AuthScheme::OAuth1User])
    } else if str_eq(m, "GET") && str_eq(path, "/2/users/{id}/blocking") {
        Some(vec![AuthScheme::OAuth2User(scopes3("block.read", "tweet.read", "users.read")), AuthScheme::OAuth1User])
    } else if str_eq(m, "POST") && str_eq(path, "/2/users/{id}/likes") {
        Some(vec![AuthScheme::OAuth2User(scopes3("like.write", "tweet.read", "users.read")), AuthScheme::OAuth1User])
    } else if str_eq(m, "DELETE") && str_eq(path, "/2/users/{id}/likes/{tweet_id}") {
        Some(vec![AuthScheme::OAuth2User(scopes3("like.write", "tweet.read", "users.read")), AuthScheme::OAuth1User])
    } else if str_eq(m, "POST") && str_eq(path, "/2/users/{id}/retweets") {
        Some(vec![AuthScheme::OAuth2User(scopes3("tweet.read", "tweet.write", "users.read")), AuthScheme::OAuth1User])
    } else if str_eq(m, "DELETE") && str_eq(path, "/2/users/{id}/retweets/{source_tweet_id}") {
        Some(vec![AuthScheme::OAuth2User(scopes3("tweet.read", "tweet.write", "users.read")), AuthScheme::OAuth1User])
    } else if str_eq(m, "GET") && str_eq(path, "/2/users/{id}/bookmarks") {
        Some(vec![AuthScheme::OAuth2User(scopes3("bookmark.read", "tweet.read", "users.read"))])
    } else if str_eq(m, "POST") && str_eq(path, "/2/users/{id}/bookmarks") {
        Some(vec![AuthScheme::OAuth2User(scopes3("bookmark.write", "tweet.read", "users.read"))])
    } else if str_eq(m, "DELETE") && str_eq(path, "/2/users/{id}/bookmarks/{tweet_id}") {
        Some(vec![AuthScheme::OAuth2User(scopes3("bookmark.write", "tweet.read", "users.read"))])
    } else if str_eq(m, "GET") && str_eq(path, "/2/users/{id}/following") {
        Some(vec![AuthScheme::Bearer, AuthScheme::OAuth2User(scopes3("follows.read", "tweet.read", "users.read")), AuthScheme::OAuth1User])
    } else if str_eq(m, "POST") && str_eq(path, "/2/users/{id}/following") {
        Some(vec![AuthScheme::OAuth2User(scopes4("follows.read", "follows.write", "tweet.read", "users.read")), AuthScheme::OAuth1User])
    } else if str_eq(m, "DELETE") && str_eq(path, "/2/users/{source_user_id}/following/{target_user_id}") {
        Some(vec![AuthScheme::OAuth2User(scopes3("follows.write", "tweet.read", "users.read")), AuthScheme::OAuth1User])
    } else if str_eq(m, "GET") && str_eq(path, "/2/users/{id}/muting") {
        Some(vec![AuthScheme::OAuth2User(scopes3("mute.read", "tweet.read", "users.read")), AuthScheme::OAuth1User])
    } else if str_eq(m, "POST") && str_eq(path, "/2/users/{id}/muting") {
        Some(vec![AuthScheme::OAuth2User(scopes3("mute.write", "tweet.read", "users.read")), AuthScheme::OAuth1User])
    } else if str_eq(m, "DELETE") && str_eq(path, "/2/users/{source_user_id}/muting/{target_user_id}") {
        Some(vec![AuthScheme::OAuth2User(scopes3("mute.write", "tweet.read", "users.read")), AuthScheme::OAuth1User])
    } else if str_eq(m, "POST") && str_eq(path, "/2/dm_conversations/with/{participant_id}/messages") {
        Some(vec![AuthScheme::OAuth2User(scopes4("dm.read", "dm.write", "tweet.read", "users.read")), AuthScheme::OAuth1User])
    } else if str_eq(m, "GET") && str_eq(path, "/2/dm_events") {
        Some(vec![AuthScheme::OAuth2User(scopes3("dm.read", "tweet.read", "users.read")), AuthScheme::OAuth1User])
    } else if str_eq(m, "GET") && str_eq(path, "/2/usage/tweets") {
        Some(vec![AuthScheme::Bearer])
    } else if str_eq(m, "POST") && str_eq(path, "/2/media/upload") {
        Some(vec![AuthScheme::OAuth2User(scopes1("media.write")), AuthScheme::OAuth1User])
    } else if str_eq(m, "GET") && str_eq(path, "/2/media/upload") {
        Some(vec![AuthScheme::OAuth2User(scopes1("media.write")), AuthScheme::OAuth1User])
    } else if str_eq(m, "POST") && str_eq(path, "/2/media/upload/initialize") {
        Some(vec![AuthScheme::OAuth2User(scopes1("media.write")), AuthScheme::OAuth1User])
    } else if str_eq(m, "POST") && str_eq(path, "/2/media/upload/{id}/append") {
        Some(vec![AuthScheme::OAuth2User(scopes1("media.write")), AuthScheme::OAuth1User])
    } else if str_eq(m, "POST") && str_eq(path, "/2/media/upload/{id}/finalize") {
        Some(vec![AuthScheme::OAuth2User(scopes1("media.write")), AuthScheme::OAuth1User])
    } else {
        None
    }
}

/// Is every character of `s` ASCII?
fn is_all_ascii(s: &str) -> (r: bool)
    ensures
        r == all_ascii(s@),
{
    let v = chars_of(s);
    let mut i: usize = 0;
    while i < v.len()
        invariant
            i <= v.len(),
            v@ == s@,
            forall|k: int| 0 <= k < i ==> (s@[k] as u32) < 128,
        decreases v.len() - i,
    {
        if (v[i] as u32) >= 128 {
            return false;
        }
        i = i + 1;
    }
    true
}

/// Looks up the auth schemes an endpoint accepts.
///
/// The method is compared case-insensitively; an empty, non-ASCII, or
/// longer-than-eight-character method matches nothing.
pub fn supported_auth(method: &str, path: &str) -> (r: Option<Vec<AuthScheme>>)
    ensures
        match supported(method@, path@) {
            None => r is None,
            Some(s) => r matches Some(v) && schemes_view(v@) == s,
        },
{
    let mv = chars_of(method);
    if mv.len() == 0 || mv.len() > MAX_METHOD_LEN || !is_all_ascii(method) {
        return None;
    }
    let upper_m = ascii_uppercase(method);
    matrix_lookup(upper_m.as_str(), path)
}

/// The `(METHOD, path template)` pairs the shortcut and media layers target.
pub open spec fn shortcut_templates_spec() -> Seq<(Seq<char>, Seq<char>)> {
    seq![("POST"@, "/2/tweets"@), ("GET"@, "/2/tweets/{id}"@), ("DELETE"@, "/2/tweets/{id}"@), ("GET"@, "/2/tweets/search/recent"@), ("GET"@, "/2/users/me"@), ("GET"@, "/2/users/by/username/{username}"@), ("GET"@, "/2/users/{id}/timelines/reverse_chronological"@), ("GET"@, "/2/users/{id}/mentions"@), ("GET"@, "/2/users/{id}/followers"@), ("GET"@, "/2/users/{id}/liked_tweets"@), ("GET"@, "/2/users/{id}/blocking"@), ("POST"@, "/2/users/{id}/likes"@), ("DELETE"@, "/2/users/{id}/likes/{tweet_id}"@), ("POST"@, "/2/users/{id}/retweets"@), ("DELETE"@, "/2/users/{id}/retweets/{source_tweet_id}"@), ("GET"@, "/2/users/{id}/bookmarks"@), ("POST"@, "/2/users/{id}/bookmarks"@), ("DELETE"@, "/2/users/{id}/bookmarks/{tweet_id}"@), ("GET"@, "/2/users/{id}/following"@), ("POST"@, "/2/users/{id}/following"@), ("DELETE"@, "/2/users/{source_user_id}/following/{target_user_id}"@), ("GET"@, "/2/users/{id}/muting"@), ("POST"@, "/2/users/{id}/muting"@), ("DELETE"@, "/2/users/{source_user_id}/muting/{target_user_id}"@), ("POST"@, "/2/dm_conversations/with/{participant_id}/messages"@), ("GET"@, "/2/dm_events"@), ("GET"@, "/2/usage/tweets"@), ("POST"@, "/2/media/upload"@), ("GET"@, "/2/media/upload"@), ("POST"@, "/2/media/upload/initialize"@), ("POST"@, "/2/media/upload/{id}/append"@), ("POST"@, "/2/media/upload/{id}/finalize"@)]
}

/// The `(METHOD, path template)` pairs the shortcut and media layers target.
pub fn shortcut_templates() -> (r: Vec<(String, String)>)
    ensures
        pairs_view(r@) == shortcut_templates_spec(),
{
    let mut v: Vec<(String, String)> = Vec::new();
    v.push((owned("POST"), owned("/2/tweets")));
    v.push((owned("GET"), owned("/2/tweets/{id}")));
    v.push((owned("DELETE"), owned("/2/tweets/{id}")));
    v.push((owned("GET"), owned("/2/tweets/search/recent")));
    v.push((owned("GET"), owned("/2/users/me")));
    v.push((owned("GET"), owned("/2/users/by/username/{username}")));
    v.push((owned("GET"), owned("/2/users/{id}/timelines/reverse_chronological")));
    v.push((owned("GET"), owned("/2/users/{id}/mentions")));
    v.push((owned("GET"), owned("/2/users/{id}/followers")));
    v.push((owned("GET"), owned("/2/users/{id}/liked_tweets")));
    v.push((owned("GET"), owned("/2/users/{id}/blocking")));
    v.push((owned("POST"), owned("/2/users/{id}/likes")));
    v.push((owned("DELETE"), owned("/2/users/{id}/likes/{tweet_id}")));
    v.push((owned("POST"), owned("/2/users/{id}/retweets")));
    v.push((owned("DELETE"), owned("/2/users/{id}/retweets/{source_tweet_id}")));
    v.push((owned("GET"), owned("/2/users/{id}/bookmarks")));
    v.push((owned("POST"), owned("/2/users/{id}/bookmarks")));
    v.push((owned("DELETE"), owned("/2/users/{id}/bookmarks/{tweet_id}")));
    v.push((owned("GET"), owned("/2/users/{id}/following")));
    v.push((owned("POST"), owned("/2/users/{id}/following")));
    v.push((owned("DELETE"), owned("/2/users/{source_user_id}/following/{target_user_id}")));
    v.push((owned("GET"), owned("/2/users/{id}/muting")));
    v.push((owned("POST"), owned("/2/users/{id}/muting")));
    v.push((owned("DELETE"), owned("/2/users/{source_user_id}/muting/{target_user_id}")));
    v.push((owned("POST"), owned("/2/dm_conversations/with/{participant_id}/messages")));
    v.push((owned("GET"), owned("/2/dm_events")));
    v.push((owned("GET"), owned("/2/usage/tweets")));
    v.push((owned("POST"), owned("/2/media/upload")));
    v.push((owned("GET"), owned("/2/media/upload")));
    v.push((owned("POST"), owned("/2/media/upload/initialize")));
    v.push((owned("POST"), owned("/2/media/upload/{id}/append")));
    v.push((owned("POST"), owned("/2/media/upload/{id}/finalize")));
    assert(pairs_view(v@) =~= shortcut_templates_spec());
    v
}

/// The templates the matrix knows, in template order.
pub open spec fn matrix_keys(t: Seq<(Seq<char>, Seq<char>)>) -> Seq<(Seq<char>, Seq<char>)>
    decreases t.len(),
{
    if t.len() == 0 {
        Seq::empty()
    } else if supported(t.last().0, t.last().1) is Some {
        matrix_keys(t.drop_last()).push(t.last())
    } else {
        matrix_keys(t.drop_last())
    }
}

/// The matrix entries of the shortcut templates: each known
/// `(METHOD, path)` with its accepted schemes, in template order.
pub fn auth_matrix_entries() -> (r: Vec<(String, String, Vec<AuthScheme>)>)
    ensures
        Seq::new(r@.len(), |i: int| (r@[i].0@, r@[i].1@)) == matrix_keys(shortcut_templates_spec()),
        forall|i: int| 0 <= i < r@.len() ==> supported(r@[i].0@, r@[i].1@) == Some(schemes_view((#[trigger] r@[i]).2@)),
{
    let t = shortcut_templates();
    let mut r: Vec<(String, String, Vec<AuthScheme>)> = Vec::new();
    let mut i: usize = 0;
    while i < t.len()
        invariant
            i <= t.len(),
            pairs_view(t@) == shortcut_templates_spec(),
            Seq::new(r@.len(), |k: int| (r@[k].0@, r@[k].1@)) == matrix_keys(pairs_view(t@).subrange(0, i as int)),
            forall|k: int| 0 <= k < r@.len() ==> supported(r@[k].0@, r@[k].1@) == Some(schemes_view((#[trigger] r@[k]).2@)),
        decreases t.len() - i,
    {
        proof {
            let p = pairs_view(t@).subrange(0, i + 1);
            assert(p.drop_last() =~= pairs_view(t@).subrange(0, i as int));
            assert(p.last() == (t@[i as int].0@, t@[i as int].1@));
        }
        match supported_auth(t[i].0.as_str(), t[i].1.as_str()) {
            Some(s) => {
                let ghost prev = r@;
                let e = (t[i].0.clone(), t[i].1.clone(), s);
                r.push(e);
                proof {
                    assert(Seq::new(r@.len(), |k: int| (r@[k].0@, r@[k].1@)) =~= Seq::new(
                        prev.len(),
                        |k: int| (prev[k].0@, prev[k].1@),
                    ).push((e.0@, e.1@)));
                }
            },
            None => {},
        }
        i = i + 1;
    }
    proof {
        assert(pairs_view(t@).subrange(0, i as int) =~= pairs_view(t@));
    }
    r
}

// ── Wire lists ───────────────────────────────────────────────────────

/// `xs` without repeats, first occurrences kept in order.
pub open spec fn dedup(xs: Seq<WireScheme>) -> Seq<WireScheme>
    decreases xs.len(),
{
    if xs.len() == 0 {
        Seq::empty()
    } else {
        let d = dedup(xs.drop_last());
        if d.contains(xs.last()) {
            d
        } else {
            d.push(xs.last())
        }
    }
}

/// The deduplicated wire list of a scheme list.
pub open spec fn wire_list(s: Seq<SchemeSpec>) -> Seq<WireScheme> {
    dedup(s.map_values(|x: SchemeSpec| scheme_wire(x)))
}

/// The strings of a wire list.
pub open spec fn wire_texts(w: Seq<WireScheme>) -> Seq<Seq<char>> {
    w.map_values(|x: WireScheme| wire_text(x))
}

/// Is `w` in the list?
pub fn wire_contains(list: &Vec<WireScheme>, w: WireScheme) -> (r: bool)
    ensures
        r == list@.contains(w),
{
    let mut i: usize = 0;
    while i < list.len()
        invariant
            i <= list.len(),
            forall|k: int| 0 <= k < i ==> list@[k] != w,
        decreases list.len() - i,
    {
        if list[i] == w {
            return true;
        }
        i = i + 1;
    }
    false
}

/// Collapses schemes into their deduplicated wire list, preserving order.
pub fn schemes_to_wire_schemes(schemes: &Vec<AuthScheme>) -> (r: Vec<WireScheme>)
    ensures
        r@ == wire_list(schemes_view(schemes@)),
{
    let ghost ws = schemes_view(schemes@).map_values(|x: SchemeSpec| scheme_wire(x));
    let mut out: Vec<WireScheme> = Vec::new();
    let mut i: usize = 0;
    assert(ws.subrange(0, 0) =~= Seq::<WireScheme>::empty());
    while i < schemes.len()
        invariant
            i <= schemes.len(),
            ws == schemes_view(schemes@).map_values(|x: SchemeSpec| scheme_wire(x)),
            out@ == dedup(ws.subrange(0, i as int)),
        decreases schemes.len() - i,
    {
        let w = auth_scheme_wire(&schemes[i]);
        let present = wire_contains(&out, w);
        if !present {
            out.push(w);
        }
        proof {
            let p = ws.subrange(0, i + 1);
            assert(p.drop_last() =~= ws.subrange(0, i as int));
            assert(p.last() == w);
        }
        i = i + 1;
    }
    assert(ws.subrange(0, schemes.len() as int) =~= ws);
    out
}

/// The strings of a wire list, in order.
pub fn wire_strings(w: &Vec<WireScheme>) -> (r: Vec<String>)
    ensures
        strings_view(r@) == wire_texts(w@),
{
    let mut r: Vec<String> = Vec::new();
    let mut i: usize = 0;
    while i < w.len()
        invariant
            i <= w.len(),
            strings_view(r@) == wire_texts(w@.subrange(0, i as int)),
        decreases w.len() - i,
    {
        let ghost old_r = r@;
        r.push(w[i].as_wire());
        proof {
            assert(strings_view(r@) =~= strings_view(old_r).push(wire_text(w@[i as int])));
            assert(wire_texts(w@.subrange(0, i + 1)) =~= wire_texts(w@.subrange(0, i as int)).push(
                wire_text(w@[i as int]),
            ));
        }
        i = i + 1;
    }
    assert(w@.subrange(0, w.len() as int) =~= w@);
    r
}

/// Collapses schemes into the deduplicated wire strings used in
/// mismatch errors, preserving the matrix order.
pub fn schemes_to_wire_list(schemes: &Vec<AuthScheme>) -> (r: Vec<String>)
    ensures
        strings_view(r@) == wire_texts(wire_list(schemes_view(schemes@))),
{
    wire_strings(&schemes_to_wire_schemes(schemes))
}

/// Parses a wire string, compared case-insensitively.
pub open spec fn parse_wire(s: Seq<char>) -> Option<WireScheme> {
    let l = lower(s);
    if l == "oauth2"@ {
        Some(WireScheme::OAuth2)
    } else if l == "oauth1"@ {
        Some(WireScheme::OAuth1)
    } else if l == "app"@ {
        Some(WireScheme::App)
    } else {
        None
    }
}

/// Parses a wire string, compared case-insensitively.
pub fn parse_wire_scheme(s: &str) -> (r: Option<WireScheme>)
    ensures
        r == parse_wire(s@),
{
    let l = ascii_lowercase(s);
    if str_eq(l.as_str(), "oauth2") {
        Some(WireScheme::OAuth2)
    } else if str_eq(l.as_str(), "oauth1") {
        Some(WireScheme::OAuth1)
    } else if str_eq(l.as_str(), "app") {
        Some(WireScheme::App)
    } else {
        None
    }
}

/// The explicit request is accepted: its lower-cased form is one of the
/// wire strings of the supported schemes.
pub open spec fn requested_ok(requested: Seq<char>, schemes: Seq<SchemeSpec>) -> bool {
    parse_wire(requested) matches Some(w) && wire_list(schemes).contains(w)
}

/// The outcome rules of [`validate`].
pub open spec fn validate_ok(target: RequestTarget, method: Seq<char>, requested: Seq<char>) -> bool {
    match target {
        RequestTarget::RawUrl(_) => true,
        RequestTarget::Template { path, .. } => match supported(method, path@) {
            None => true,
            Some(s) => requested.len() == 0 || requested_ok(requested, s),
        },
    }
}

/// `r` is the explicit-mismatch error for a template target; `shown` is
/// the method as the error names it.
pub open spec fn explicit_mismatch(
    target: RequestTarget,
    method: Seq<char>,
    shown: Seq<char>,
    requested_auth: Seq<char>,
    app: Option<Seq<char>>,
    r: Result<(), Error>,
) -> bool {
    match target {
        RequestTarget::Template { path, path_params, .. } => {
            &&& r matches Err(
                Error::AuthMethodMismatch {
                    endpoint,
                    rendered_url,
                    method: m,
                    requested,
                    supported: sup,
                    available_in_app,
                    app: a,
                    other_apps_with_creds,
                },
            )
            &&& endpoint@ == path@
            &&& m@ == shown
            &&& requested matches Some(q)
            &&& q@ == lower(requested_auth)
            &&& strings_view(sup@) == wire_texts(wire_list(supported(method, path@)->Some_0))
            &&& available_in_app is None
            &&& other_apps_with_creds is None
            &&& match app {
                Some(x) => a matches Some(y) && y@ == x,
                None => a is None,
            }
            &&& match render(path@, pairs_view(path_params@)) {
                Rendered::Path(p) => rendered_url matches Some(u) && u@ == p,
                _ => rendered_url is None,
            }
        },
        RequestTarget::RawUrl(_) => false,
    }
}

/// Validates that `requested_auth` is accepted at `(method, path)`.
///
/// 1. Raw URLs bypass the matrix.
/// 2. Unknown endpoints are permissive.
/// 3. An empty `requested_auth` leaves the choice to auto-detect.
/// 4. An explicit scheme in the supported set is accepted.
/// 5. Otherwise the error names the endpoint, the requested scheme and the
///    supported alternatives.
pub fn validate(target: &RequestTarget, method: &str, requested_auth: &str, app: Option<&str>) -> (r:
    Result<(), Error>)
    ensures
        validate_ok(*target, method@, requested_auth@) ==> r is Ok,
        !validate_ok(*target, method@, requested_auth@) ==> explicit_mismatch(
            *target,
            method@,
            upper(method@),
            requested_auth@,
            match app {
                Some(x) => Some(x@),
                None => None,
            },
            r,
        ),
{
    match target {
        RequestTarget::RawUrl(_) => Ok(()),
        RequestTarget::Template { path, path_params, .. } => {
            let schemes = match supported_auth(method, path.as_str()) {
                None => return Ok(()),
                Some(s) => s,
            };
            if chars_of(requested_auth).len() == 0 {
                return Ok(());
            }
            let wires = schemes_to_wire_schemes(&schemes);
            if let Some(w) = parse_wire_scheme(requested_auth) {
                if wire_contains(&wires, w) {
                    return Ok(());
                }
            }
            let rendered_url = match render_template_path(path.as_str(), path_params) {
                Ok(u) => Some(u),
                Err(_) => None,
            };
            let app_name = match app {
                Some(x) => Some(owned(x)),
                None => None,
            };
            Err(
                Error::AuthMethodMismatch {
                    endpoint: path.clone(),
                    rendered_url,
                    method: ascii_uppercase(method),
                    requested: Some(ascii_lowercase(requested_auth)),
                    supported: wire_strings(&wires),
                    available_in_app: None,
                    app: app_name,
                    other_apps_with_creds: None,
                },
            )
        },
    }
}

} // verus!
