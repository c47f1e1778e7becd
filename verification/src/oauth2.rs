//! OAuth2 PKCE: the scopes requested, the verifier and challenge, the
//! authorization URL, what a token endpoint's reply comes to, where a new
//! token is stored, and the checks of the remote (two-machine) flow.
//!
//! The HTTP exchanges themselves are the caller's; their replies come in
//! here as plain values.

use vstd::prelude::*;

use crate::crypto::{
    base64_standard, base64_standard_encode, base64_url_nopad, base64_url_nopad_encode, random_32_bytes, sha256,
    sha256_digest,
};
use crate::error::{texts, Error, NO_OAUTH2_TOKEN};
use crate::oauth1::{utf8_of, utf8_vec};
use crate::request::pairs_view;
use crate::store::{
    first_oauth2, modify_app, oauth2_of, oauth2_tok, promotes, resolved_app, set_oauth2_tokens, set_unnamed, upsert,
    AppV, OAuth2Token, OAuth2TokenV, StoreV, TokenStore, TokenV,
};
use crate::text::{debug_quoted, debug_str, owned, push_str, str_eq};
use crate::weburl::{append_query_pairs, parse_url, url_append_pairs, url_parse};

verus! {

// ── Scopes ───────────────────────────────────────────────────────────

/// The scopes xurl requests, read scopes first, then write scopes, then
/// `offline.access` and `space.read`.
pub open spec fn oauth2_scopes() -> Seq<Seq<char>> {
    seq![
        "tweet.read"@,
        "users.read"@,
        "bookmark.read"@,
        "follows.read"@,
        "list.read"@,
        "block.read"@,
        "mute.read"@,
        "like.read"@,
        "users.email"@,
        "dm.read"@,
        "tweet.write"@,
        "tweet.moderate.write"@,
        "follows.write"@,
        "bookmark.write"@,
        "block.write"@,
        "mute.write"@,
        "like.write"@,
        "list.write"@,
        "media.write"@,
        "dm.write"@,
        "offline.access"@,
        "space.read"@,
    ]
}

/// The OAuth2 scopes requested for xurl.
pub fn get_oauth2_scopes() -> (r: Vec<String>)
    ensures
        texts(r@) == oauth2_scopes(),
{
    let r = vec![
        owned("tweet.read"),
        owned("users.read"),
        owned("bookmark.read"),
        owned("follows.read"),
        owned("list.read"),
        owned("block.read"),
        owned("mute.read"),
        owned("like.read"),
        owned("users.email"),
        owned("dm.read"),
        owned("tweet.write"),
        owned("tweet.moderate.write"),
        owned("follows.write"),
        owned("bookmark.write"),
        owned("block.write"),
        owned("mute.write"),
        owned("like.write"),
        owned("list.write"),
        owned("media.write"),
        owned("dm.write"),
        owned("offline.access"),
        owned("space.read"),
    ];
    proof {
        assert(texts(r@) =~= oauth2_scopes());
    }
    r
}

/// The scopes as the `scope` parameter carries them: space-separated.
pub fn scope_string() -> (r: String)
    ensures
        r@ == crate::error::join_with(oauth2_scopes(), Seq::empty(), " "@),
{
    let s = get_oauth2_scopes();
    proof {
        reveal_strlit("");
        assert(""@ =~= Seq::<char>::empty());
    }
    crate::error::join_strings(&s, "", " ")
}

// ── PKCE and state ───────────────────────────────────────────────────

/// The S256 challenge of a verifier.
pub open spec fn pkce_challenge(verifier: Seq<char>) -> Seq<char> {
    base64_url_nopad(sha256(utf8_of(verifier)))
}

/// The S256 challenge of a verifier.
pub fn challenge_for(verifier: &str) -> (r: String)
    ensures
        r@ == pkce_challenge(verifier@),
{
    let digest = sha256_digest(&utf8_vec(verifier));
    base64_url_nopad_encode(&digest)
}

/// A fresh PKCE verifier (32 random bytes, URL-safe base64 without padding)
/// and its S256 challenge.
pub fn generate_code_verifier_and_challenge() -> (r: (String, String))
    ensures
        exists|b: Seq<u8>| b.len() == 32 && r.0@ == base64_url_nopad(b),
        r.1@ == pkce_challenge(r.0@),
{
    let b = random_32_bytes();
    let verifier = base64_url_nopad_encode(&b);
    let challenge = challenge_for(verifier.as_str());
    (verifier, challenge)
}

/// A fresh `state` value: 32 random bytes in standard base64.
pub fn generate_state() -> (r: String)
    ensures
        exists|b: Seq<u8>| b.len() == 32 && r@ == base64_standard(b),
{
    let b = random_32_bytes();
    base64_standard_encode(&b)
}

// ── Authorization URL ────────────────────────────────────────────────

/// The query pairs of the authorization URL, in order.
pub open spec fn auth_url_pairs(
    client_id: Seq<char>,
    redirect_uri: Seq<char>,
    state: Seq<char>,
    challenge: Seq<char>,
) -> Seq<(Seq<char>, Seq<char>)> {
    seq![
        ("response_type"@, "code"@),
        ("client_id"@, client_id),
        ("redirect_uri"@, redirect_uri),
        ("scope"@, crate::error::join_with(oauth2_scopes(), Seq::empty(), " "@)),
        ("state"@, state),
        ("code_challenge"@, challenge),
        ("code_challenge_method"@, "S256"@),
    ]
}

/// The OAuth2 scopes a scheme names (none for the other schemes).
pub open spec fn scheme_scopes(x: crate::auth_matrix::SchemeSpec) -> Seq<Seq<char>> {
    match x {
        crate::auth_matrix::SchemeSpec::OAuth2User(sc) => sc,
        _ => Seq::empty(),
    }
}

/// The endpoint `(m, p)` of the auth matrix accepts an OAuth2 user
/// context holding the scope `x` among those it needs.
pub open spec fn demands_scope(m: Seq<char>, p: Seq<char>, x: Seq<char>) -> bool {
    crate::auth_matrix::matrix(m, p) matches Some(s) && exists|k: int|
        0 <= k < s.len() && #[trigger] scheme_scopes(s[k]).contains(x)
}

/// Every scope a user-context endpoint of the auth matrix demands is among
/// `scopes`.
pub open spec fn covers_matrix_scopes(scopes: Seq<Seq<char>>) -> bool {
    forall|m: Seq<char>, p: Seq<char>, x: Seq<char>| #[trigger] demands_scope(m, p, x) ==> scopes.contains(x)
}

/// The authorization URL asks for exactly the scopes `get_oauth2_scopes`
/// lists, space-separated in one `scope` parameter. Among them are
/// `offline.access` (so a refresh token is issued) and every scope any
/// endpoint of the auth matrix needs, so a signed-in token can call every
/// user-context endpoint.
pub proof fn law_auth_url_requests_all_scopes(
    client_id: Seq<char>,
    redirect_uri: Seq<char>,
    state: Seq<char>,
    challenge: Seq<char>,
)
    ensures
        ({
            let ps = auth_url_pairs(client_id, redirect_uri, state, challenge);
            &&& exists|j: int| 0 <= j < ps.len() && ps[j] == ("scope"@, crate::error::join_with(oauth2_scopes(), Seq::empty(), " "@))
            &&& oauth2_scopes().contains("offline.access"@)
            &&& oauth2_scopes().contains("tweet.read"@)
            &&& oauth2_scopes().contains("tweet.write"@)
            &&& oauth2_scopes().contains("users.read"@)
        }),
        covers_matrix_scopes(oauth2_scopes()),
{
    let ps = auth_url_pairs(client_id, redirect_uri, state, challenge);
    assert(ps[3] == ("scope"@, crate::error::join_with(oauth2_scopes(), Seq::empty(), " "@)));
    lemma_scopes_listed();
    assert forall|m: Seq<char>, p: Seq<char>, x: Seq<char>| #[trigger] demands_scope(m, p, x) implies oauth2_scopes().contains(x) by {
        let s = crate::auth_matrix::matrix(m, p)->Some_0;
        let k = choose|k: int| 0 <= k < s.len() && #[trigger] scheme_scopes(s[k]).contains(x);
        let sc = scheme_scopes(s[k]);
        let i = choose|i: int| 0 <= i < sc.len() && sc[i] == x;
        assert(sc[i] == x);
    }
}

/// Each scope of the list is found in it.
proof fn lemma_scopes_listed()
    ensures
        forall|i: int| 0 <= i < oauth2_scopes().len() ==> #[trigger] oauth2_scopes().contains(oauth2_scopes()[i]),
        oauth2_scopes().contains("tweet.read"@),
        oauth2_scopes().contains("users.read"@),
        oauth2_scopes().contains("bookmark.read"@),
        oauth2_scopes().contains("follows.read"@),
        oauth2_scopes().contains("block.read"@),
        oauth2_scopes().contains("mute.read"@),
        oauth2_scopes().contains("like.read"@),
        oauth2_scopes().contains("dm.read"@),
        oauth2_scopes().contains("tweet.write"@),
        oauth2_scopes().contains("follows.write"@),
        oauth2_scopes().contains("bookmark.write"@),
        oauth2_scopes().contains("mute.write"@),
        oauth2_scopes().contains("like.write"@),
        oauth2_scopes().contains("media.write"@),
        oauth2_scopes().contains("dm.write"@),
        oauth2_scopes().contains("offline.access"@),
{
    let o = oauth2_scopes();
    assert(o[0] == "tweet.read"@);
    assert(o[1] == "users.read"@);
    assert(o[2] == "bookmark.read"@);
    assert(o[3] == "follows.read"@);
    assert(o[5] == "block.read"@);
    assert(o[6] == "mute.read"@);
    assert(o[7] == "like.read"@);
    assert(o[9] == "dm.read"@);
    assert(o[10] == "tweet.write"@);
    assert(o[12] == "follows.write"@);
    assert(o[13] == "bookmark.write"@);
    assert(o[15] == "mute.write"@);
    assert(o[16] == "like.write"@);
    assert(o[18] == "media.write"@);
    assert(o[19] == "dm.write"@);
    assert(o[20] == "offline.access"@);
}

/// Builds the authorization URL: `auth_url` with the PKCE request's
/// parameters appended to its query.
pub fn build_auth_url(auth_url: &str, client_id: &str, redirect_uri: &str, state: &str, challenge: &str) -> (r: Result<
    String,
    Error,
>)
    ensures
        match url_append_pairs(auth_url@, auth_url_pairs(client_id@, redirect_uri@, state@, challenge@)) {
            Ok(u) => r matches Ok(x) && x@ == u,
            Err(e) => r matches Err(Error::Auth(m)) && m@ == "InvalidURL: "@ + e,
        },
{
    let pairs = vec![
        (owned("response_type"), owned("code")),
        (owned("client_id"), owned(client_id)),
        (owned("redirect_uri"), owned(redirect_uri)),
        (owned("scope"), scope_string()),
        (owned("state"), owned(state)),
        (owned("code_challenge"), owned(challenge)),
        (owned("code_challenge_method"), owned("S256")),
    ];
    proof {
        assert(pairs_view(pairs@) =~= auth_url_pairs(client_id@, redirect_uri@, state@, challenge@));
    }
    match append_query_pairs(auth_url, &pairs) {
        Ok(u) => Ok(u),
        Err(e) => {
            let mut m = owned("InvalidURL: ");
            push_str(&mut m, e.as_str());
            Err(Error::Auth(m))
        },
    }
}

// ── Token endpoint replies ───────────────────────────────────────────

/// What a token endpoint answered, as plain values.
#[derive(Debug, Clone)]
pub struct TokenReply {
    /// The status was a success.
    pub success: bool,
    /// The status as displayed (code and reason).
    pub status_text: String,
    /// `error`, when a string.
    pub error: Option<String>,
    /// `error_description`, when a string.
    pub error_description: Option<String>,
    /// `access_token`, when a string.
    pub access_token: Option<String>,
    /// `refresh_token`, when a string.
    pub refresh_token: Option<String>,
    /// `expires_in`, when an unsigned integer.
    pub expires_in: Option<u64>,
}

/// A token issued by the endpoint, with its absolute expiry.
#[derive(Debug, Clone)]
pub struct IssuedToken {
    pub access_token: String,
    pub refresh_token: String,
    pub expiration_time: u64,
}

/// Lifetime assumed when the reply does not give one.
pub const DEFAULT_EXPIRES_IN: u64 = 7200;

/// The lifetime a reply gives.
pub open spec fn lifetime(r: TokenReply) -> u64 {
    match r.expires_in {
        Some(e) => e,
        None => DEFAULT_EXPIRES_IN,
    }
}

/// `r` is the token a reply issues at time `now`.
pub open spec fn issued(reply: TokenReply, now: u64, r: IssuedToken) -> bool {
    &&& reply.access_token matches Some(a) && r.access_token@ == a@
    &&& r.refresh_token@ == match reply.refresh_token {
        Some(t) => t@,
        None => Seq::empty(),
    }
    &&& r.expiration_time == now + lifetime(reply)
}

/// The token a reply issues, or the error `kind: no access_token in response`.
fn issue(reply: &TokenReply, now: u64, kind: &str) -> (r: Result<IssuedToken, Error>)
    requires
        now + lifetime(*reply) <= u64::MAX,
    ensures
        reply.access_token is Some ==> (r matches Ok(t) && issued(*reply, now, t)),
        reply.access_token is None ==> (r matches Err(Error::Auth(m)) && m@ == kind@ + ": no access_token in response"@),
{
    let access = match &reply.access_token {
        Some(a) => a.clone(),
        None => {
            let mut m = owned(kind);
            push_str(&mut m, ": no access_token in response");
            return Err(Error::Auth(m));
        },
    };
    let refresh = match &reply.refresh_token {
        Some(t) => t.clone(),
        None => String::new(),
    };
    let expires_in = match reply.expires_in {
        Some(e) => e,
        None => DEFAULT_EXPIRES_IN,
    };
    Ok(IssuedToken { access_token: access, refresh_token: refresh, expiration_time: now + expires_in })
}

/// What an authorization-code exchange's reply comes to at time `now`: a
/// failed status is reported with the endpoint's `error` (or `unknown`) and
/// description; otherwise the issued token.
pub fn exchange_outcome(reply: &TokenReply, now: u64) -> (r: Result<IssuedToken, Error>)
    requires
        now + lifetime(*reply) <= u64::MAX,
    ensures
        !reply.success ==> (r matches Err(Error::Auth(m)) && m@ == "TokenExchangeError: HTTP "@ + reply.status_text@
            + " — "@ + match reply.error {
            Some(e) => e@,
            None => "unknown"@,
        } + ": "@ + match reply.error_description {
            Some(d) => d@,
            None => Seq::empty(),
        }),
        reply.success && reply.access_token is Some ==> (r matches Ok(t) && issued(*reply, now, t)),
        reply.success && reply.access_token is None ==> (r matches Err(Error::Auth(m)) && m@
            == "TokenExchangeError"@ + ": no access_token in response"@),
{
    if !reply.success {
        let mut m = owned("TokenExchangeError: HTTP ");
        push_str(&mut m, reply.status_text.as_str());
        push_str(&mut m, " — ");
        match &reply.error {
            Some(e) => push_str(&mut m, e.as_str()),
            None => push_str(&mut m, "unknown"),
        }
        push_str(&mut m, ": ");
        match &reply.error_description {
            Some(d) => push_str(&mut m, d.as_str()),
            None => {},
        }
        proof {
            reveal_strlit("");
        }
        return Err(Error::Auth(m));
    }
    issue(reply, now, "TokenExchangeError")
}

/// What a refresh's reply comes to at time `now` (the status is not
/// consulted; a reply without an access token fails).
pub fn refresh_outcome(reply: &TokenReply, now: u64) -> (r: Result<IssuedToken, Error>)
    requires
        now + lifetime(*reply) <= u64::MAX,
    ensures
        reply.access_token is Some ==> (r matches Ok(t) && issued(*reply, now, t)),
        reply.access_token is None ==> (r matches Err(Error::Auth(m)) && m@
            == "RefreshTokenError"@ + ": no access_token in response"@),
{
    issue(reply, now, "RefreshTokenError")
}

// ── Storing a new token ──────────────────────────────────────────────

/// The store after saving `t` for `app`: under `username` when given, else
/// under the name the identity lookup found, else in the unnamed slot.
pub open spec fn saved_store(s: StoreV, app: Seq<char>, username: Seq<char>, discovered: Option<Seq<char>>, t: TokenV) -> StoreV {
    if username.len() > 0 {
        modify_app(s, app, |a: AppV| set_oauth2_tokens(a, upsert(a.o_auth2_tokens, username, t)))
    } else {
        match discovered {
            Some(d) => modify_app(s, app, |a: AppV| set_oauth2_tokens(a, upsert(a.o_auth2_tokens, d, t))),
            None => modify_app(s, app, |a: AppV| set_unnamed(a, Some(t))),
        }
    }
}

/// Saves a newly issued token for `app_name`: under `username` when it is
/// non-empty, else under `discovered` (the name the identity lookup
/// returned), else in the app's unnamed slot.
pub fn save_issued_token(
    store: &mut TokenStore,
    app_name: &str,
    username: &str,
    discovered: Option<&str>,
    token: &IssuedToken,
)
    ensures
        final(store)@ == saved_store(
            old(store)@,
            app_name@,
            username@,
            match discovered {
                Some(d) => Some(d@),
                None => None,
            },
            oauth2_tok(token.access_token@, token.refresh_token@, token.expiration_time),
        ),
{
    if !username.is_empty() {
        store.save_o_auth2_token_for_app(
            app_name,
            username,
            token.access_token.as_str(),
            token.refresh_token.as_str(),
            token.expiration_time,
        );
    } else {
        match discovered {
            Some(d) => store.save_o_auth2_token_for_app(
                app_name,
                d,
                token.access_token.as_str(),
                token.refresh_token.as_str(),
                token.expiration_time,
            ),
            None => store.save_o_auth2_token_unnamed_for_app(
                app_name,
                token.access_token.as_str(),
                token.refresh_token.as_str(),
                token.expiration_time,
            ),
        }
    }
}

/// Completes an authorization-code exchange in the store: saves the token
/// as [`save_issued_token`] does, then makes `app_name` the default when it
/// is the first app signed in to. Returns the access token.
pub fn finish_exchange(
    store: &mut TokenStore,
    app_name: &str,
    username: &str,
    discovered: Option<&str>,
    token: &IssuedToken,
) -> (r: String)
    ensures
        r@ == token.access_token@,
        ({
            let t = saved_store(
                old(store)@,
                app_name@,
                username@,
                match discovered {
                    Some(d) => Some(d@),
                    None => None,
                },
                oauth2_tok(token.access_token@, token.refresh_token@, token.expiration_time),
            );
            final(store)@ == if promotes(t, app_name@) {
                StoreV { default_app: app_name@, ..t }
            } else {
                t
            }
        }),
{
    save_issued_token(store, app_name, username, discovered, token);
    store.promote_to_default_if_first_credentialed(app_name);
    token.access_token.clone()
}

// ── Reading the stored token ─────────────────────────────────────────

/// The OAuth2 token a request for `username` in `app` uses: for an empty
/// username the default user's or first token, else the unnamed one; for
/// a named user that user's own.
pub open spec fn stored_token(s: StoreV, app: Seq<char>, username: Seq<char>) -> Option<TokenV> {
    if username.len() == 0 {
        match resolved_app(s, app) {
            Some(a) => if first_oauth2(a) is Some {
                first_oauth2(a)
            } else {
                a.o_auth2_unnamed
            },
            None => None,
        }
    } else {
        oauth2_of(s, app, username)
    }
}

/// The OAuth2 credentials a request for `username` in `app_name` uses.
pub fn stored_oauth2_token(store: &TokenStore, app_name: &str, username: &str) -> (r: Option<OAuth2Token>)
    ensures
        match stored_token(store@, app_name@, username@) {
            Some(t) => match t.o_auth2 {
                Some(o) => r matches Some(x) && x@ == o,
                None => r is None,
            },
            None => r is None,
        },
{
    let token = if username.is_empty() {
        match store.get_first_o_auth2_token_for_app(app_name) {
            Some(t) => Some(t),
            None => store.get_o_auth2_token_unnamed_for_app(app_name),
        }
    } else {
        store.get_o_auth2_token_for_app(app_name, username)
    };
    match token {
        Some(t) => match t.o_auth2 {
            Some(o) => Some(o),
            None => None,
        },
        None => None,
    }
}

/// The stored expiry has passed at time `now`.
pub fn is_expired(token: &OAuth2Token, now: u64) -> (r: bool)
    ensures
        r == (now >= token.expiration_time),
{
    now >= token.expiration_time
}

/// What a refresh needs to do.
#[derive(Debug, Clone)]
pub enum RefreshStep {
    /// The stored access token is still valid.
    Valid(String),
    /// The token expired; refresh with this refresh token.
    Refresh(String),
}

/// The first step of a refresh at time `now`: fail without a stored token,
/// keep a valid one, or refresh an expired one.
pub fn refresh_step(store: &TokenStore, app_name: &str, username: &str, now: u64) -> (r: Result<RefreshStep, Error>)
    ensures
        match stored_token(store@, app_name@, username@) {
            Some(TokenV { o_auth2: Some(o), .. }) => if now >= o.expiration_time {
                r matches Ok(RefreshStep::Refresh(t)) && t@ == o.refresh_token
            } else {
                r matches Ok(RefreshStep::Valid(a)) && a@ == o.access_token
            },
            _ => r matches Err(Error::Auth(m)) && m@ == NO_OAUTH2_TOKEN@,
        },
{
    match stored_oauth2_token(store, app_name, username) {
        None => Err(Error::Auth(owned(NO_OAUTH2_TOKEN))),
        Some(o) => {
            if is_expired(&o, now) {
                Ok(RefreshStep::Refresh(o.refresh_token))
            } else {
                Ok(RefreshStep::Valid(o.access_token))
            }
        },
    }
}

// ── The browser flow ─────────────────────────────────────────────────

/// The flow's result once the listener returned: a failed browser open
/// wins over whatever the listener reported.
pub fn flow_code(opener_failed: bool, code_result: Result<String, Error>) -> (r: Result<String, Error>)
    ensures
        opener_failed ==> (r matches Err(Error::Auth(m)) && m@
            == "browser-open failed; re-run with --no-browser to paste the URL manually"@),
        !opener_failed ==> r == code_result,
{
    if opener_failed {
        return Err(Error::Auth(owned("browser-open failed; re-run with --no-browser to paste the URL manually")));
    }
    code_result
}

// ── The remote flow ──────────────────────────────────────────────────

/// The value of the last query pair named `k`.
pub open spec fn pair_value(ps: Seq<(Seq<char>, Seq<char>)>, k: Seq<char>) -> Option<Seq<char>>
    decreases ps.len(),
{
    if ps.len() == 0 {
        None
    } else if ps.last().0 == k {
        Some(ps.last().1)
    } else {
        pair_value(ps.drop_last(), k)
    }
}

/// The value of the last pair named `k`.
pub fn last_pair_value(ps: &Vec<(String, String)>, k: &str) -> (r: Option<String>)
    ensures
        match r {
            Some(v) => pair_value(pairs_view(ps@), k@) == Some(v@),
            None => pair_value(pairs_view(ps@), k@) is None,
        },
{
    let mut i = ps.len();
    proof {
        assert(pairs_view(ps@).subrange(0, i as int) =~= pairs_view(ps@));
    }
    while i > 0
        invariant
            i <= ps.len(),
            pair_value(pairs_view(ps@), k@) == pair_value(pairs_view(ps@).subrange(0, i as int), k@),
        decreases i,
    {
        proof {
            let t = pairs_view(ps@).subrange(0, i as int);
            assert(t.drop_last() =~= pairs_view(ps@).subrange(0, i - 1));
        }
        if str_eq(ps[i - 1].0.as_str(), k) {
            return Some(ps[i - 1].1.clone());
        }
        i = i - 1;
    }
    None
}

/// The message when a pending flow belongs to another client.
pub open spec fn app_mismatch_text(app: Seq<char>, pending_client: Seq<char>, client: Seq<char>) -> Seq<char> {
    "AppMismatch: pending state was created for app "@ + debug_str(app) + " (client_id: "@ + pending_client
        + "), but current context uses client_id: "@ + client + ". Re-run step 1 with the correct --app"@
}

/// The message when the redirect URL carries no `state`.
pub open spec fn missing_state_text() -> Seq<char> {
    "MissingState: no 'state' parameter found in redirect URL"@
}

/// The message when the redirect URL's `state` is not the pending one.
pub open spec fn state_mismatch_text() -> Seq<char> {
    "StateMismatch: the state parameter in the redirect URL does not match the pending auth flow. This may indicate a CSRF attack or that step 1 was re-run. Please start over with step 1"@
}

/// The message when the redirect URL carries no `code`.
pub open spec fn missing_code_text() -> Seq<char> {
    "MissingCode: no 'code' parameter found in redirect URL. Make sure you copied the full URL from your browser's address bar"@
}

/// The checks of the remote flow's second step, in order: the pending
/// flow's client, the redirect URL, its `state`, then its `code`, which is
/// returned.
pub fn remote_step2_code(
    pending_client_id: &str,
    pending_app_name: &str,
    pending_state: &str,
    client_id: &str,
    redirect_url: &str,
) -> (r: Result<String, Error>)
    ensures
        pending_client_id@ != client_id@ ==> (r matches Err(Error::Auth(m)) && m@ == app_mismatch_text(
            pending_app_name@,
            pending_client_id@,
            client_id@,
        )),
        pending_client_id@ == client_id@ ==> match url_parse(redirect_url@) {
            Err(e) => r matches Err(Error::Auth(m)) && m@
                == "InvalidRedirectURL: failed to parse redirect URL: "@ + e,
            Ok(u) => match pair_value(u.pairs, "state"@) {
                None => r matches Err(Error::Auth(m)) && m@ == missing_state_text(),
                Some(s) => if s != pending_state@ {
                    r matches Err(Error::Auth(m)) && m@ == state_mismatch_text()
                } else {
                    match pair_value(u.pairs, "code"@) {
                        None => r matches Err(Error::Auth(m)) && m@ == missing_code_text(),
                        Some(c) => r matches Ok(x) && x@ == c,
                    }
                },
            },
        },
{
    if !str_eq(pending_client_id, client_id) {
        let mut m = owned("AppMismatch: pending state was created for app ");
        push_str(&mut m, debug_quoted(pending_app_name).as_str());
        push_str(&mut m, " (client_id: ");
        push_str(&mut m, pending_client_id);
        push_str(&mut m, "), but current context uses client_id: ");
        push_str(&mut m, client_id);
        push_str(&mut m, ". Re-run step 1 with the correct --app");
        return Err(Error::Auth(m));
    }
    let parsed = match parse_url(redirect_url) {
        Ok(u) => u,
        Err(e) => {
            let mut m = owned("InvalidRedirectURL: failed to parse redirect URL: ");
            push_str(&mut m, e.as_str());
            return Err(Error::Auth(m));
        },
    };
    let state = match last_pair_value(&parsed.pairs, "state") {
        Some(s) => s,
        None => return Err(Error::Auth(owned("MissingState: no 'state' parameter found in redirect URL"))),
    };
    if !str_eq(state.as_str(), pending_state) {
        return Err(
            Error::Auth(
                owned(
                    "StateMismatch: the state parameter in the redirect URL does not match the pending auth flow. This may indicate a CSRF attack or that step 1 was re-run. Please start over with step 1",
                ),
            ),
        );
    }
    match last_pair_value(&parsed.pairs, "code") {
        Some(c) => Ok(c),
        None => Err(
            Error::Auth(
                owned(
                    "MissingCode: no 'code' parameter found in redirect URL. Make sure you copied the full URL from your browser's address bar",
                ),
            ),
        ),
    }
}

} // verus!
