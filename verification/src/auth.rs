//! Configuration and the authentication state of a client: which app is
//! active, its client credentials (the environment's win over the
//! store's), the redirect URI, and the Authorization headers built from
//! stored credentials.

use vstd::prelude::*;

use crate::error::Error;
use crate::oauth1::{build_oauth1_header, extra_view, fresh_header};
use crate::oauth2::{stored_oauth2_token, stored_token};
use crate::request::DEFAULT_TIMEOUT_SECS;
use crate::store::{
    read_creds, resolved_app, OAuth1TokenV, StoreV, TokenStore, TokenV,
};
use crate::text::{decimal, owned, push_str};
use crate::weburl::url_parse;

verus! {

/// Redirect URI used when neither the environment nor the app sets one.
pub const DEFAULT_REDIRECT_URI: &'static str = "http://localhost:8080/callback";
/// Default OAuth2 authorization endpoint.
pub const DEFAULT_AUTH_URL: &'static str = "https://x.com/i/oauth2/authorize";
/// Default OAuth2 token endpoint.
pub const DEFAULT_TOKEN_URL: &'static str = "https://api.x.com/2/oauth2/token";
/// Default API base URL.
pub const DEFAULT_API_BASE_URL: &'static str = "https://api.x.com";

/// Where the redirect URI came from.
#[derive(Debug, Clone, Copy, PartialEq, Eq, Structural)]
pub enum RedirectSource {
    /// The `REDIRECT_URI` environment variable.
    Env,
    /// The active app's stored redirect URI.
    App,
    /// The built-in default.
    Default,
}

/// Application configuration.
#[derive(Debug, Clone)]
pub struct Config {
    pub client_id: String,
    pub client_secret: String,
    pub redirect_uri: String,
    pub redirect_uri_source: RedirectSource,
    pub auth_url: String,
    pub token_url: String,
    pub api_base_url: String,
    pub info_url: String,
    pub app_name: String,
    pub http_timeout_secs: u64,
}

/// The value of an optional setting, or its default.
pub open spec fn or_default(v: Option<&str>, d: Seq<char>) -> Seq<char> {
    match v {
        Some(x) => x@,
        None => d,
    }
}

/// An optional setting's value, or `d`.
fn setting(v: Option<&str>, d: &str) -> (r: String)
    ensures
        r@ == or_default(v, d@),
{
    match v {
        Some(x) => owned(x),
        None => owned(d),
    }
}

/// The configuration from the environment's settings (`None` for unset
/// variables): `CLIENT_ID`, `CLIENT_SECRET`, `REDIRECT_URI`, `AUTH_URL`,
/// `TOKEN_URL`, `API_BASE_URL`, `INFO_URL`. A set variable wins even when
/// empty; the info URL defaults to the base URL's `/2/users/me`.
pub fn new_config(
    client_id: Option<&str>,
    client_secret: Option<&str>,
    redirect_uri: Option<&str>,
    auth_url: Option<&str>,
    token_url: Option<&str>,
    api_base_url: Option<&str>,
    info_url: Option<&str>,
) -> (c: Config)
    ensures
        c.client_id@ == or_default(client_id, Seq::empty()),
        c.client_secret@ == or_default(client_secret, Seq::empty()),
        c.redirect_uri@ == or_default(redirect_uri, DEFAULT_REDIRECT_URI@),
        c.redirect_uri_source == (if redirect_uri is Some {
            RedirectSource::Env
        } else {
            RedirectSource::Default
        }),
        c.auth_url@ == or_default(auth_url, DEFAULT_AUTH_URL@),
        c.token_url@ == or_default(token_url, DEFAULT_TOKEN_URL@),
        c.api_base_url@ == or_default(api_base_url, DEFAULT_API_BASE_URL@),
        c.info_url@ == or_default(info_url, or_default(api_base_url, DEFAULT_API_BASE_URL@) + "/2/users/me"@),
        c.app_name@.len() == 0,
        c.http_timeout_secs == DEFAULT_TIMEOUT_SECS,
{
    proof {
        reveal_strlit("");
    }
    let base = setting(api_base_url, DEFAULT_API_BASE_URL);
    let info = match info_url {
        Some(x) => owned(x),
        None => {
            let mut u = base.clone();
            push_str(&mut u, "/2/users/me");
            u
        },
    };
    Config {
        client_id: setting(client_id, ""),
        client_secret: setting(client_secret, ""),
        redirect_uri: setting(redirect_uri, DEFAULT_REDIRECT_URI),
        redirect_uri_source: if redirect_uri.is_some() {
            RedirectSource::Env
        } else {
            RedirectSource::Default
        },
        auth_url: setting(auth_url, DEFAULT_AUTH_URL),
        token_url: setting(token_url, DEFAULT_TOKEN_URL),
        api_base_url: base,
        info_url: info,
        app_name: String::new(),
        http_timeout_secs: DEFAULT_TIMEOUT_SECS,
    }
}

/// The redirect URI in force: a non-empty `REDIRECT_URI` wins, then the
/// app's stored one, then the built-in default.
pub open spec fn redirect_choice(env: Option<Seq<char>>, app: Option<Seq<char>>) -> (Seq<char>, RedirectSource) {
    match env {
        Some(e) if e.len() > 0 => (e, RedirectSource::Env),
        _ => match app {
            Some(a) => (a, RedirectSource::App),
            None => (DEFAULT_REDIRECT_URI@, RedirectSource::Default),
        },
    }
}

/// The model of an optional string.
pub open spec fn opt_view(o: Option<String>) -> Option<Seq<char>> {
    match o {
        Some(s) => Some(s@),
        None => None,
    }
}

/// Resolves the redirect URI (see [`redirect_choice`]).
pub fn resolve_redirect_uri_from(env: Option<String>, app: Option<String>) -> (r: (String, RedirectSource))
    ensures
        (r.0@, r.1) == redirect_choice(opt_view(env), opt_view(app)),
{
    match env {
        Some(e) => {
            if !e.as_str().is_empty() {
                return (e, RedirectSource::Env);
            }
        },
        None => {},
    }
    match app {
        Some(a) => (a, RedirectSource::App),
        None => (owned(DEFAULT_REDIRECT_URI), RedirectSource::Default),
    }
}

/// A field-by-field copy of a configuration.
fn copy_config(c: &Config) -> (r: Config)
    ensures
        r.client_id@ == c.client_id@,
        r.client_secret@ == c.client_secret@,
        r.redirect_uri@ == c.redirect_uri@,
        r.redirect_uri_source == c.redirect_uri_source,
        r.auth_url@ == c.auth_url@,
        r.token_url@ == c.token_url@,
        r.api_base_url@ == c.api_base_url@,
        r.info_url@ == c.info_url@,
        r.app_name@ == c.app_name@,
        r.http_timeout_secs == c.http_timeout_secs,
{
    Config {
        client_id: c.client_id.clone(),
        client_secret: c.client_secret.clone(),
        redirect_uri: c.redirect_uri.clone(),
        redirect_uri_source: c.redirect_uri_source,
        auth_url: c.auth_url.clone(),
        token_url: c.token_url.clone(),
        api_base_url: c.api_base_url.clone(),
        info_url: c.info_url.clone(),
        app_name: c.app_name.clone(),
        http_timeout_secs: c.http_timeout_secs,
    }
}

/// Authentication state of a client.
pub struct Auth {
    /// The token store.
    pub token_store: TokenStore,
    /// The configuration, with the redirect URI resolved.
    pub config: Config,
    /// The client ID in force.
    pub client_id: String,
    /// The client secret in force.
    pub client_secret: String,
    /// The client ID came from the environment, and survives app switches.
    pub client_id_from_env: bool,
    /// The client secret came from the environment, and survives app switches.
    pub client_secret_from_env: bool,
    /// The active app's name; empty for the store's default.
    pub app_name: String,
}

/// The redirect URI stored for the app a read for `name` uses, if any.
pub open spec fn stored_redirect(s: StoreV, name: Seq<char>) -> Option<Seq<char>> {
    match resolved_app(s, name) {
        Some(a) => if a.redirect_uri.len() > 0 {
            Some(a.redirect_uri)
        } else {
            None
        },
        None => None,
    }
}

impl Auth {
    /// An `Auth` over `store` for the configuration `cfg`: client
    /// credentials come from `cfg` when set there (the environment), else
    /// from the active app; `env_redirect` is `REDIRECT_URI`.
    pub fn new(cfg: &Config, store: TokenStore, env_redirect: Option<String>) -> (a: Auth)
        ensures
            a.token_store@ == store@,
            a.client_id_from_env == (cfg.client_id@.len() > 0),
            a.client_secret_from_env == (cfg.client_secret@.len() > 0),
            a.client_id@ == (if cfg.client_id@.len() > 0 {
                cfg.client_id@
            } else {
                read_creds(store@, cfg.app_name@).0
            }),
            a.client_secret@ == (if cfg.client_secret@.len() > 0 {
                cfg.client_secret@
            } else {
                read_creds(store@, cfg.app_name@).1
            }),
            a.app_name@ == app_name_after(cfg.app_name@, Seq::empty()),
            (a.config.redirect_uri@, a.config.redirect_uri_source) == redirect_choice(
                opt_view(env_redirect),
                stored_redirect(store@, cfg.app_name@),
            ),
            a.config.auth_url@ == cfg.auth_url@,
            a.config.token_url@ == cfg.token_url@,
            a.config.api_base_url@ == cfg.api_base_url@,
            a.config.info_url@ == cfg.info_url@,
            a.config.http_timeout_secs == cfg.http_timeout_secs,
    {
        let ts = store;
        let id_env = !cfg.client_id.as_str().is_empty();
        let secret_env = !cfg.client_secret.as_str().is_empty();
        let (app_id, app_secret) = ts.resolved_credentials(cfg.app_name.as_str());
        let client_id = if id_env {
            cfg.client_id.clone()
        } else {
            app_id
        };
        let client_secret = if secret_env {
            cfg.client_secret.clone()
        } else {
            app_secret
        };
        let mut config = copy_config(cfg);
        let (uri, source) = resolve_redirect_uri_from(env_redirect, ts.get_app_redirect_uri(cfg.app_name.as_str()));
        config.redirect_uri = uri;
        config.redirect_uri_source = source;
        Auth {
            token_store: ts,
            config,
            client_id,
            client_secret,
            client_id_from_env: id_env,
            client_secret_from_env: secret_env,
            app_name: cfg.app_name.clone(),
        }
    }

    /// Switches the active app: credentials not from the environment are
    /// re-read from the new app, and the redirect URI is re-resolved.
    pub fn with_app_name(&mut self, app_name: &str, env_redirect: Option<String>)
        ensures
            final(self).app_name@ == step_app_name(old(self).app_name@, AuthStep::AppName(app_name@)),
            final(self).token_store@ == old(self).token_store@,
            final(self).client_id@ == (if old(self).client_id_from_env {
                old(self).client_id@
            } else {
                read_creds(old(self).token_store@, app_name@).0
            }),
            final(self).client_secret@ == (if old(self).client_secret_from_env {
                old(self).client_secret@
            } else {
                read_creds(old(self).token_store@, app_name@).1
            }),
            final(self).client_id_from_env == old(self).client_id_from_env,
            final(self).client_secret_from_env == old(self).client_secret_from_env,
            (final(self).config.redirect_uri@, final(self).config.redirect_uri_source) == redirect_choice(
                opt_view(env_redirect),
                stored_redirect(old(self).token_store@, app_name@),
            ),
    {
        self.app_name = owned(app_name);
        let (app_id, app_secret) = self.token_store.resolved_credentials(app_name);
        if !self.client_id_from_env {
            self.client_id = app_id;
        }
        if !self.client_secret_from_env {
            self.client_secret = app_secret;
        }
        let (uri, source) = resolve_redirect_uri_from(env_redirect, self.token_store.get_app_redirect_uri(app_name));
        self.config.redirect_uri = uri;
        self.config.redirect_uri_source = source;
    }

    /// Replaces the token store: credentials not from the environment are
    /// re-read from the new store's active app.
    pub fn with_token_store(self, token_store: TokenStore) -> (a: Auth)
        ensures
            a.token_store@ == token_store@,
            a.client_id@ == (if self.client_id_from_env {
                self.client_id@
            } else {
                read_creds(token_store@, self.app_name@).0
            }),
            a.client_secret@ == (if self.client_secret_from_env {
                self.client_secret@
            } else {
                read_creds(token_store@, self.app_name@).1
            }),
            a.app_name@ == step_app_name(self.app_name@, AuthStep::Store),
            a.client_id_from_env == self.client_id_from_env,
            a.client_secret_from_env == self.client_secret_from_env,
    {
        let mut me = self;
        let ts = token_store;
        let (app_id, app_secret) = ts.resolved_credentials(me.app_name.as_str());
        if !me.client_id_from_env {
            me.client_id = app_id;
        }
        if !me.client_secret_from_env {
            me.client_secret = app_secret;
        }
        me.token_store = ts;
        me
    }

    /// The token store.
    pub fn token_store(&self) -> (r: &TokenStore)
        ensures
            r@ == self.token_store@,
    {
        &self.token_store
    }

    /// The active app's name.
    pub fn app_name(&self) -> (r: &str)
        ensures
            r@ == self.app_name@,
    {
        self.app_name.as_str()
    }

    /// The client ID in force.
    pub fn client_id(&self) -> (r: &str)
        ensures
            r@ == self.client_id@,
    {
        self.client_id.as_str()
    }

    /// The client secret in force.
    pub fn client_secret(&self) -> (r: &str)
        ensures
            r@ == self.client_secret@,
    {
        self.client_secret.as_str()
    }

    /// The OAuth2 authorization endpoint.
    pub fn auth_url(&self) -> (r: &str)
        ensures
            r@ == self.config.auth_url@,
    {
        self.config.auth_url.as_str()
    }

    /// The OAuth2 token endpoint.
    pub fn token_url(&self) -> (r: &str)
        ensures
            r@ == self.config.token_url@,
    {
        self.config.token_url.as_str()
    }

    /// The redirect URI in force.
    pub fn redirect_uri(&self) -> (r: &str)
        ensures
            r@ == self.config.redirect_uri@,
    {
        self.config.redirect_uri.as_str()
    }

    /// Per-request timeout, in seconds, of the OAuth2 HTTP calls.
    pub fn http_timeout_secs(&self) -> (r: u64)
        ensures
            r == self.config.http_timeout_secs,
    {
        self.config.http_timeout_secs
    }

    /// The bearer Authorization header; `env_token` is `XURL_BEARER_TOKEN`.
    pub fn get_bearer_token_header(&self, env_token: Option<String>) -> (r: Result<String, Error>)
        ensures
            bearer_result(opt_view(env_token), self.token_store@, self.app_name@, r),
    {
        resolve_bearer_token(env_token, &self.token_store, self.app_name.as_str())
    }

    /// The OAuth1 Authorization header for a request, signed with the
    /// active app's OAuth1 credentials, a fresh nonce and the current time.
    pub fn get_oauth1_header(&self, method: &str, url_str: &str, additional_params: Option<&Vec<(String, String)>>) -> (r:
        Result<String, Error>)
        ensures
            match oauth1_of_app(self.token_store@, self.app_name@) {
                None => r matches Err(Error::Auth(m)) && m@ == "TokenNotFound: OAuth1 token not found"@,
                Some(tok) => match url_parse(url_str@) {
                    Ok(u) => r matches Ok(h) && fresh_header(h@, method@, u, tok, extra_view(additional_params)),
                    Err(e) => r matches Err(Error::Auth(m)) && m@ == "InvalidURL: "@ + e,
                },
            },
    {
        let token = match self.token_store.get_o_auth1_tokens_for_app(self.app_name.as_str()) {
            Some(t) => t,
            None => return Err(Error::Auth(owned("TokenNotFound: OAuth1 token not found"))),
        };
        let creds = match &token.o_auth1 {
            Some(c) => c,
            None => return Err(Error::Auth(owned("TokenNotFound: OAuth1 token not found"))),
        };
        proof {
            assert(oauth1_of_app(self.token_store@, self.app_name@) == Some(creds@));
        }
        let r = build_oauth1_header(method, url_str, creds, additional_params);
        r
    }

    /// A usable OAuth2 token is stored for `username` (see
    /// [`crate::oauth2::stored_token`]).
    pub fn has_oauth2_token(&self, username: &str) -> (r: bool)
        ensures
            r == (stored_token(self.token_store@, self.app_name@, username@) matches Some(t) && t.o_auth2 is Some),
    {
        stored_oauth2_token(&self.token_store, self.app_name.as_str(), username).is_some()
    }

    /// The stored access token for `username` when it has not expired at
    /// time `now`.
    pub fn unexpired_oauth2_access_token(&self, username: &str, now: u64) -> (r: Option<String>)
        ensures
            match stored_token(self.token_store@, self.app_name@, username@) {
                Some(TokenV { o_auth2: Some(o), .. }) => if now < o.expiration_time {
                    r matches Some(a) && a@ == o.access_token
                } else {
                    r is None
                },
                _ => r is None,
            },
    {
        match stored_oauth2_token(&self.token_store, self.app_name.as_str(), username) {
            Some(o) => {
                if now < o.expiration_time {
                    Some(o.access_token)
                } else {
                    None
                }
            },
            None => None,
        }
    }

    /// Whether an OAuth2 header for `username` can come from a stored token
    /// (refreshed if need be) rather than a new browser flow. An empty
    /// username uses the active app's default-user-or-first token, then its
    /// unnamed one; a named user their own token in the default app, then
    /// the active app's default-user-or-first token.
    pub fn oauth2_cached(&self, username: &str) -> (r: bool)
        ensures
            r == cached_oauth2(self.token_store@, self.app_name@, username@),
    {
        match oauth2_header_step(&self.token_store, self.app_name.as_str(), username) {
            OAuth2Step::Refresh => true,
            OAuth2Step::RunFlow => false,
        }
    }
}

/// Where an OAuth2 Authorization header comes from.
#[derive(Debug, Clone, Copy, PartialEq, Eq, Structural)]
pub enum OAuth2Step {
    /// A token is stored: use it, refreshed first when it has expired.
    Refresh,
    /// No token is stored: run the browser sign-in.
    RunFlow,
}

/// The OAuth2 header's source for `username` under the app `app_name`:
/// a stored token when the store holds one a read would find (see
/// [`cached_oauth2`]), else the browser flow.
pub fn oauth2_header_step(store: &TokenStore, app_name: &str, username: &str) -> (r: OAuth2Step)
    ensures
        (r == OAuth2Step::Refresh) == cached_oauth2(store@, app_name@, username@),
        (r == OAuth2Step::RunFlow) == !cached_oauth2(store@, app_name@, username@),
{
    let cached = if username.is_empty() {
        store.get_first_o_auth2_token_for_app(app_name).is_some()
            || store.get_o_auth2_token_unnamed_for_app(app_name).is_some()
    } else {
        store.get_o_auth2_token(username).is_some() || store.get_first_o_auth2_token_for_app(app_name).is_some()
    };
    if cached {
        OAuth2Step::Refresh
    } else {
        OAuth2Step::RunFlow
    }
}

/// An OAuth2 header can come from a stored token.
pub open spec fn cached_oauth2(s: StoreV, app: Seq<char>, username: Seq<char>) -> bool {
    if username.len() == 0 {
        match resolved_app(s, app) {
            Some(a) => crate::store::first_oauth2(a) is Some || a.o_auth2_unnamed is Some,
            None => false,
        }
    } else {
        crate::store::oauth2_of(s, Seq::empty(), username) is Some || match resolved_app(s, app) {
            Some(a) => crate::store::first_oauth2(a) is Some,
            None => false,
        }
    }
}

/// The OAuth1 credentials of the app a read for `app` uses.
pub open spec fn oauth1_of_app(s: StoreV, app: Seq<char>) -> Option<OAuth1TokenV> {
    match resolved_app(s, app) {
        Some(a) => match a.o_auth1_token {
            Some(t) => t.o_auth1,
            None => None,
        },
        None => None,
    }
}

/// `r` is the bearer header resolution: a non-empty environment token wins,
/// then the app's stored bearer.
pub open spec fn bearer_result(env: Option<Seq<char>>, s: StoreV, app: Seq<char>, r: Result<String, Error>) -> bool {
    match env {
        Some(e) if e.len() > 0 => r matches Ok(h) && h@ == "Bearer "@ + e,
        _ => match resolved_app(s, app) {
            Some(a) => match a.bearer_token {
                Some(TokenV { bearer: Some(b), .. }) => r matches Ok(h) && h@ == "Bearer "@ + b,
                _ => r matches Err(Error::Auth(m)) && m@ == "TokenNotFound: bearer token not found"@,
            },
            None => r matches Err(Error::Auth(m)) && m@ == "TokenNotFound: bearer token not found"@,
        },
    }
}

/// The bearer Authorization header: a non-empty `env_token` wins, then the
/// bearer stored for the app `app_name` resolves to.
pub fn resolve_bearer_token(env_token: Option<String>, store: &TokenStore, app_name: &str) -> (r: Result<String, Error>)
    ensures
        bearer_result(opt_view(env_token), store@, app_name@, r),
{
    match env_token {
        Some(t) => {
            if !t.as_str().is_empty() {
                let mut h = owned("Bearer ");
                push_str(&mut h, t.as_str());
                return Ok(h);
            }
        },
        None => {},
    }
    let token = match store.get_bearer_token_for_app(app_name) {
        Some(t) => t,
        None => return Err(Error::Auth(owned("TokenNotFound: bearer token not found"))),
    };
    match &token.bearer {
        Some(b) => {
            let mut h = owned("Bearer ");
            push_str(&mut h, b.as_str());
            Ok(h)
        },
        None => Err(Error::Auth(owned("TokenNotFound: bearer token not found"))),
    }
}

/// The OAuth2 Authorization header for an access token.
pub fn bearer_header(access_token: &str) -> (r: String)
    ensures
        r@ == "Bearer "@ + access_token@,
{
    let mut h = owned("Bearer ");
    push_str(&mut h, access_token);
    h
}

/// A call that sets up or changes an [`Auth`] after [`Auth::new`]:
/// [`Auth::with_app_name`] with a name, or [`Auth::with_token_store`].
pub enum AuthStep {
    AppName(Seq<char>),
    Store,
}

/// The active app's name after one step, as the step's `ensures` gives it.
pub open spec fn step_app_name(name: Seq<char>, step: AuthStep) -> Seq<char> {
    match step {
        AuthStep::AppName(n) => n,
        AuthStep::Store => name,
    }
}

/// The active app's name after the steps, applied in order.
pub open spec fn app_name_after(name: Seq<char>, steps: Seq<AuthStep>) -> Seq<char>
    decreases steps.len(),
{
    if steps.len() == 0 {
        name
    } else {
        step_app_name(app_name_after(name, steps.drop_last()), steps.last())
    }
}

/// The name the last `AppName` step sets, or `name` when there is none.
pub open spec fn last_set_name(name: Seq<char>, steps: Seq<AuthStep>) -> Seq<char>
    decreases steps.len(),
{
    if steps.len() == 0 {
        name
    } else {
        match steps.last() {
            AuthStep::AppName(n) => n,
            AuthStep::Store => last_set_name(name, steps.drop_last()),
        }
    }
}

/// Whatever chain of app switches ([`Auth::with_app_name`]) and store swaps
/// ([`Auth::with_token_store`]) follows [`Auth::new`] with the configured
/// name `name`, the active app is the one the last switch named, or `name`
/// when there was none: a store swap never changes it. The chain's result is
/// `app_name_after`, built from `step_app_name`, which is what each of those
/// functions ensures of its own step.
pub proof fn law_app_name_last_set(name: Seq<char>, steps: Seq<AuthStep>)
    ensures
        app_name_after(name, steps) == last_set_name(name, steps),
        app_name_after(name, steps) == app_name_after(name, Seq::empty()) || exists|i: int|
            0 <= i < steps.len() && steps[i] == AuthStep::AppName(app_name_after(name, steps)),
    decreases steps.len(),
{
    if steps.len() > 0 {
        let prev = steps.drop_last();
        law_app_name_last_set(name, prev);
        match steps.last() {
            AuthStep::AppName(n) => {
                assert(steps[steps.len() - 1] == AuthStep::AppName(n));
            },
            AuthStep::Store => {
                if app_name_after(name, prev) != app_name_after(name, Seq::empty()) {
                    let i = choose|i: int| 0 <= i < prev.len() && prev[i] == AuthStep::AppName(app_name_after(name, prev));
                    assert(steps[i] == prev[i]);
                }
            },
        }
    }
}

} // verus!
