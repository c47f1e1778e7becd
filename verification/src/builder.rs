//! Building a client from credentials held in code: which credentials are
//! set, where requests go, and the bound on each request.

use vstd::prelude::*;

use crate::auth::{DEFAULT_API_BASE_URL, DEFAULT_TOKEN_URL};
use crate::auth_matrix::WireScheme;
use crate::error::Error;
use crate::request::DEFAULT_TIMEOUT_SECS;
use crate::store::OAuth1Token;
use crate::text::owned;
use std::sync::Arc;

verus! {

/// Receives every OAuth2 pair a client rotates, so that an embedder can
/// persist it. The library's users implement it; the library only holds it.
pub trait OnTokenRefreshed {
    /// Called with the new access token, refresh token and expiry (Unix
    /// seconds) after a refresh.
    fn on_token_refreshed(&self, access_token: &str, refresh_token: &str, expires_at: u64);
}

/// An OAuth2 user token pair held in code, with its expiry (Unix seconds).
#[derive(Debug, Clone)]
pub struct OAuth2Credential {
    pub access_token: String,
    pub refresh_token: String,
    pub expires_at: u64,
}

/// Credentials for a client, as an embedder sets them.
#[derive(Clone)]
pub struct ClientBuilder {
    pub bearer: Option<String>,
    pub oauth2: Option<OAuth2Credential>,
    pub oauth1: Option<OAuth1Token>,
    /// Receives rotated OAuth2 pairs.
    pub hook: Option<Arc<dyn OnTokenRefreshed>>,
    pub base_url: String,
    pub token_url: String,
    /// Bound on each non-streaming request, in seconds.
    pub timeout_secs: u64,
}

/// The credentials a built client uses.
#[derive(Clone)]
pub struct DirectCredentials {
    pub bearer: Option<String>,
    pub oauth2: Option<OAuth2Credential>,
    pub oauth1: Option<OAuth1Token>,
    /// Receives rotated OAuth2 pairs.
    pub hook: Option<Arc<dyn OnTokenRefreshed>>,
    pub token_url: String,
    pub timeout_secs: u64,
}

/// What `build` hands over: the credentials and where requests go.
#[derive(Clone)]
pub struct ClientParts {
    pub base_url: String,
    pub credentials: DirectCredentials,
    pub timeout_secs: u64,
}

/// The message when no credential was set.
pub open spec fn no_credential_text() -> Seq<char> {
    "no credential given: set a bearer token, an OAuth2 credential, or OAuth1 credentials before build()"@
}

impl ClientBuilder {
    /// A builder with no credentials, the default base and token URLs and
    /// the default timeout.
    pub fn new() -> (b: ClientBuilder)
        ensures
            b.bearer is None,
            b.oauth2 is None,
            b.oauth1 is None,
            b.base_url@ == DEFAULT_API_BASE_URL@,
            b.token_url@ == DEFAULT_TOKEN_URL@,
            b.timeout_secs == DEFAULT_TIMEOUT_SECS,
    {
        ClientBuilder {
            bearer: None,
            oauth2: None,
            oauth1: None,
            hook: None,
            base_url: owned(DEFAULT_API_BASE_URL),
            token_url: owned(DEFAULT_TOKEN_URL),
            timeout_secs: DEFAULT_TIMEOUT_SECS,
        }
    }

    /// Sets an app-only bearer token.
    pub fn bearer(self, token: &str) -> (b: ClientBuilder)
        ensures
            b.hook == self.hook,
            b.bearer matches Some(t) && t@ == token@,
            b.oauth2 == self.oauth2,
            b.oauth1 == self.oauth1,
            b.base_url == self.base_url,
            b.token_url == self.token_url,
            b.timeout_secs == self.timeout_secs,
    {
        ClientBuilder { bearer: Some(owned(token)), ..self }
    }

    /// Sets an OAuth2 user token pair.
    pub fn oauth2(self, credential: OAuth2Credential) -> (b: ClientBuilder)
        ensures
            b.hook == self.hook,
            b.oauth2 == Some(credential),
            b.bearer == self.bearer,
            b.oauth1 == self.oauth1,
            b.base_url == self.base_url,
            b.token_url == self.token_url,
            b.timeout_secs == self.timeout_secs,
    {
        ClientBuilder { oauth2: Some(credential), ..self }
    }

    /// Sets OAuth1 user credentials.
    pub fn oauth1(self, credential: OAuth1Token) -> (b: ClientBuilder)
        ensures
            b.hook == self.hook,
            b.oauth1 == Some(credential),
            b.bearer == self.bearer,
            b.oauth2 == self.oauth2,
            b.base_url == self.base_url,
            b.token_url == self.token_url,
            b.timeout_secs == self.timeout_secs,
    {
        ClientBuilder { oauth1: Some(credential), ..self }
    }

    /// Sets the hook that receives every rotated OAuth2 pair (`None`
    /// clears it). The hook comes already shared, as the builder holds it.
    pub fn on_token_refreshed(self, hook: Option<Arc<dyn OnTokenRefreshed>>) -> (b: ClientBuilder)
        ensures
            b.hook == hook,
            b.bearer == self.bearer,
            b.oauth2 == self.oauth2,
            b.oauth1 == self.oauth1,
            b.base_url == self.base_url,
            b.token_url == self.token_url,
            b.timeout_secs == self.timeout_secs,
    {
        ClientBuilder { hook, ..self }
    }

    /// Sets the API origin every path is built on.
    pub fn base_url(self, url: &str) -> (b: ClientBuilder)
        ensures
            b.hook == self.hook,
            b.base_url@ == url@,
            b.bearer == self.bearer,
            b.oauth2 == self.oauth2,
            b.oauth1 == self.oauth1,
            b.token_url == self.token_url,
            b.timeout_secs == self.timeout_secs,
    {
        ClientBuilder { base_url: owned(url), ..self }
    }

    /// Sets the OAuth2 token endpoint a refresh posts to.
    pub fn token_url(self, url: &str) -> (b: ClientBuilder)
        ensures
            b.hook == self.hook,
            b.token_url@ == url@,
            b.bearer == self.bearer,
            b.oauth2 == self.oauth2,
            b.oauth1 == self.oauth1,
            b.base_url == self.base_url,
            b.timeout_secs == self.timeout_secs,
    {
        ClientBuilder { token_url: owned(url), ..self }
    }

    /// Sets the bound on each non-streaming request, in seconds.
    pub fn timeout(self, secs: u64) -> (b: ClientBuilder)
        ensures
            b.hook == self.hook,
            b.timeout_secs == secs,
            b.bearer == self.bearer,
            b.oauth2 == self.oauth2,
            b.oauth1 == self.oauth1,
            b.base_url == self.base_url,
            b.token_url == self.token_url,
    {
        ClientBuilder { timeout_secs: secs, ..self }
    }

    /// The client's parts; fails when no credential was set.
    pub fn build(self) -> (r: Result<ClientParts, Error>)
        ensures
            (self.bearer is None && self.oauth2 is None && self.oauth1 is None) ==> (r matches Err(Error::Validation(m))
                && m@ == no_credential_text()),
            !(self.bearer is None && self.oauth2 is None && self.oauth1 is None) ==> (r matches Ok(p) && p.base_url
                == self.base_url && p.timeout_secs == self.timeout_secs && p.credentials.bearer == self.bearer
                && p.credentials.oauth2 == self.oauth2 && p.credentials.oauth1 == self.oauth1
                && p.credentials.hook == self.hook && p.credentials.token_url == self.token_url && p.credentials.timeout_secs == self.timeout_secs),
    {
        let credentials = DirectCredentials {
            bearer: self.bearer,
            oauth1: self.oauth1,
            oauth2: self.oauth2,
            hook: self.hook,
            token_url: self.token_url,
            timeout_secs: self.timeout_secs,
        };
        if credentials.is_empty() {
            return Err(
                Error::Validation(
                    owned(
                        "no credential given: set a bearer token, an OAuth2 credential, or OAuth1 credentials before build()",
                    ),
                ),
            );
        }
        Ok(ClientParts { base_url: self.base_url, credentials, timeout_secs: self.timeout_secs })
    }
}

/// The schemes credentials offer, in OAuth2, OAuth1, Bearer order.
pub open spec fn offered(d: DirectCredentials) -> Seq<WireScheme> {
    (if d.oauth2 is Some {
        seq![WireScheme::OAuth2]
    } else {
        Seq::empty()
    }) + (if d.oauth1 is Some {
        seq![WireScheme::OAuth1]
    } else {
        Seq::empty()
    }) + (if d.bearer is Some {
        seq![WireScheme::App]
    } else {
        Seq::empty()
    })
}

impl DirectCredentials {
    /// No credential is set.
    pub fn is_empty(&self) -> (r: bool)
        ensures
            r == (self.bearer is None && self.oauth2 is None && self.oauth1 is None),
    {
        self.bearer.is_none() && self.oauth2.is_none() && self.oauth1.is_none()
    }

    /// The schemes these credentials offer, in OAuth2, OAuth1, Bearer order.
    pub fn available(&self) -> (r: Vec<WireScheme>)
        ensures
            r@ == offered(*self),
    {
        let mut r: Vec<WireScheme> = Vec::new();
        if self.oauth2.is_some() {
            r.push(WireScheme::OAuth2);
        }
        if self.oauth1.is_some() {
            r.push(WireScheme::OAuth1);
        }
        if self.bearer.is_some() {
            r.push(WireScheme::App);
        }
        proof {
            assert(r@ =~= (if self.oauth2 is Some {
                seq![WireScheme::OAuth2]
            } else {
                Seq::empty()
            }) + (if self.oauth1 is Some {
                seq![WireScheme::OAuth1]
            } else {
                Seq::empty()
            }) + (if self.bearer is Some {
                seq![WireScheme::App]
            } else {
                Seq::empty()
            }));
        }
        r
    }
}

/// The version reported: the build's own when set, else the module
/// version when it is a real one, else `dev`.
pub fn resolve_version(build_version: &str, module_version: Option<&str>) -> (r: String)
    ensures
        r@ == (if build_version@.len() > 0 {
            build_version@
        } else {
            match module_version {
                Some(v) if v@.len() > 0 && v@ != "(devel)"@ => v@,
                _ => "dev"@,
            }
        }),
{
    if !build_version.is_empty() {
        return owned(build_version);
    }
    match module_version {
        Some(v) => {
            if !v.is_empty() && !crate::text::str_eq(v, "(devel)") {
                return owned(v);
            }
        },
        None => {},
    }
    owned("dev")
}

/// The version when the build sets none.
pub fn version_init() -> (r: String)
    ensures
        r@ == "dev"@,
{
    proof {
        reveal_strlit("");
    }
    resolve_version("", None)
}

/// The commit when the build sets none.
pub fn commit_init() -> (r: String)
    ensures
        r@ == "none"@,
{
    owned("none")
}

/// The build date when the build sets none.
pub fn build_date_init() -> (r: String)
    ensures
        r@ == "unknown"@,
{
    owned("unknown")
}

} // verus!
