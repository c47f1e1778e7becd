//! Which auth scheme a request goes out with.
//!
//! An explicit `--auth` value is checked against the endpoint's accepted
//! schemes and then dispatched as given. Without one, the schemes the active
//! app can use are intersected with the endpoint's accepted set and the first
//! in OAuth2 → OAuth1 → Bearer order wins; raw URLs and endpoints the matrix
//! does not know accept every scheme. An empty intersection on a known
//! endpoint is answered with a mismatch error that names the alternatives,
//! and, when the active app holds nothing, the other apps that do.

use vstd::prelude::*;

use crate::auth::Auth;
use crate::builder::{offered, DirectCredentials};
use crate::auth_matrix::{
    explicit_mismatch, schemes_to_wire_schemes, strings_view, supported, supported_auth, validate,
    validate_ok, wire_contains, wire_list, wire_strings, wire_texts, WireScheme,
};
use crate::error::{Error, NO_AUTH_METHOD};
use crate::order::{sort_strings, sorted};
use crate::request::{pairs_view, RequestOptions, RequestTarget};
use crate::store::{first_oauth2, has_credentials, resolved_app, AppV, StoreV, TokenStore};
use crate::text::{owned, push_str, str_eq, to_lower_unicode, to_upper_unicode, unicode_lower, unicode_upper};
use crate::url::{
    build_url_for_target, raw_scheme_ok, render, render_template_path, template_url, url_ensures, Rendered,
};

verus! {

/// How a request is to be authorised.
#[derive(Debug, Clone)]
pub enum AuthPlan {
    /// An OAuth2 user token.
    OAuth2,
    /// An OAuth1 signature over the request's method and URL.
    OAuth1 { method: String, url: String },
    /// The app's bearer token.
    Bearer,
}

/// The method a request goes out with: upper-cased, `GET` when that is empty.
pub open spec fn effective_method(m: Seq<char>) -> Seq<char> {
    if unicode_upper(m).len() == 0 {
        "GET"@
    } else {
        unicode_upper(m)
    }
}

/// The active app's name: the explicit one, or the store's default.
pub open spec fn active_name(s: StoreV, raw: Seq<char>) -> Seq<char> {
    if raw.len() == 0 {
        s.default_app
    } else {
        raw
    }
}

/// The schemes the app a read for `app` uses holds, in preference order.
pub open spec fn stored_schemes(s: StoreV, app: Seq<char>) -> Seq<WireScheme> {
    match resolved_app(s, app) {
        None => Seq::empty(),
        Some(a) => (if first_oauth2(a) is Some {
            seq![WireScheme::OAuth2]
        } else {
            Seq::empty()
        }) + (if a.o_auth1_token is Some {
            seq![WireScheme::OAuth1]
        } else {
            Seq::empty()
        }) + (if a.bearer_token is Some {
            seq![WireScheme::App]
        } else {
            Seq::empty()
        }),
    }
}

/// The stored schemes, plus Bearer when the environment supplies one.
pub open spec fn available_schemes(stored: Seq<WireScheme>, env_bearer: bool) -> Seq<WireScheme> {
    if env_bearer && !stored.contains(WireScheme::App) {
        stored.push(WireScheme::App)
    } else {
        stored
    }
}

/// The wire list the endpoint accepts, when the matrix knows it.
pub open spec fn endpoint_wires(target: RequestTarget, method: Seq<char>) -> Option<Seq<WireScheme>> {
    match target {
        RequestTarget::Template { path, .. } => match supported(method, path@) {
            Some(s) => Some(wire_list(s)),
            None => None,
        },
        RequestTarget::RawUrl(_) => None,
    }
}

/// `w` is available and the endpoint accepts it.
pub open spec fn candidate(avail: Seq<WireScheme>, ep: Option<Seq<WireScheme>>, w: WireScheme) -> bool {
    avail.contains(w) && match ep {
        Some(e) => e.contains(w),
        None => true,
    }
}

/// The first candidate in OAuth2 → OAuth1 → Bearer order.
pub open spec fn auto_pick(avail: Seq<WireScheme>, ep: Option<Seq<WireScheme>>) -> Option<WireScheme> {
    if candidate(avail, ep, WireScheme::OAuth2) {
        Some(WireScheme::OAuth2)
    } else if candidate(avail, ep, WireScheme::OAuth1) {
        Some(WireScheme::OAuth1)
    } else if candidate(avail, ep, WireScheme::App) {
        Some(WireScheme::App)
    } else {
        None
    }
}

/// The names of the credentialed apps other than `app`, in store order.
pub open spec fn other_credentialed(apps: Seq<(Seq<char>, AppV)>, app: Seq<char>) -> Seq<Seq<char>>
    decreases apps.len(),
{
    if apps.len() == 0 {
        Seq::empty()
    } else if has_credentials(apps.last().1) && apps.last().0 != app {
        other_credentialed(apps.drop_last(), app).push(apps.last().0)
    } else {
        other_credentialed(apps.drop_last(), app)
    }
}

/// The URL of a target can be built.
pub open spec fn builds(target: RequestTarget) -> bool {
    match target {
        RequestTarget::RawUrl(raw) => raw_scheme_ok(raw@),
        RequestTarget::Template { path, path_params, .. } => render(path@, pairs_view(path_params@)) is Path,
    }
}

/// The URL a target builds to.
pub open spec fn built(base: Seq<char>, target: RequestTarget) -> Seq<char> {
    match target {
        RequestTarget::RawUrl(raw) => raw@,
        RequestTarget::Template { path, path_params, query } => match render(path@, pairs_view(path_params@)) {
            Rendered::Path(p) => template_url(base, p, pairs_view(query@)),
            _ => Seq::empty(),
        },
    }
}

/// `r` is the auto-detect mismatch error for a template target.
pub open spec fn auto_mismatch(
    target: RequestTarget,
    method: Seq<char>,
    avail: Seq<WireScheme>,
    app: Seq<char>,
    others: Option<Seq<Seq<char>>>,
    r: Result<AuthPlan, Error>,
) -> bool {
    match target {
        RequestTarget::Template { path, path_params, .. } => {
            &&& r matches Err(
                Error::AuthMethodMismatch {
                    endpoint,
                    rendered_url,
                    method: m,
                    requested,
                    supported: sup,
                    available_in_app,
                    app: a,
                    other_apps_with_creds,
                },
            )
            &&& endpoint@ == path@
            &&& m@ == method
            &&& requested is None
            &&& strings_view(sup@) == wire_texts(wire_list(supported(method, path@)->Some_0))
            &&& available_in_app matches Some(av) && strings_view(av@) == wire_texts(avail)
            &&& a matches Some(y) && y@ == app
            &&& match others {
                Some(o) => other_apps_with_creds matches Some(x) && sorted(strings_view(x@))
                    && strings_view(x@).to_multiset() == o.to_multiset(),
                None => other_apps_with_creds is None,
            }
            &&& match render(path@, pairs_view(path_params@)) {
                Rendered::Path(p) => rendered_url matches Some(u) && u@ == p,
                _ => rendered_url is None,
            }
        },
        RequestTarget::RawUrl(_) => false,
    }
}

/// The outcome of building the URL for a scheme that needs it.
pub open spec fn with_url(base: Seq<char>, target: RequestTarget, method: Seq<char>, r: Result<AuthPlan, Error>) -> bool {
    if builds(target) {
        r matches Ok(AuthPlan::OAuth1 { method: m, url }) && m@ == method && url@ == built(base, target)
    } else {
        r matches Err(e) && url_ensures(base, target, Err(e))
    }
}

/// The plan for an explicit `--auth` value the endpoint accepts (or the
/// matrix does not know).
pub open spec fn explicit_plan(
    base: Seq<char>,
    target: RequestTarget,
    auth: Seq<char>,
    method: Seq<char>,
    r: Result<AuthPlan, Error>,
) -> bool {
    if !builds(target) {
        r matches Err(e) && url_ensures(base, target, Err(e))
    } else if unicode_lower(auth) == "oauth1"@ {
        r matches Ok(AuthPlan::OAuth1 { method: m, url }) && m@ == method && url@ == built(base, target)
    } else if unicode_lower(auth) == "oauth2"@ {
        r matches Ok(AuthPlan::OAuth2)
    } else if unicode_lower(auth) == "app"@ {
        r matches Ok(AuthPlan::Bearer)
    } else {
        r matches Err(Error::Auth(m)) && m@ == "invalid auth type: "@ + auth
    }
}

/// The plan auto-detect arrives at.
pub open spec fn auto_plan(
    s: StoreV,
    raw_app: Seq<char>,
    env_bearer: bool,
    base: Seq<char>,
    target: RequestTarget,
    method: Seq<char>,
    r: Result<AuthPlan, Error>,
) -> bool {
    let app = active_name(s, raw_app);
    let stored = stored_schemes(s, app);
    let avail = available_schemes(stored, env_bearer);
    let ep = endpoint_wires(target, method);
    match auto_pick(avail, ep) {
        Some(WireScheme::OAuth2) => r matches Ok(AuthPlan::OAuth2),
        Some(WireScheme::App) => r matches Ok(AuthPlan::Bearer),
        Some(WireScheme::OAuth1) => with_url(base, target, method, r),
        None => match ep {
            None => r matches Err(Error::Auth(m)) && m@ == NO_AUTH_METHOD@,
            Some(_) => {
                let others = other_credentialed(s.apps, app);
                if stored.len() == 0 && others.len() > 0 {
                    auto_mismatch(target, method, avail, app, Some(others), r)
                } else if stored.len() == 0 && avail.len() == 0 {
                    r matches Err(Error::Auth(m)) && m@ == NO_AUTH_METHOD@
                } else {
                    auto_mismatch(target, method, avail, app, None, r)
                }
            },
        },
    }
}

/// The unit result of a plan, for the matrix validator's error shape.
pub open spec fn unit_of(r: Result<AuthPlan, Error>) -> Result<(), Error> {
    match r {
        Ok(_) => Ok(()),
        Err(e) => Err(e),
    }
}

/// The schemes the app a read for `app` uses holds, in preference order.
fn stored_in_app(store: &TokenStore, app: &str) -> (r: Vec<WireScheme>)
    ensures
        r@ == stored_schemes(store@, app@),
{
    let mut out: Vec<WireScheme> = Vec::new();
    let a = store.get_first_o_auth2_token_for_app(app).is_some();
    let b = store.get_o_auth1_tokens_for_app(app).is_some();
    let c = store.get_bearer_token_for_app(app).is_some();
    if a {
        out.push(WireScheme::OAuth2);
    }
    if b {
        out.push(WireScheme::OAuth1);
    }
    if c {
        out.push(WireScheme::App);
    }
    proof {
        assert(out@ =~= stored_schemes(store@, app@));
    }
    out
}

/// The names of the credentialed apps other than `app`, sorted.
fn other_apps_with_credentials(store: &TokenStore, app: &str) -> (r: Vec<String>)
    ensures
        sorted(strings_view(r@)),
        strings_view(r@).to_multiset() == other_credentialed(store@.apps, app@).to_multiset(),
        r.len() == other_credentialed(store@.apps, app@).len(),
{
    let mut v: Vec<String> = Vec::new();
    let mut i: usize = 0;
    while i < store.apps.len()
        invariant
            i <= store.apps.len(),
            strings_view(v@) == other_credentialed(store@.apps.subrange(0, i as int), app@),
        decreases store.apps.len() - i,
    {
        proof {
            assert(store@.apps.subrange(0, i + 1).drop_last() =~= store@.apps.subrange(0, i as int));
        }
        let a = &store.apps[i].1;
        let has = a.o_auth2_tokens.len() > 0 || a.o_auth2_unnamed.is_some() || a.o_auth1_token.is_some()
            || a.bearer_token.is_some();
        if has && !str_eq(store.apps[i].0.as_str(), app) {
            let ghost prev = v@;
            let k = store.apps[i].0.clone();
            v.push(k);
            proof {
                assert(strings_view(v@) =~= strings_view(prev).push(k@));
            }
        }
        i = i + 1;
    }
    proof {
        assert(store@.apps.subrange(0, i as int) =~= store@.apps);
        assert(crate::order::strings_view(v@) =~= strings_view(v@));
    }
    let r = sort_strings(v);
    proof {
        assert(crate::order::strings_view(r@) =~= strings_view(r@));
        vstd::seq_lib::to_multiset_len(strings_view(r@));
        vstd::seq_lib::to_multiset_len(other_credentialed(store@.apps, app@));
    }
    r
}

/// The wire list of the stored schemes plus Bearer when the environment
/// supplies one.
fn available_in_app(stored: &Vec<WireScheme>, env_bearer: bool) -> (r: Vec<WireScheme>)
    ensures
        r@ == available_schemes(stored@, env_bearer),
{
    let mut out = stored.clone();
    proof {
        assert(out@ =~= stored@);
    }
    if env_bearer && !wire_contains(stored, WireScheme::App) {
        out.push(WireScheme::App);
    }
    out
}

/// What an auth decision knows of the credentials at hand.
#[derive(Debug, Clone)]
pub struct SchemeFacts {
    /// The schemes a request can use, in preference order.
    pub available: Vec<WireScheme>,
    /// The schemes the credentials themselves hold (no environment bearer).
    pub stored: Vec<WireScheme>,
    /// The active app's name, for a token store.
    pub app: Option<String>,
    /// Other apps of the store holding a credential, sorted.
    pub other_apps_with_creds: Vec<String>,
}

/// Where a client's credentials come from: the token store through the
/// auth state, or credentials handed over in code.
pub enum CredentialSource {
    Store(Auth),
    Direct(DirectCredentials),
}

impl CredentialSource {
    /// The auth state, for credentials from the token store.
    pub fn store(&self) -> (r: Option<&Auth>)
        ensures
            match *self {
                CredentialSource::Store(a) => r == Some(&a),
                CredentialSource::Direct(_) => r is None,
            },
    {
        match self {
            CredentialSource::Store(a) => Some(a),
            CredentialSource::Direct(_) => None,
        }
    }

    /// The facts for an auth decision; `env_bearer` says whether the
    /// environment supplies a bearer token (it counts for a store only).
    pub fn scheme_facts(&self, env_bearer: bool) -> (r: SchemeFacts)
        ensures
            match *self {
                CredentialSource::Direct(d) => r.available@ == offered(d) && r.stored@ == offered(d) && r.app is None
                    && r.other_apps_with_creds@.len() == 0,
                CredentialSource::Store(a) => {
                    let app = active_name(a.token_store@, a.app_name@);
                    &&& r.stored@ == stored_schemes(a.token_store@, app)
                    &&& r.available@ == available_schemes(r.stored@, env_bearer)
                    &&& r.app matches Some(x) && x@ == app
                    &&& sorted(strings_view(r.other_apps_with_creds@))
                    &&& strings_view(r.other_apps_with_creds@).to_multiset() == other_credentialed(
                        a.token_store@.apps,
                        app,
                    ).to_multiset()
                },
            },
    {
        match self {
            CredentialSource::Direct(d) => {
                let available = d.available();
                SchemeFacts { stored: available.clone(), available, app: None, other_apps_with_creds: Vec::new() }
            },
            CredentialSource::Store(a) => {
                let app = if a.app_name.as_str().is_empty() {
                    a.token_store.default_app.clone()
                } else {
                    a.app_name.clone()
                };
                let stored = stored_in_app(&a.token_store, app.as_str());
                let available = available_in_app(&stored, env_bearer);
                let others = other_apps_with_credentials(&a.token_store, app.as_str());
                SchemeFacts { available, stored, app: Some(app), other_apps_with_creds: others }
            },
        }
    }
}

/// Chooses how a request is authorised (see the module doc).
///
/// `raw_app` is the active app's name (empty for the store's default);
/// `env_bearer` says whether the environment supplies a bearer token;
/// `base_url` is the API's base URL, for the OAuth1 signature URL.
pub fn select_auth(
    store: &TokenStore,
    raw_app: &str,
    env_bearer: bool,
    base_url: &str,
    options: &RequestOptions,
) -> (r: Result<AuthPlan, Error>)
    ensures
        options.auth_type@.len() > 0 ==> {
            let method = effective_method(options.method@);
            if validate_ok(options.target, method, options.auth_type@) {
                explicit_plan(base_url@, options.target, options.auth_type@, method, r)
            } else {
                explicit_mismatch(
                    options.target,
                    method,
                    method,
                    options.auth_type@,
                    Some(active_name(store@, raw_app@)),
                    unit_of(r),
                )
            }
        },
        options.auth_type@.len() == 0 ==> auto_plan(
            store@,
            raw_app@,
            env_bearer,
            base_url@,
            options.target,
            effective_method(options.method@),
            r,
        ),
{
    let up = to_upper_unicode(options.method.as_str());
    let method = if up.as_str().is_empty() {
        owned("GET")
    } else {
        up
    };
    let app_name = if raw_app.is_empty() {
        store.default_app.clone()
    } else {
        owned(raw_app)
    };
    if !options.auth_type.as_str().is_empty() {
        match validate(&options.target, method.as_str(), options.auth_type.as_str(), Some(app_name.as_str())) {
            Err(
                Error::AuthMethodMismatch {
                    endpoint,
                    rendered_url,
                    requested,
                    supported,
                    available_in_app,
                    app,
                    other_apps_with_creds,
                    ..
                },
            ) => {
                return Err(
                    Error::AuthMethodMismatch {
                        endpoint,
                        rendered_url,
                        method,
                        requested,
                        supported,
                        available_in_app,
                        app,
                        other_apps_with_creds,
                    },
                );
            },
            Err(e) => return Err(e),
            Ok(()) => {},
        }
        let url = match build_url_for_target(base_url, &options.target) {
            Ok(u) => u,
            Err(e) => return Err(e),
        };
        let l = to_lower_unicode(options.auth_type.as_str());
        if str_eq(l.as_str(), "oauth1") {
            return Ok(AuthPlan::OAuth1 { method, url });
        } else if str_eq(l.as_str(), "oauth2") {
            return Ok(AuthPlan::OAuth2);
        } else if str_eq(l.as_str(), "app") {
            return Ok(AuthPlan::Bearer);
        } else {
            let mut m = owned("invalid auth type: ");
            push_str(&mut m, options.auth_type.as_str());
            return Err(Error::Auth(m));
        }
    }
    let stored = stored_in_app(store, app_name.as_str());
    let avail = available_in_app(&stored, env_bearer);
    let endpoint: Option<Vec<WireScheme>> = match &options.target {
        RequestTarget::Template { path, .. } => match supported_auth(method.as_str(), path.as_str()) {
            Some(s) => Some(schemes_to_wire_schemes(&s)),
            None => None,
        },
        RequestTarget::RawUrl(_) => None,
    };
    let ok2 = wire_contains(&avail, WireScheme::OAuth2) && match &endpoint {
        Some(e) => wire_contains(e, WireScheme::OAuth2),
        None => true,
    };
    let ok1 = wire_contains(&avail, WireScheme::OAuth1) && match &endpoint {
        Some(e) => wire_contains(e, WireScheme::OAuth1),
        None => true,
    };
    let oka = wire_contains(&avail, WireScheme::App) && match &endpoint {
        Some(e) => wire_contains(e, WireScheme::App),
        None => true,
    };
    if ok2 {
        return Ok(AuthPlan::OAuth2);
    }
    if ok1 {
        return match build_url_for_target(base_url, &options.target) {
            Ok(url) => Ok(AuthPlan::OAuth1 { method, url }),
            Err(e) => Err(e),
        };
    }
    if oka {
        return Ok(AuthPlan::Bearer);
    }
    match (&options.target, &endpoint) {
        (RequestTarget::Template { path, path_params, .. }, Some(e)) => {
            let rendered_url = match render_template_path(path.as_str(), path_params) {
                Ok(u) => Some(u),
                Err(_) => None,
            };
            let supported_list = wire_strings(e);
            let available_list = wire_strings(&avail);
            if stored.len() == 0 {
                let others = other_apps_with_credentials(store, app_name.as_str());
                if others.len() > 0 {
                    return Err(
                        Error::AuthMethodMismatch {
                            endpoint: path.clone(),
                            rendered_url,
                            method,
                            requested: None,
                            supported: supported_list,
                            available_in_app: Some(available_list),
                            app: Some(app_name),
                            other_apps_with_creds: Some(others),
                        },
                    );
                }
                if avail.len() == 0 {
                    return Err(Error::Auth(owned(NO_AUTH_METHOD)));
                }
            }
            Err(
                Error::AuthMethodMismatch {
                    endpoint: path.clone(),
                    rendered_url,
                    method,
                    requested: None,
                    supported: supported_list,
                    available_in_app: Some(available_list),
                    app: Some(app_name),
                    other_apps_with_creds: None,
                },
            )
        },
        _ => Err(Error::Auth(owned(NO_AUTH_METHOD))),
    }
}

} // verus!
