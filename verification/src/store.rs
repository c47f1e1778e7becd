//! The multi-app token store: registered X API apps, each holding its
//! client credentials and the OAuth2, OAuth1 and bearer tokens saved for it.
//!
//! Apps are resolved by name: an explicit, existing name wins; otherwise the
//! default app is used. Writes to an app that cannot be resolved go to an app
//! named `default`, created on the spot. Persistence is the caller's: every
//! operation here works on the in-memory store.
//!
//! Apps, and each app's named OAuth2 tokens, are kept as lists of
//! `(name, value)` pairs in insertion order, with names unique (every
//! mutator keeps `unique_names`). A map keyed by `String` would give the
//! contracts nothing to stand on: Verus proves nothing of its lookups for
//! such keys, while the lists give exact models of every read and write.

use vstd::prelude::*;

use crate::error::Error;
use crate::order::{find_key, key_pos, keys_of, lemma_key_pos, lemma_key_pos_same, sort_strings, sorted, strings_view};
use crate::text::{debug_quoted, debug_str, owned, push_str, str_eq};

verus! {

/// Kind of a stored token.
#[derive(Debug, Clone, Copy, PartialEq, Eq, Structural)]
pub enum TokenType {
    /// An app-only bearer token.
    Bearer,
    /// An OAuth2 user token.
    OAuth2,
    /// OAuth1 user credentials.
    OAuth1,
}

/// OAuth1 user credentials.
#[derive(Debug, Clone)]
pub struct OAuth1Token {
    pub access_token: String,
    pub token_secret: String,
    pub consumer_key: String,
    pub consumer_secret: String,
}

/// An OAuth2 access/refresh pair and its expiry (Unix seconds).
#[derive(Debug, Clone)]
pub struct OAuth2Token {
    pub access_token: String,
    pub refresh_token: String,
    pub expiration_time: u64,
}

/// A stored token of any kind.
#[derive(Debug, Clone)]
pub struct Token {
    pub token_type: TokenType,
    pub bearer: Option<String>,
    pub o_auth2: Option<OAuth2Token>,
    pub o_auth1: Option<OAuth1Token>,
}

/// One registered application and its tokens.
#[derive(Debug, Clone)]
pub struct App {
    pub client_id: String,
    pub client_secret: String,
    /// OAuth2 user chosen when no username is given; empty for none.
    pub default_user: String,
    /// Redirect URI registered for this app; empty for none.
    pub redirect_uri: String,
    /// OAuth2 tokens by username.
    pub o_auth2_tokens: Vec<(String, Token)>,
    /// OAuth2 token saved when the username could not be resolved.
    pub o_auth2_unnamed: Option<Token>,
    pub o_auth1_token: Option<Token>,
    pub bearer_token: Option<Token>,
}

/// Apps by name, the default app's name, and the file the caller persists to.
#[derive(Debug, Clone)]
pub struct TokenStore {
    pub apps: Vec<(String, App)>,
    pub default_app: String,
    pub file_path: String,
}

// ── Models ───────────────────────────────────────────────────────────

pub struct OAuth1TokenV {
    pub access_token: Seq<char>,
    pub token_secret: Seq<char>,
    pub consumer_key: Seq<char>,
    pub consumer_secret: Seq<char>,
}

pub struct OAuth2TokenV {
    pub access_token: Seq<char>,
    pub refresh_token: Seq<char>,
    pub expiration_time: u64,
}

pub struct TokenV {
    pub token_type: TokenType,
    pub bearer: Option<Seq<char>>,
    pub o_auth2: Option<OAuth2TokenV>,
    pub o_auth1: Option<OAuth1TokenV>,
}

pub struct AppV {
    pub client_id: Seq<char>,
    pub client_secret: Seq<char>,
    pub default_user: Seq<char>,
    pub redirect_uri: Seq<char>,
    pub o_auth2_tokens: Seq<(Seq<char>, TokenV)>,
    pub o_auth2_unnamed: Option<TokenV>,
    pub o_auth1_token: Option<TokenV>,
    pub bearer_token: Option<TokenV>,
}

pub struct StoreV {
    pub apps: Seq<(Seq<char>, AppV)>,
    pub default_app: Seq<char>,
    pub file_path: Seq<char>,
}

impl View for OAuth1Token {
    type V = OAuth1TokenV;

    open spec fn view(&self) -> OAuth1TokenV {
        OAuth1TokenV {
            access_token: self.access_token@,
            token_secret: self.token_secret@,
            consumer_key: self.consumer_key@,
            consumer_secret: self.consumer_secret@,
        }
    }
}

impl View for OAuth2Token {
    type V = OAuth2TokenV;

    open spec fn view(&self) -> OAuth2TokenV {
        OAuth2TokenV {
            access_token: self.access_token@,
            refresh_token: self.refresh_token@,
            expiration_time: self.expiration_time,
        }
    }
}

/// The model of an optional string.
pub open spec fn opt_str(o: Option<String>) -> Option<Seq<char>> {
    match o {
        Some(s) => Some(s@),
        None => None,
    }
}

impl View for Token {
    type V = TokenV;

    open spec fn view(&self) -> TokenV {
        TokenV {
            token_type: self.token_type,
            bearer: opt_str(self.bearer),
            o_auth2: match self.o_auth2 {
                Some(t) => Some(t@),
                None => None,
            },
            o_auth1: match self.o_auth1 {
                Some(t) => Some(t@),
                None => None,
            },
        }
    }
}

/// The model of an optional token.
pub open spec fn opt_tok(o: Option<Token>) -> Option<TokenV> {
    match o {
        Some(t) => Some(t@),
        None => None,
    }
}

/// The model of a list of named tokens.
pub open spec fn tokens_view(v: Seq<(String, Token)>) -> Seq<(Seq<char>, TokenV)> {
    Seq::new(v.len(), |i: int| (v[i].0@, v[i].1@))
}

impl View for App {
    type V = AppV;

    open spec fn view(&self) -> AppV {
        AppV {
            client_id: self.client_id@,
            client_secret: self.client_secret@,
            default_user: self.default_user@,
            redirect_uri: self.redirect_uri@,
            o_auth2_tokens: tokens_view(self.o_auth2_tokens@),
            o_auth2_unnamed: opt_tok(self.o_auth2_unnamed),
            o_auth1_token: opt_tok(self.o_auth1_token),
            bearer_token: opt_tok(self.bearer_token),
        }
    }
}

/// The model of a list of named apps.
pub open spec fn apps_view(v: Seq<(String, App)>) -> Seq<(Seq<char>, AppV)> {
    Seq::new(v.len(), |i: int| (v[i].0@, v[i].1@))
}

impl View for TokenStore {
    type V = StoreV;

    open spec fn view(&self) -> StoreV {
        StoreV {
            apps: apps_view(self.apps@),
            default_app: self.default_app@,
            file_path: self.file_path@,
        }
    }
}

// ── Lookup model ─────────────────────────────────────────────────────

/// The names of keyed entries.
pub open spec fn names<V>(s: Seq<(Seq<char>, V)>) -> Seq<Seq<char>> {
    Seq::new(s.len(), |i: int| s[i].0)
}

/// Position of the app named `name`, or -1.
pub open spec fn app_pos(s: StoreV, name: Seq<char>) -> int {
    key_pos(names(s.apps), name)
}

/// Position of the app a read for `name` uses: the named app when the name
/// is non-empty and registered, otherwise the default app; -1 for none.
pub open spec fn resolved(s: StoreV, name: Seq<char>) -> int {
    if name.len() > 0 && app_pos(s, name) >= 0 {
        app_pos(s, name)
    } else {
        app_pos(s, s.default_app)
    }
}

/// The app a read for `name` uses.
pub open spec fn resolved_app(s: StoreV, name: Seq<char>) -> Option<AppV> {
    if resolved(s, name) >= 0 {
        Some(s.apps[resolved(s, name)].1)
    } else {
        None
    }
}

/// An app with the given credentials and no tokens.
pub open spec fn fresh_app(client_id: Seq<char>, client_secret: Seq<char>) -> AppV {
    AppV {
        client_id,
        client_secret,
        default_user: Seq::empty(),
        redirect_uri: Seq::empty(),
        o_auth2_tokens: Seq::empty(),
        o_auth2_unnamed: None,
        o_auth1_token: None,
        bearer_token: None,
    }
}

/// The store a write for `name` works on: unchanged when `name` resolves;
/// otherwise with a fresh app named `default` (replacing one of that name),
/// which also becomes the default when no default was set.
pub open spec fn write_store(s: StoreV, name: Seq<char>) -> StoreV {
    if resolved(s, name) >= 0 {
        s
    } else {
        let p = app_pos(s, "default"@);
        let entry = ("default"@, fresh_app(Seq::empty(), Seq::empty()));
        StoreV {
            apps: if p >= 0 {
                s.apps.update(p, entry)
            } else {
                s.apps.push(entry)
            },
            default_app: if s.default_app.len() == 0 {
                "default"@
            } else {
                s.default_app
            },
            file_path: s.file_path,
        }
    }
}

/// Position of the app a write for `name` changes, in `write_store(s, name)`.
pub open spec fn write_pos(s: StoreV, name: Seq<char>) -> int {
    if resolved(s, name) >= 0 {
        resolved(s, name)
    } else {
        app_pos(write_store(s, name), "default"@)
    }
}

/// The store with the app a write for `name` targets replaced by `f` of it.
pub open spec fn modify_app(s: StoreV, name: Seq<char>, f: spec_fn(AppV) -> AppV) -> StoreV {
    let t = write_store(s, name);
    let i = write_pos(s, name);
    StoreV { apps: t.apps.update(i, (t.apps[i].0, f(t.apps[i].1))), ..t }
}

/// Named tokens with `(k, t)` replacing the first entry named `k`, or appended.
pub open spec fn upsert(s: Seq<(Seq<char>, TokenV)>, k: Seq<char>, t: TokenV) -> Seq<(Seq<char>, TokenV)> {
    let p = key_pos(names(s), k);
    if p >= 0 {
        s.update(p, (k, t))
    } else {
        s.push((k, t))
    }
}

/// Named entries without any entry named `k`.
pub open spec fn remove_key<V>(s: Seq<(Seq<char>, V)>, k: Seq<char>) -> Seq<(Seq<char>, V)>
    decreases s.len(),
{
    if s.len() == 0 {
        s
    } else if s.last().0 == k {
        remove_key(s.drop_last(), k)
    } else {
        remove_key(s.drop_last(), k).push(s.last())
    }
}

/// The token of the first entry named `k`.
pub open spec fn token_of(s: Seq<(Seq<char>, TokenV)>, k: Seq<char>) -> Option<TokenV> {
    let p = key_pos(names(s), k);
    if p >= 0 {
        Some(s[p].1)
    } else {
        None
    }
}

/// A bearer token model.
pub open spec fn bearer_tok(token: Seq<char>) -> TokenV {
    TokenV { token_type: TokenType::Bearer, bearer: Some(token), o_auth2: None, o_auth1: None }
}

/// An OAuth2 token model.
pub open spec fn oauth2_tok(access: Seq<char>, refresh: Seq<char>, exp: u64) -> TokenV {
    TokenV {
        token_type: TokenType::OAuth2,
        bearer: None,
        o_auth2: Some(OAuth2TokenV { access_token: access, refresh_token: refresh, expiration_time: exp }),
        o_auth1: None,
    }
}

/// An OAuth1 token model.
pub open spec fn oauth1_tok(at: Seq<char>, ts: Seq<char>, ck: Seq<char>, cs: Seq<char>) -> TokenV {
    TokenV {
        token_type: TokenType::OAuth1,
        bearer: None,
        o_auth2: None,
        o_auth1: Some(
            OAuth1TokenV { access_token: at, token_secret: ts, consumer_key: ck, consumer_secret: cs },
        ),
    }
}

/// The app holds some credential.
pub open spec fn has_credentials(a: AppV) -> bool {
    a.o_auth2_tokens.len() > 0 || a.o_auth2_unnamed is Some || a.o_auth1_token is Some
        || a.bearer_token is Some
}

/// The first OAuth2 token of an app: the default user's when it has one,
/// otherwise the first stored one.
pub open spec fn first_oauth2(a: AppV) -> Option<TokenV> {
    if a.default_user.len() > 0 && token_of(a.o_auth2_tokens, a.default_user) is Some {
        token_of(a.o_auth2_tokens, a.default_user)
    } else if a.o_auth2_tokens.len() > 0 {
        Some(a.o_auth2_tokens[0].1)
    } else {
        None
    }
}

// ── Lemmas ───────────────────────────────────────────────────────────

proof fn lemma_names_apps(v: Seq<(String, App)>)
    ensures
        names(apps_view(v)) == keys_of(v),
{
    assert(names(apps_view(v)) =~= keys_of(v));
}

proof fn lemma_names_tokens(v: Seq<(String, Token)>)
    ensures
        names(tokens_view(v)) == keys_of(v),
{
    assert(names(tokens_view(v)) =~= keys_of(v));
}

// ── The store ────────────────────────────────────────────────────────

/// An app with the given credentials and no tokens.
pub fn new_app(client_id: &str, client_secret: &str) -> (a: App)
    ensures
        a@ == fresh_app(client_id@, client_secret@),
{
    let a = App {
        client_id: owned(client_id),
        client_secret: owned(client_secret),
        default_user: String::new(),
        redirect_uri: String::new(),
        o_auth2_tokens: Vec::new(),
        o_auth2_unnamed: None,
        o_auth1_token: None,
        bearer_token: None,
    };
    assert(a@.o_auth2_tokens =~= Seq::<(Seq<char>, TokenV)>::empty());
    a
}

/// A store with no apps, persisted at `file_path`.
pub fn new_token_store(file_path: &str) -> (s: TokenStore)
    ensures
        s@.apps.len() == 0,
        s@.default_app.len() == 0,
        s@.file_path == file_path@,
{
    let s = TokenStore { apps: Vec::new(), default_app: String::new(), file_path: owned(file_path) };
    assert(s@.apps =~= Seq::<(Seq<char>, AppV)>::empty());
    s
}

impl TokenStore {
    /// Position of the app named `name`.
    fn app_index(&self, name: &str) -> (r: Option<usize>)
        ensures
            r matches Some(i) ==> i as int == app_pos(self@, name@) && i < self.apps.len(),
            r is None ==> app_pos(self@, name@) == -1,
    {
        proof {
            lemma_names_apps(self.apps@);
        }
        find_key(&self.apps, name)
    }

    /// Position of the app a read for `name` uses.
    fn resolved_index(&self, name: &str) -> (r: Option<usize>)
        ensures
            r matches Some(i) ==> i as int == resolved(self@, name@) && i < self.apps.len(),
            r is None ==> resolved(self@, name@) == -1,
    {
        if !name.is_empty() {
            if let Some(i) = self.app_index(name) {
                return Some(i);
            }
        }
        proof {
            lemma_key_pos(names(self@.apps), self@.default_app);
        }
        self.app_index(self.default_app.as_str())
    }

    /// Makes sure a write for `name` has an app to go to; returns its position.
    fn write_index(&mut self, name: &str) -> (r: usize)
        ensures
            final(self)@ == write_store(old(self)@, name@),
            r as int == write_pos(old(self)@, name@),
            r < final(self).apps.len(),
            unique_names(old(self)@) ==> unique_names(final(self)@),
    {
        proof {
            if unique_names(old(self)@) {
                lemma_write_store_unique(old(self)@, name@);
            }
        }
        if let Some(i) = self.resolved_index(name) {
            return i;
        }
        let entry = (owned("default"), new_app("", ""));
        proof {
            reveal_strlit("");
            assert(""@ =~= Seq::<char>::empty());
        }
        let ghost p = app_pos(old(self)@, "default"@);
        proof {
            lemma_names_apps(self.apps@);
        }
        match self.app_index("default") {
            Some(q) => {
                self.apps.set(q, entry);
            },
            None => {
                self.apps.push(entry);
            },
        }
        if self.default_app.as_str().is_empty() {
            self.default_app = owned("default");
        }
        proof {
            assert(self@.apps =~= write_store(old(self)@, name@).apps);
            lemma_names_apps(self.apps@);
            lemma_key_pos(names(old(self)@.apps), "default"@);
            if p < 0 {
                assert forall|j: int| 0 <= j < old(self)@.apps.len() implies names(self@.apps)[j] != "default"@ by {
                    assert(names(self@.apps)[j] == names(old(self)@.apps)[j]);
                }
                crate::order::lemma_key_pos_at(names(self@.apps), "default"@, old(self)@.apps.len() as int);
            } else {
                assert forall|j: int| 0 <= j < p implies names(self@.apps)[j] != "default"@ by {
                    assert(names(self@.apps)[j] == names(old(self)@.apps)[j]);
                }
                crate::order::lemma_key_pos_at(names(self@.apps), "default"@, p);
            }
        }
        self.app_index("default").unwrap()
    }

    /// Replaces the app at position `i`, keeping its name.
    fn put_app(&mut self, i: usize, a: App)
        requires
            i < old(self).apps.len(),
        ensures
            final(self)@ == (StoreV {
                apps: old(self)@.apps.update(i as int, (old(self)@.apps[i as int].0, a@)),
                ..old(self)@
            }),
            final(self).apps.len() == old(self).apps.len(),
            unique_names(old(self)@) ==> unique_names(final(self)@),
    {
        let (name, _) = self.apps.remove(i);
        self.apps.insert(i, (name, a));
        proof {
            assert(self@.apps =~= old(self)@.apps.update(i as int, (old(self)@.apps[i as int].0, a@)));
        }
    }

    /// A copy of the app at position `i`.
    fn app_at(&self, i: usize) -> (a: App)
        requires
            i < self.apps.len(),
        ensures
            a@ == self@.apps[i as int].1,
    {
        self.apps[i].1.duplicate()
    }

    /// Registers an app with the given credentials. The first app registered
    /// becomes the default. Fails if an app of that name exists.
    pub fn add_app(&mut self, name: &str, client_id: &str, client_secret: &str) -> (r: Result<(), Error>)
        ensures
            unique_names(old(self)@) ==> unique_names(final(self)@),
            app_pos(old(self)@, name@) >= 0 ==> store_err(r, msg_app(name@, " already exists"@)) && final(self)@ == old(self)@,
            app_pos(old(self)@, name@) < 0 ==> r is Ok && final(self)@ == (StoreV {
                apps: old(self)@.apps.push((name@, fresh_app(client_id@, client_secret@))),
                default_app: if old(self)@.apps.len() == 0 {
                    name@
                } else {
                    old(self)@.default_app
                },
                file_path: old(self)@.file_path,
            }),
    {
        if self.app_index(name).is_some() {
            return Err(Error::TokenStore(app_message(name, " already exists")));
        }
        self.apps.push((owned(name), new_app(client_id, client_secret)));
        if self.apps.len() == 1 {
            self.default_app = owned(name);
        }
        proof {
            assert(self@.apps =~= old(self)@.apps.push((name@, fresh_app(client_id@, client_secret@))));
            if unique_names(old(self)@) {
                law_add_then_get(old(self)@, name@, client_id@, client_secret@);
            }
        }
        Ok(())
    }

    /// Replaces the non-empty credentials of an existing app.
    pub fn update_app(&mut self, name: &str, client_id: &str, client_secret: &str) -> (r: Result<(), Error>)
        ensures
            unique_names(old(self)@) ==> unique_names(final(self)@),
            app_pos(old(self)@, name@) < 0 ==> store_err(r, msg_app(name@, " not found"@)) && final(self)@ == old(self)@,
            app_pos(old(self)@, name@) >= 0 ==> r is Ok && final(self)@ == update_creds(
                old(self)@,
                app_pos(old(self)@, name@),
                client_id@,
                client_secret@,
            ),
    {
        match self.app_index(name) {
            None => Err(Error::TokenStore(app_message(name, " not found"))),
            Some(i) => {
                let mut a = self.app_at(i);
                if !client_id.is_empty() {
                    a.client_id = owned(client_id);
                }
                if !client_secret.is_empty() {
                    a.client_secret = owned(client_secret);
                }
                self.put_app(i, a);
                Ok(())
            },
        }
    }

    /// Removes an app and its tokens. When it was the default, the first
    /// remaining app (if any) becomes the default.
    pub fn remove_app(&mut self, name: &str) -> (r: Result<(), Error>)
        ensures
            unique_names(old(self)@) ==> unique_names(final(self)@),
            app_pos(old(self)@, name@) < 0 ==> store_err(r, msg_app(name@, " not found"@)) && final(self)@ == old(self)@,
            app_pos(old(self)@, name@) >= 0 ==> r is Ok && final(self)@ == without_app(old(self)@, name@),
    {
        match self.app_index(name) {
            None => Err(Error::TokenStore(app_message(name, " not found"))),
            Some(i) => {
                self.apps.remove(i);
                proof {
                    assert(self@.apps =~= old(self)@.apps.remove(i as int));
                }
                if str_eq(self.default_app.as_str(), name) {
                    if self.apps.len() > 0 {
                        self.default_app = self.apps[0].0.clone();
                    } else {
                        self.default_app = String::new();
                    }
                }
                proof {
                    assert(self@.apps =~= old(self)@.apps.remove(i as int));
                }
                Ok(())
            },
        }
    }

    /// Makes an existing app the default.
    pub fn set_default_app(&mut self, name: &str) -> (r: Result<(), Error>)
        ensures
            unique_names(old(self)@) ==> unique_names(final(self)@),
            app_pos(old(self)@, name@) < 0 ==> store_err(r, msg_app(name@, " not found"@)) && final(self)@ == old(self)@,
            app_pos(old(self)@, name@) >= 0 ==> r is Ok && final(self)@ == (StoreV {
                default_app: name@,
                ..old(self)@
            }),
    {
        match self.app_index(name) {
            None => Err(Error::TokenStore(app_message(name, " not found"))),
            Some(_) => {
                self.default_app = owned(name);
                Ok(())
            },
        }
    }

    /// The names of all apps, sorted.
    pub fn list_apps(&self) -> (r: Vec<String>)
        ensures
            sorted(strings_view(r@)),
            strings_view(r@).to_multiset() == names(self@.apps).to_multiset(),
    {
        let mut v: Vec<String> = Vec::new();
        let mut i: usize = 0;
        while i < self.apps.len()
            invariant
                i <= self.apps.len(),
                v.len() == i,
                strings_view(v@) == names(self@.apps).subrange(0, i as int),
            decreases self.apps.len() - i,
        {
            let ghost prev = v@;
            let k = self.apps[i].0.clone();
            v.push(k);
            proof {
                assert(v@ == prev.push(k));
                assert forall|j: int| 0 <= j <= i implies #[trigger] strings_view(v@)[j] == names(
                    self@.apps,
                )[j] by {
                    if j < i {
                        assert(strings_view(v@)[j] == strings_view(prev)[j]);
                        assert(strings_view(prev)[j] == names(self@.apps).subrange(0, i as int)[j]);
                    }
                }
            }
            i = i + 1;
            proof {
                assert(strings_view(v@) =~= names(self@.apps).subrange(0, i as int));
            }
        }
        proof {
            assert(names(self@.apps).subrange(0, i as int) =~= names(self@.apps));
        }
        sort_strings(v)
    }

    /// A copy of the app named `name`.
    pub fn get_app(&self, name: &str) -> (r: Option<App>)
        ensures
            app_pos(self@, name@) < 0 ==> r is None,
            app_pos(self@, name@) >= 0 ==> (r matches Some(a) && a@ == self@.apps[app_pos(self@, name@)].1),
    {
        match self.app_index(name) {
            None => None,
            Some(i) => Some(self.app_at(i)),
        }
    }

    /// The default app's name.
    pub fn get_default_app(&self) -> (r: String)
        ensures
            r@ == self@.default_app,
    {
        self.default_app.clone()
    }

    /// `explicit` when it is non-empty, otherwise the default app's name.
    pub fn get_active_app_name(&self, explicit: &str) -> (r: String)
        ensures
            r@ == (if explicit@.len() > 0 {
                explicit@
            } else {
                self@.default_app
            }),
    {
        if !explicit.is_empty() {
            owned(explicit)
        } else {
            self.default_app.clone()
        }
    }

    /// The default app, if the store holds it.
    pub fn active_app(&self) -> (r: Option<App>)
        ensures
            match resolved_app(self@, Seq::empty()) {
                Some(a) => r matches Some(x) && x@ == a,
                None => r is None,
            },
    {
        proof {
            reveal_strlit("");
        }
        self.get_app(self.default_app.as_str())
    }

    /// The default app; the store gains an app named `default` (made the
    /// default when none is set) when its default app is missing.
    pub fn active_app_or_create(&mut self) -> (r: App)
        ensures
            unique_names(old(self)@) ==> unique_names(final(self)@),
            final(self)@ == write_store(old(self)@, Seq::empty()),
            r@ == write_store(old(self)@, Seq::empty()).apps[write_pos(old(self)@, Seq::empty())].1,
    {
        proof {
            reveal_strlit("");
        }
        self.resolve_app("")
    }

    /// The app a write for `name` goes to (see the module doc); the store
    /// gains an app named `default` when `name` resolves to none.
    pub fn resolve_app(&mut self, name: &str) -> (r: App)
        ensures
            unique_names(old(self)@) ==> unique_names(final(self)@),
            final(self)@ == write_store(old(self)@, name@),
            r@ == write_store(old(self)@, name@).apps[write_pos(old(self)@, name@)].1,
    {
        let i = self.write_index(name);
        self.app_at(i)
    }
}

impl TokenStore {
    /// Position of the app a read for `name` uses, if any.
    fn read_index(&self, name: &str) -> (r: Option<usize>)
        ensures
            r matches Some(i) ==> i as int == resolved(self@, name@) && i < self.apps.len(),
            r is None ==> resolved(self@, name@) == -1,
    {
        self.resolved_index(name)
    }

    /// The client credentials of the app a read for `name` uses; empty
    /// when there is none. The store is only read.
    pub(crate) fn resolved_credentials(&self, name: &str) -> (r: (String, String))
        ensures
            (r.0@, r.1@) == read_creds(self@, name@),
    {
        match self.read_index(name) {
            Some(i) => (self.apps[i].1.client_id.clone(), self.apps[i].1.client_secret.clone()),
            None => (String::new(), String::new()),
        }
    }

    /// Saves a bearer token into the app `app_name` resolves to.
    pub fn save_bearer_token_for_app(&mut self, app_name: &str, token: &str)
        ensures
            unique_names(old(self)@) ==> unique_names(final(self)@),
            final(self)@ == modify_app(old(self)@, app_name@, |a: AppV| set_bearer(a, Some(bearer_tok(token@)))),
    {
        let i = self.write_index(app_name);
        let mut a = self.app_at(i);
        a.bearer_token = Some(new_bearer_token(token));
        self.put_app(i, a);
    }

    /// Saves a bearer token into the default app.
    pub fn save_bearer_token(&mut self, token: &str)
        ensures
            unique_names(old(self)@) ==> unique_names(final(self)@),
            final(self)@ == modify_app(old(self)@, Seq::empty(), |a: AppV| set_bearer(a, Some(bearer_tok(token@)))),
    {
        proof {
            reveal_strlit("");
        }
        self.save_bearer_token_for_app("", token);
    }

    /// Saves (or replaces) `username`'s OAuth2 token in the app `app_name`
    /// resolves to.
    pub fn save_o_auth2_token_for_app(
        &mut self,
        app_name: &str,
        username: &str,
        access_token: &str,
        refresh_token: &str,
        expiration_time: u64,
    )
        ensures
            unique_names(old(self)@) ==> unique_names(final(self)@),
            final(self)@ == modify_app(
                old(self)@,
                app_name@,
                |a: AppV|
                    set_oauth2_tokens(
                        a,
                        upsert(a.o_auth2_tokens, username@, oauth2_tok(access_token@, refresh_token@, expiration_time)),
                    ),
            ),
    {
        let i = self.write_index(app_name);
        let mut a = self.app_at(i);
        let t = new_oauth2_token(access_token, refresh_token, expiration_time);
        proof {
            lemma_names_tokens(a.o_auth2_tokens@);
        }
        match find_key(&a.o_auth2_tokens, username) {
            Some(j) => {
                a.o_auth2_tokens.set(j, (owned(username), t));
            },
            None => {
                a.o_auth2_tokens.push((owned(username), t));
            },
        }
        proof {
            assert(tokens_view(a.o_auth2_tokens@) =~= upsert(
                write_store(old(self)@, app_name@).apps[i as int].1.o_auth2_tokens,
                username@,
                oauth2_tok(access_token@, refresh_token@, expiration_time),
            ));
        }
        self.put_app(i, a);
    }

    /// Saves (or replaces) `username`'s OAuth2 token in the default app.
    pub fn save_o_auth2_token(&mut self, username: &str, access_token: &str, refresh_token: &str, expiration_time: u64)
        ensures
            unique_names(old(self)@) ==> unique_names(final(self)@),
            final(self)@ == modify_app(
                old(self)@,
                Seq::empty(),
                |a: AppV|
                    set_oauth2_tokens(
                        a,
                        upsert(a.o_auth2_tokens, username@, oauth2_tok(access_token@, refresh_token@, expiration_time)),
                    ),
            ),
    {
        proof {
            reveal_strlit("");
        }
        self.save_o_auth2_token_for_app("", username, access_token, refresh_token, expiration_time);
    }

    /// Saves an OAuth2 token whose user could not be identified into the
    /// app `app_name` resolves to.
    pub fn save_o_auth2_token_unnamed_for_app(
        &mut self,
        app_name: &str,
        access_token: &str,
        refresh_token: &str,
        expiration_time: u64,
    )
        ensures
            unique_names(old(self)@) ==> unique_names(final(self)@),
            final(self)@ == modify_app(
                old(self)@,
                app_name@,
                |a: AppV| set_unnamed(a, Some(oauth2_tok(access_token@, refresh_token@, expiration_time))),
            ),
    {
        let i = self.write_index(app_name);
        let mut a = self.app_at(i);
        a.o_auth2_unnamed = Some(new_oauth2_token(access_token, refresh_token, expiration_time));
        self.put_app(i, a);
    }

    /// Saves OAuth1 credentials into the app `app_name` resolves to.
    pub fn save_o_auth1_tokens_for_app(
        &mut self,
        app_name: &str,
        access_token: &str,
        token_secret: &str,
        consumer_key: &str,
        consumer_secret: &str,
    )
        ensures
            unique_names(old(self)@) ==> unique_names(final(self)@),
            final(self)@ == modify_app(
                old(self)@,
                app_name@,
                |a: AppV|
                    set_oauth1(
                        a,
                        Some(oauth1_tok(access_token@, token_secret@, consumer_key@, consumer_secret@)),
                    ),
            ),
    {
        let i = self.write_index(app_name);
        let mut a = self.app_at(i);
        a.o_auth1_token = Some(new_oauth1_token(access_token, token_secret, consumer_key, consumer_secret));
        self.put_app(i, a);
    }

    /// Saves OAuth1 credentials into the default app.
    pub fn save_o_auth1_tokens(
        &mut self,
        access_token: &str,
        token_secret: &str,
        consumer_key: &str,
        consumer_secret: &str,
    )
        ensures
            unique_names(old(self)@) ==> unique_names(final(self)@),
            final(self)@ == modify_app(
                old(self)@,
                Seq::empty(),
                |a: AppV|
                    set_oauth1(
                        a,
                        Some(oauth1_tok(access_token@, token_secret@, consumer_key@, consumer_secret@)),
                    ),
            ),
    {
        proof {
            reveal_strlit("");
        }
        self.save_o_auth1_tokens_for_app("", access_token, token_secret, consumer_key, consumer_secret);
    }

    /// `username`'s OAuth2 token in the app `app_name` resolves to.
    pub fn get_o_auth2_token_for_app(&self, app_name: &str, username: &str) -> (r: Option<Token>)
        ensures
            opt_tok(r) == oauth2_of(self@, app_name@, username@),
    {
        match self.read_index(app_name) {
            None => None,
            Some(i) => {
                let toks = &self.apps[i].1.o_auth2_tokens;
                proof {
                    lemma_names_tokens(toks@);
                }
                match find_key(toks, username) {
                    Some(j) => Some(toks[j].1.duplicate()),
                    None => None,
                }
            },
        }
    }

    /// `username`'s OAuth2 token in the default app.
    pub fn get_o_auth2_token(&self, username: &str) -> (r: Option<Token>)
        ensures
            opt_tok(r) == oauth2_of(self@, Seq::empty(), username@),
    {
        proof {
            reveal_strlit("");
        }
        self.get_o_auth2_token_for_app("", username)
    }

    /// The unnamed OAuth2 token of the app `app_name` resolves to.
    pub fn get_o_auth2_token_unnamed_for_app(&self, app_name: &str) -> (r: Option<Token>)
        ensures
            opt_tok(r) == (match resolved_app(self@, app_name@) {
                Some(a) => a.o_auth2_unnamed,
                None => None,
            }),
    {
        match self.read_index(app_name) {
            None => None,
            Some(i) => dup_opt(&self.apps[i].1.o_auth2_unnamed),
        }
    }

    /// The default user's OAuth2 token, or else the first stored one, of the
    /// app `app_name` resolves to.
    pub fn get_first_o_auth2_token_for_app(&self, app_name: &str) -> (r: Option<Token>)
        ensures
            opt_tok(r) == (match resolved_app(self@, app_name@) {
                Some(a) => first_oauth2(a),
                None => None,
            }),
    {
        match self.read_index(app_name) {
            None => None,
            Some(i) => {
                let a = &self.apps[i].1;
                proof {
                    lemma_names_tokens(a.o_auth2_tokens@);
                }
                if !a.default_user.as_str().is_empty() {
                    if let Some(j) = find_key(&a.o_auth2_tokens, a.default_user.as_str()) {
                        return Some(a.o_auth2_tokens[j].1.duplicate());
                    }
                }
                if a.o_auth2_tokens.len() > 0 {
                    Some(a.o_auth2_tokens[0].1.duplicate())
                } else {
                    None
                }
            },
        }
    }

    /// The default user's OAuth2 token, or else the first stored one, of the
    /// default app.
    pub fn get_first_o_auth2_token(&self) -> (r: Option<Token>)
        ensures
            opt_tok(r) == (match resolved_app(self@, Seq::empty()) {
                Some(a) => first_oauth2(a),
                None => None,
            }),
    {
        proof {
            reveal_strlit("");
        }
        self.get_first_o_auth2_token_for_app("")
    }

    /// The OAuth1 credentials of the app `app_name` resolves to.
    pub fn get_o_auth1_tokens_for_app(&self, app_name: &str) -> (r: Option<Token>)
        ensures
            opt_tok(r) == (match resolved_app(self@, app_name@) {
                Some(a) => a.o_auth1_token,
                None => None,
            }),
    {
        match self.read_index(app_name) {
            None => None,
            Some(i) => dup_opt(&self.apps[i].1.o_auth1_token),
        }
    }

    /// The OAuth1 credentials of the default app.
    pub fn get_o_auth1_tokens(&self) -> (r: Option<Token>)
        ensures
            opt_tok(r) == (match resolved_app(self@, Seq::empty()) {
                Some(a) => a.o_auth1_token,
                None => None,
            }),
    {
        proof {
            reveal_strlit("");
        }
        self.get_o_auth1_tokens_for_app("")
    }

    /// The bearer token of the app `app_name` resolves to.
    pub fn get_bearer_token_for_app(&self, app_name: &str) -> (r: Option<Token>)
        ensures
            opt_tok(r) == (match resolved_app(self@, app_name@) {
                Some(a) => a.bearer_token,
                None => None,
            }),
    {
        match self.read_index(app_name) {
            None => None,
            Some(i) => dup_opt(&self.apps[i].1.bearer_token),
        }
    }

    /// The bearer token of the default app.
    pub fn get_bearer_token(&self) -> (r: Option<Token>)
        ensures
            opt_tok(r) == (match resolved_app(self@, Seq::empty()) {
                Some(a) => a.bearer_token,
                None => None,
            }),
    {
        proof {
            reveal_strlit("");
        }
        self.get_bearer_token_for_app("")
    }

    /// The default app holds OAuth1 credentials.
    pub fn has_o_auth1_tokens(&self) -> (r: bool)
        ensures
            r == (match resolved_app(self@, Seq::empty()) {
                Some(a) => a.o_auth1_token is Some,
                None => false,
            }),
    {
        proof {
            reveal_strlit("");
        }
        match self.read_index("") {
            None => false,
            Some(i) => self.apps[i].1.o_auth1_token.is_some(),
        }
    }

    /// The default app holds a bearer token.
    pub fn has_bearer_token(&self) -> (r: bool)
        ensures
            r == (match resolved_app(self@, Seq::empty()) {
                Some(a) => a.bearer_token is Some,
                None => false,
            }),
    {
        proof {
            reveal_strlit("");
        }
        match self.read_index("") {
            None => false,
            Some(i) => self.apps[i].1.bearer_token.is_some(),
        }
    }
}

impl TokenStore {
    /// Removes `username`'s OAuth2 token from the app `app_name` resolves to.
    pub fn clear_o_auth2_token_for_app(&mut self, app_name: &str, username: &str)
        ensures
            unique_names(old(self)@) ==> unique_names(final(self)@),
            final(self)@ == modify_app(
                old(self)@,
                app_name@,
                |a: AppV| set_oauth2_tokens(a, remove_key(a.o_auth2_tokens, username@)),
            ),
    {
        let i = self.write_index(app_name);
        let mut a = self.app_at(i);
        let ghost before = tokens_view(a.o_auth2_tokens@);
        let mut kept: Vec<(String, Token)> = Vec::new();
        let mut j: usize = 0;
        let n = a.o_auth2_tokens.len();
        while j < n
            invariant
                n == a.o_auth2_tokens.len(),
                j <= n,
                before == tokens_view(a.o_auth2_tokens@),
                tokens_view(kept@) == remove_key(before.subrange(0, j as int), username@),
            decreases n - j,
        {
            proof {
                assert(before.subrange(0, j + 1).drop_last() =~= before.subrange(0, j as int));
            }
            let e = &a.o_auth2_tokens[j];
            if !str_eq(e.0.as_str(), username) {
                let ghost prev = kept@;
                let entry = (e.0.clone(), e.1.duplicate());
                kept.push(entry);
                proof {
                    assert(tokens_view(kept@) =~= tokens_view(prev).push((entry.0@, entry.1@)));
                }
            }
            j = j + 1;
        }
        proof {
            assert(before.subrange(0, n as int) =~= before);
        }
        a.o_auth2_tokens = kept;
        self.put_app(i, a);
    }

    /// Removes `username`'s OAuth2 token from the default app.
    pub fn clear_o_auth2_token(&mut self, username: &str)
        ensures
            unique_names(old(self)@) ==> unique_names(final(self)@),
            final(self)@ == modify_app(
                old(self)@,
                Seq::empty(),
                |a: AppV| set_oauth2_tokens(a, remove_key(a.o_auth2_tokens, username@)),
            ),
    {
        proof {
            reveal_strlit("");
        }
        self.clear_o_auth2_token_for_app("", username);
    }

    /// Removes the OAuth1 credentials of the app `app_name` resolves to.
    pub fn clear_o_auth1_tokens_for_app(&mut self, app_name: &str)
        ensures
            unique_names(old(self)@) ==> unique_names(final(self)@),
            final(self)@ == modify_app(old(self)@, app_name@, |a: AppV| set_oauth1(a, None)),
    {
        let i = self.write_index(app_name);
        let mut a = self.app_at(i);
        a.o_auth1_token = None;
        self.put_app(i, a);
    }

    /// Removes the OAuth1 credentials of the default app.
    pub fn clear_o_auth1_tokens(&mut self)
        ensures
            unique_names(old(self)@) ==> unique_names(final(self)@),
            final(self)@ == modify_app(old(self)@, Seq::empty(), |a: AppV| set_oauth1(a, None)),
    {
        proof {
            reveal_strlit("");
        }
        self.clear_o_auth1_tokens_for_app("");
    }

    /// Removes the bearer token of the app `app_name` resolves to.
    pub fn clear_bearer_token_for_app(&mut self, app_name: &str)
        ensures
            unique_names(old(self)@) ==> unique_names(final(self)@),
            final(self)@ == modify_app(old(self)@, app_name@, |a: AppV| set_bearer(a, None)),
    {
        let i = self.write_index(app_name);
        let mut a = self.app_at(i);
        a.bearer_token = None;
        self.put_app(i, a);
    }

    /// Removes the bearer token of the default app.
    pub fn clear_bearer_token(&mut self)
        ensures
            unique_names(old(self)@) ==> unique_names(final(self)@),
            final(self)@ == modify_app(old(self)@, Seq::empty(), |a: AppV| set_bearer(a, None)),
    {
        proof {
            reveal_strlit("");
        }
        self.clear_bearer_token_for_app("");
    }

    /// Removes every token of the app `app_name` resolves to; its
    /// credentials and default user stay.
    pub fn clear_all_for_app(&mut self, app_name: &str)
        ensures
            unique_names(old(self)@) ==> unique_names(final(self)@),
            final(self)@ == modify_app(old(self)@, app_name@, |a: AppV| cleared(a)),
    {
        let i = self.write_index(app_name);
        let mut a = self.app_at(i);
        a.o_auth2_tokens = Vec::new();
        a.o_auth2_unnamed = None;
        a.o_auth1_token = None;
        a.bearer_token = None;
        proof {
            assert(tokens_view(a.o_auth2_tokens@) =~= Seq::<(Seq<char>, TokenV)>::empty());
        }
        self.put_app(i, a);
    }

    /// Removes every token of the default app.
    pub fn clear_all(&mut self)
        ensures
            unique_names(old(self)@) ==> unique_names(final(self)@),
            final(self)@ == modify_app(old(self)@, Seq::empty(), |a: AppV| cleared(a)),
    {
        proof {
            reveal_strlit("");
        }
        self.clear_all_for_app("");
    }

    /// The usernames holding OAuth2 tokens in the app `app_name` resolves
    /// to, sorted.
    pub fn get_o_auth2_usernames_for_app(&self, app_name: &str) -> (r: Vec<String>)
        ensures
            sorted(strings_view(r@)),
            strings_view(r@).to_multiset() == (match resolved_app(self@, app_name@) {
                Some(a) => names(a.o_auth2_tokens),
                None => Seq::empty(),
            }).to_multiset(),
    {
        let mut v: Vec<String> = Vec::new();
        match self.read_index(app_name) {
            None => {
                proof {
                    assert(strings_view(v@) =~= Seq::<Seq<char>>::empty());
                }
            },
            Some(i) => {
                let toks = &self.apps[i].1.o_auth2_tokens;
                let ghost ns = names(tokens_view(toks@));
                let mut j: usize = 0;
                while j < toks.len()
                    invariant
                        j <= toks.len(),
                        v.len() == j,
                        ns == names(tokens_view(toks@)),
                        strings_view(v@) == ns.subrange(0, j as int),
                    decreases toks.len() - j,
                {
                    let ghost prev = v@;
                    let k = toks[j].0.clone();
                    v.push(k);
                    proof {
                        assert(v@ == prev.push(k));
                        assert forall|m: int| 0 <= m <= j implies #[trigger] strings_view(v@)[m] == ns[m] by {
                            if m < j {
                                assert(strings_view(v@)[m] == strings_view(prev)[m]);
                                assert(strings_view(prev)[m] == ns.subrange(0, j as int)[m]);
                            }
                        }
                    }
                    j = j + 1;
                    proof {
                        assert(strings_view(v@) =~= ns.subrange(0, j as int));
                    }
                }
                proof {
                    assert(ns.subrange(0, j as int) =~= ns);
                }
            },
        }
        sort_strings(v)
    }

    /// The usernames holding OAuth2 tokens in the default app, sorted.
    pub fn get_o_auth2_usernames(&self) -> (r: Vec<String>)
        ensures
            sorted(strings_view(r@)),
            strings_view(r@).to_multiset() == (match resolved_app(self@, Seq::empty()) {
                Some(a) => names(a.o_auth2_tokens),
                None => Seq::empty(),
            }).to_multiset(),
    {
        proof {
            reveal_strlit("");
        }
        self.get_o_auth2_usernames_for_app("")
    }

    /// Makes `username` the default OAuth2 user of the app `app_name`
    /// resolves to; fails when that app holds no token for `username`.
    pub fn set_default_user(&mut self, app_name: &str, username: &str) -> (r: Result<(), Error>)
        ensures
            unique_names(old(self)@) ==> unique_names(final(self)@),
            token_of(target_app(old(self)@, app_name@).o_auth2_tokens, username@) is None ==> store_err(
                r,
                "user "@ + debug_str(username@) + " not found in app"@,
            ) && final(self)@ == write_store(old(self)@, app_name@),
            token_of(target_app(old(self)@, app_name@).o_auth2_tokens, username@) is Some ==> r is Ok
                && final(self)@ == modify_app(
                old(self)@,
                app_name@,
                |a: AppV| AppV { default_user: username@, ..a },
            ),
    {
        let i = self.write_index(app_name);
        let mut a = self.app_at(i);
        proof {
            lemma_names_tokens(a.o_auth2_tokens@);
        }
        if find_key(&a.o_auth2_tokens, username).is_none() {
            let mut m = owned("user ");
            push_str(&mut m, debug_quoted(username).as_str());
            push_str(&mut m, " not found in app");
            return Err(Error::TokenStore(m));
        }
        a.default_user = owned(username);
        self.put_app(i, a);
        Ok(())
    }

    /// The default OAuth2 user of the app `app_name` resolves to (empty for
    /// none); the store gains an app named `default` as `resolve_app` does.
    pub fn get_default_user(&mut self, app_name: &str) -> (r: String)
        ensures
            unique_names(old(self)@) ==> unique_names(final(self)@),
            final(self)@ == write_store(old(self)@, app_name@),
            r@ == target_app(old(self)@, app_name@).default_user,
    {
        let i = self.write_index(app_name);
        self.apps[i].1.default_user.clone()
    }

    /// The redirect URI registered for the app a read for `app_name` uses;
    /// `None` when there is no such app or it has none.
    pub fn get_app_redirect_uri(&self, app_name: &str) -> (r: Option<String>)
        ensures
            opt_str(r) == (match resolved_app(self@, app_name@) {
                Some(a) => if a.redirect_uri.len() > 0 {
                    Some(a.redirect_uri)
                } else {
                    None
                },
                None => None,
            }),
    {
        match self.read_index(app_name) {
            None => None,
            Some(i) => {
                let u = &self.apps[i].1.redirect_uri;
                if u.as_str().is_empty() {
                    None
                } else {
                    Some(u.clone())
                }
            },
        }
    }

    /// The names of the apps holding some credential, sorted.
    pub fn apps_with_credentials(&self) -> (r: Vec<String>)
        ensures
            sorted(strings_view(r@)),
            strings_view(r@).to_multiset() == credentialed(self@.apps).to_multiset(),
    {
        let mut v: Vec<String> = Vec::new();
        let mut i: usize = 0;
        while i < self.apps.len()
            invariant
                i <= self.apps.len(),
                strings_view(v@) == credentialed(self@.apps.subrange(0, i as int)),
            decreases self.apps.len() - i,
        {
            proof {
                assert(self@.apps.subrange(0, i + 1).drop_last() =~= self@.apps.subrange(0, i as int));
            }
            let a = &self.apps[i].1;
            if a.o_auth2_tokens.len() > 0 || a.o_auth2_unnamed.is_some() || a.o_auth1_token.is_some()
                || a.bearer_token.is_some() {
                let ghost prev = v@;
                let k = self.apps[i].0.clone();
                v.push(k);
                proof {
                    assert(strings_view(v@) =~= strings_view(prev).push(k@));
                }
            }
            i = i + 1;
        }
        proof {
            assert(self@.apps.subrange(0, i as int) =~= self@.apps);
        }
        sort_strings(v)
    }

    /// Fills in the given non-empty client credentials on every app that
    /// holds tokens but lacks them; returns whether any app changed.
    pub fn backfill_credentials(&mut self, client_id: &str, client_secret: &str) -> (dirty: bool)
        ensures
            unique_names(old(self)@) ==> unique_names(final(self)@),
            final(self)@ == (StoreV {
                apps: Seq::new(
                    old(self)@.apps.len(),
                    |k: int| (old(self)@.apps[k].0, backfilled(old(self)@.apps[k].1, client_id@, client_secret@)),
                ),
                ..old(self)@
            }),
            dirty == exists|k: int| 0 <= k < old(self)@.apps.len() && #[trigger] backfilled(old(self)@.apps[k].1, client_id@, client_secret@) != old(self)@.apps[k].1,
    {
        let mut dirty = false;
        let mut i: usize = 0;
        let n = self.apps.len();
        while i < n
            invariant
                n == self.apps.len(),
                n == old(self).apps.len(),
                i <= n,
                self@.default_app == old(self)@.default_app,
                self@.file_path == old(self)@.file_path,
                forall|k: int| 0 <= k < i ==> #[trigger] self@.apps[k] == (old(self)@.apps[k].0, backfilled(old(self)@.apps[k].1, client_id@, client_secret@)),
                forall|k: int| i <= k < n ==> #[trigger] self@.apps[k] == old(self)@.apps[k],
                dirty == exists|k: int| 0 <= k < i && #[trigger] backfilled(old(self)@.apps[k].1, client_id@, client_secret@) != old(self)@.apps[k].1,
            decreases n - i,
        {
            let mut a = self.app_at(i);
            let ghost orig = a@;
            let has_tokens = a.o_auth2_tokens.len() > 0 || a.o_auth1_token.is_some() || a.bearer_token.is_some();
            let mut changed = false;
            if has_tokens && a.client_id.as_str().is_empty() && !client_id.is_empty() {
                a.client_id = owned(client_id);
                changed = true;
            }
            if has_tokens && a.client_secret.as_str().is_empty() && !client_secret.is_empty() {
                a.client_secret = owned(client_secret);
                changed = true;
            }
            proof {
                assert(a@ == backfilled(orig, client_id@, client_secret@));
                assert(changed == (a@ != orig));
            }
            self.put_app(i, a);
            dirty = dirty || changed;
            i = i + 1;
        }
        proof {
            assert(self@.apps =~= Seq::new(
                old(self)@.apps.len(),
                |k: int| (old(self)@.apps[k].0, backfilled(old(self)@.apps[k].1, client_id@, client_secret@)),
            ));
        }
        dirty
    }

    /// After a sign-in to `app_name`: makes that app the default when it is
    /// a registered app other than the default and the default app is
    /// missing or holds no credential. Returns whether it did.
    pub fn promote_to_default_if_first_credentialed(&mut self, app_name: &str) -> (r: bool)
        ensures
            unique_names(old(self)@) ==> unique_names(final(self)@),
            r == promotes(old(self)@, app_name@),
            final(self)@ == (if r {
                StoreV { default_app: app_name@, ..old(self)@ }
            } else {
                old(self)@
            }),
    {
        if app_name.is_empty() || str_eq(app_name, self.default_app.as_str()) {
            return false;
        }
        if self.app_index(app_name).is_none() {
            return false;
        }
        match self.app_index(self.default_app.as_str()) {
            Some(d) => {
                let a = &self.apps[d].1;
                if a.o_auth2_tokens.len() > 0 || a.o_auth2_unnamed.is_some() || a.o_auth1_token.is_some()
                    || a.bearer_token.is_some() {
                    return false;
                }
            },
            None => {},
        }
        self.default_app = owned(app_name);
        true
    }
}

/// The app a write for `name` changes, after the write made room for it.
pub open spec fn target_app(s: StoreV, name: Seq<char>) -> AppV {
    write_store(s, name).apps[write_pos(s, name)].1
}

/// The app without any token.
pub open spec fn cleared(a: AppV) -> AppV {
    AppV { o_auth2_tokens: Seq::empty(), o_auth2_unnamed: None, o_auth1_token: None, bearer_token: None, ..a }
}

/// The names of the apps holding some credential, in store order.
pub open spec fn credentialed(apps: Seq<(Seq<char>, AppV)>) -> Seq<Seq<char>>
    decreases apps.len(),
{
    if apps.len() == 0 {
        Seq::empty()
    } else if has_credentials(apps.last().1) {
        credentialed(apps.drop_last()).push(apps.last().0)
    } else {
        credentialed(apps.drop_last())
    }
}

/// The app with the given non-empty credentials filled in where it holds
/// tokens but lacks them.
pub open spec fn backfilled(a: AppV, client_id: Seq<char>, client_secret: Seq<char>) -> AppV {
    let has_tokens = a.o_auth2_tokens.len() > 0 || a.o_auth1_token is Some || a.bearer_token is Some;
    AppV {
        client_id: if has_tokens && a.client_id.len() == 0 && client_id.len() > 0 {
            client_id
        } else {
            a.client_id
        },
        client_secret: if has_tokens && a.client_secret.len() == 0 && client_secret.len() > 0 {
            client_secret
        } else {
            a.client_secret
        },
        ..a
    }
}

/// A sign-in to `app` makes it the default.
pub open spec fn promotes(s: StoreV, app: Seq<char>) -> bool {
    &&& app.len() > 0
    &&& app != s.default_app
    &&& app_pos(s, app) >= 0
    &&& (app_pos(s, s.default_app) < 0 || !has_credentials(s.apps[app_pos(s, s.default_app)].1))
}

/// The app with its bearer token replaced.
pub open spec fn set_bearer(a: AppV, t: Option<TokenV>) -> AppV {
    AppV { bearer_token: t, ..a }
}

/// The app with its OAuth1 credentials replaced.
pub open spec fn set_oauth1(a: AppV, t: Option<TokenV>) -> AppV {
    AppV { o_auth1_token: t, ..a }
}

/// The app with its unnamed OAuth2 token replaced.
pub open spec fn set_unnamed(a: AppV, t: Option<TokenV>) -> AppV {
    AppV { o_auth2_unnamed: t, ..a }
}

/// The app with its named OAuth2 tokens replaced.
pub open spec fn set_oauth2_tokens(a: AppV, toks: Seq<(Seq<char>, TokenV)>) -> AppV {
    AppV { o_auth2_tokens: toks, ..a }
}

/// `username`'s OAuth2 token in the app a read for `app` uses.
pub open spec fn oauth2_of(s: StoreV, app: Seq<char>, username: Seq<char>) -> Option<TokenV> {
    match resolved_app(s, app) {
        Some(a) => token_of(a.o_auth2_tokens, username),
        None => None,
    }
}

/// A bearer token.
fn new_bearer_token(token: &str) -> (t: Token)
    ensures
        t@ == bearer_tok(token@),
{
    Token { token_type: TokenType::Bearer, bearer: Some(owned(token)), o_auth2: None, o_auth1: None }
}

/// An OAuth2 token.
fn new_oauth2_token(access_token: &str, refresh_token: &str, expiration_time: u64) -> (t: Token)
    ensures
        t@ == oauth2_tok(access_token@, refresh_token@, expiration_time),
{
    Token {
        token_type: TokenType::OAuth2,
        bearer: None,
        o_auth2: Some(
            OAuth2Token {
                access_token: owned(access_token),
                refresh_token: owned(refresh_token),
                expiration_time,
            },
        ),
        o_auth1: None,
    }
}

/// OAuth1 credentials.
fn new_oauth1_token(access_token: &str, token_secret: &str, consumer_key: &str, consumer_secret: &str) -> (t: Token)
    ensures
        t@ == oauth1_tok(access_token@, token_secret@, consumer_key@, consumer_secret@),
{
    Token {
        token_type: TokenType::OAuth1,
        bearer: None,
        o_auth2: None,
        o_auth1: Some(
            OAuth1Token {
                access_token: owned(access_token),
                token_secret: owned(token_secret),
                consumer_key: owned(consumer_key),
                consumer_secret: owned(consumer_secret),
            },
        ),
    }
}

impl Token {
    /// A field-by-field copy.
    pub fn duplicate(&self) -> (r: Token)
        ensures
            r@ == self@,
    {
        Token {
            token_type: self.token_type,
            bearer: match &self.bearer {
                Some(b) => Some(b.clone()),
                None => None,
            },
            o_auth2: match &self.o_auth2 {
                Some(t) => Some(
                    OAuth2Token {
                        access_token: t.access_token.clone(),
                        refresh_token: t.refresh_token.clone(),
                        expiration_time: t.expiration_time,
                    },
                ),
                None => None,
            },
            o_auth1: match &self.o_auth1 {
                Some(t) => Some(
                    OAuth1Token {
                        access_token: t.access_token.clone(),
                        token_secret: t.token_secret.clone(),
                        consumer_key: t.consumer_key.clone(),
                        consumer_secret: t.consumer_secret.clone(),
                    },
                ),
                None => None,
            },
        }
    }
}

/// A copy of an optional token.
fn dup_opt(t: &Option<Token>) -> (r: Option<Token>)
    ensures
        opt_tok(r) == opt_tok(*t),
{
    match t {
        Some(x) => Some(x.duplicate()),
        None => None,
    }
}

impl App {
    /// A field-by-field copy.
    pub fn duplicate(&self) -> (r: App)
        ensures
            r@ == self@,
    {
        let mut toks: Vec<(String, Token)> = Vec::new();
        let mut i: usize = 0;
        while i < self.o_auth2_tokens.len()
            invariant
                i <= self.o_auth2_tokens.len(),
                toks.len() == i,
                tokens_view(toks@) == tokens_view(self.o_auth2_tokens@).subrange(0, i as int),
            decreases self.o_auth2_tokens.len() - i,
        {
            let ghost prev = toks@;
            let e = &self.o_auth2_tokens[i];
            let entry = (e.0.clone(), e.1.duplicate());
            toks.push(entry);
            proof {
                assert(toks@ == prev.push(entry));
                assert forall|j: int| 0 <= j <= i implies #[trigger] tokens_view(toks@)[j] == tokens_view(
                    self.o_auth2_tokens@,
                )[j] by {
                    if j < i {
                        assert(tokens_view(toks@)[j] == tokens_view(prev)[j]);
                        assert(tokens_view(prev)[j] == tokens_view(self.o_auth2_tokens@).subrange(0, i as int)[j]);
                    }
                }
            }
            i = i + 1;
            proof {
                assert(tokens_view(toks@) =~= tokens_view(self.o_auth2_tokens@).subrange(0, i as int));
            }
        }
        proof {
            assert(tokens_view(self.o_auth2_tokens@).subrange(0, i as int) =~= tokens_view(
                self.o_auth2_tokens@,
            ));
        }
        App {
            client_id: self.client_id.clone(),
            client_secret: self.client_secret.clone(),
            default_user: self.default_user.clone(),
            redirect_uri: self.redirect_uri.clone(),
            o_auth2_tokens: toks,
            o_auth2_unnamed: dup_opt(&self.o_auth2_unnamed),
            o_auth1_token: dup_opt(&self.o_auth1_token),
            bearer_token: dup_opt(&self.bearer_token),
        }
    }
}

/// `r` is the token-store error with message `m`.
pub open spec fn store_err<T>(r: Result<T, Error>, m: Seq<char>) -> bool {
    r matches Err(Error::TokenStore(x)) && x@ == m
}

/// `app "<name>"` followed by `rest`.
pub open spec fn msg_app(name: Seq<char>, rest: Seq<char>) -> Seq<char> {
    "app "@ + debug_str(name) + rest
}

/// Builds `app "<name>"` (the name quoted as `{:?}` quotes it) followed by `rest`.
fn app_message(name: &str, rest: &str) -> (m: String)
    ensures
        m@ == msg_app(name@, rest@),
{
    let mut m = owned("app ");
    push_str(&mut m, debug_quoted(name).as_str());
    push_str(&mut m, rest);
    m
}

/// The store with the app at `i` given the non-empty credentials.
pub open spec fn update_creds(s: StoreV, i: int, client_id: Seq<char>, client_secret: Seq<char>) -> StoreV {
    let a = s.apps[i].1;
    let b = AppV {
        client_id: if client_id.len() > 0 { client_id } else { a.client_id },
        client_secret: if client_secret.len() > 0 { client_secret } else { a.client_secret },
        ..a
    };
    StoreV { apps: s.apps.update(i, (s.apps[i].0, b)), ..s }
}

/// The store without the app named `name`; a removed default passes to the
/// first remaining app, or to none.
pub open spec fn without_app(s: StoreV, name: Seq<char>) -> StoreV {
    let rest = s.apps.remove(app_pos(s, name));
    StoreV {
        apps: rest,
        default_app: if s.default_app != name {
            s.default_app
        } else if rest.len() > 0 {
            rest[0].0
        } else {
            Seq::empty()
        },
        file_path: s.file_path,
    }
}

// ── Laws ─────────────────────────────────────────────────────────────

/// Appending a key leaves earlier hits in place and finds the new key last.
proof fn lemma_key_pos_push(keys: Seq<Seq<char>>, x: Seq<char>, k: Seq<char>)
    ensures
        key_pos(keys.push(x), k) == (if key_pos(keys, k) >= 0 {
            key_pos(keys, k)
        } else if x == k {
            keys.len() as int
        } else {
            -1
        }),
{
    lemma_key_pos(keys, k);
    let ks = keys.push(x);
    if key_pos(keys, k) >= 0 {
        crate::order::lemma_key_pos_at(ks, k, key_pos(keys, k));
    } else if x == k {
        crate::order::lemma_key_pos_at(ks, k, keys.len() as int);
    } else {
        crate::order::lemma_key_pos_at(ks, k, ks.len() as int);
    }
}

/// Replacing an entry with one of the same name keeps every name's position.
proof fn lemma_names_update<V>(s: Seq<(Seq<char>, V)>, i: int, e: (Seq<char>, V), k: Seq<char>)
    requires
        0 <= i < s.len(),
        e.0 == s[i].0,
    ensures
        key_pos(names(s.update(i, e)), k) == key_pos(names(s), k),
{
    lemma_key_pos_same(names(s.update(i, e)), names(s), k);
}

/// The client credentials of the app a read for `name` uses; empty when
/// there is none.
pub open spec fn read_creds(s: StoreV, name: Seq<char>) -> (Seq<char>, Seq<char>) {
    match resolved_app(s, name) {
        Some(a) => (a.client_id, a.client_secret),
        None => (Seq::empty(), Seq::empty()),
    }
}

/// Where a write can be read back: `name` resolves already, or the store's
/// default is unset or `default` (the app a failed resolution writes to).
pub open spec fn readable_after_write(s: StoreV, name: Seq<char>) -> bool {
    resolved(s, name) >= 0 || s.default_app.len() == 0 || s.default_app == "default"@
}

/// After a write for `name` has made room, reads for `name` use the app it wrote.
proof fn lemma_write_resolves(s: StoreV, name: Seq<char>)
    requires
        readable_after_write(s, name),
    ensures
        0 <= write_pos(s, name) < write_store(s, name).apps.len(),
        resolved(write_store(s, name), name) == write_pos(s, name),
        write_store(s, name).apps[write_pos(s, name)].0 == (if resolved(s, name) >= 0 {
            s.apps[resolved(s, name)].0
        } else {
            "default"@
        }),
{
    lemma_key_pos(names(s.apps), name);
    lemma_key_pos(names(s.apps), s.default_app);
    if resolved(s, name) < 0 {
        let t = write_store(s, name);
        let p = app_pos(s, "default"@);
        let entry = ("default"@, fresh_app(Seq::empty(), Seq::empty()));
        lemma_key_pos(names(s.apps), "default"@);
        if p >= 0 {
            lemma_names_update(s.apps, p, entry, name);
            lemma_names_update(s.apps, p, entry, "default"@);
        } else {
            assert(names(t.apps) =~= names(s.apps).push("default"@));
            lemma_key_pos_push(names(s.apps), "default"@, name);
            lemma_key_pos_push(names(s.apps), "default"@, "default"@);
        }
        lemma_key_pos(names(t.apps), "default"@);
    }
}

/// A write for `name` changes only the app it targets; every name keeps its position.
proof fn lemma_modify_positions(s: StoreV, name: Seq<char>, f: spec_fn(AppV) -> AppV, k: Seq<char>)
    requires
        readable_after_write(s, name),
    ensures
        app_pos(modify_app(s, name, f), k) == app_pos(write_store(s, name), k),
        modify_app(s, name, f).default_app == write_store(s, name).default_app,
{
    lemma_write_resolves(s, name);
    let t = write_store(s, name);
    let i = write_pos(s, name);
    lemma_names_update(t.apps, i, (t.apps[i].0, f(t.apps[i].1)), k);
}

/// The app a read for `name` uses after a write for `name`: the written one.
pub proof fn lemma_read_after_write(s: StoreV, name: Seq<char>, f: spec_fn(AppV) -> AppV)
    requires
        readable_after_write(s, name),
    ensures
        resolved_app(modify_app(s, name, f), name) == Some(f(target_app(s, name))),
{
    lemma_write_resolves(s, name);
    lemma_modify_positions(s, name, f, name);
    let t = modify_app(s, name, f);
    lemma_modify_positions(s, name, f, t.default_app);
}

/// The token saved for a name is the one found for it.
proof fn lemma_upsert_found(toks: Seq<(Seq<char>, TokenV)>, k: Seq<char>, t: TokenV)
    ensures
        token_of(upsert(toks, k, t), k) == Some(t),
{
    let p = key_pos(names(toks), k);
    lemma_key_pos(names(toks), k);
    if p >= 0 {
        lemma_names_update(toks, p, (k, t), k);
    } else {
        assert(names(toks.push((k, t))) =~= names(toks).push(k));
        lemma_key_pos_push(names(toks), k, k);
    }
}

/// No entry named `k` is left after removing `k`.
proof fn lemma_remove_key_absent<V>(s: Seq<(Seq<char>, V)>, k: Seq<char>)
    ensures
        key_pos(names(remove_key(s, k)), k) == -1,
        forall|j: int| 0 <= j < remove_key(s, k).len() ==> #[trigger] remove_key(s, k)[j].0 != k,
    decreases s.len(),
{
    if s.len() > 0 {
        lemma_remove_key_absent(s.drop_last(), k);
        let r = remove_key(s, k);
        let q = remove_key(s.drop_last(), k);
        if s.last().0 != k {
            assert forall|j: int| 0 <= j < r.len() implies #[trigger] r[j].0 != k by {
                if j < q.len() {
                    assert(r[j] == q[j]);
                }
            }
        }
    }
    let r = remove_key(s, k);
    crate::order::lemma_key_pos_at(names(r), k, r.len() as int);
}

/// Saving a user's OAuth2 token, then reading that user's token from the
/// same app, gives the saved token back.
pub proof fn law_oauth2_save_then_get(
    s: StoreV,
    app: Seq<char>,
    user: Seq<char>,
    access: Seq<char>,
    refresh: Seq<char>,
    exp: u64,
)
    requires
        readable_after_write(s, app),
    ensures
        oauth2_of(
            modify_app(
                s,
                app,
                |a: AppV| set_oauth2_tokens(a, upsert(a.o_auth2_tokens, user, oauth2_tok(access, refresh, exp))),
            ),
            app,
            user,
        ) == Some(oauth2_tok(access, refresh, exp)),
{
    let f = |a: AppV| set_oauth2_tokens(a, upsert(a.o_auth2_tokens, user, oauth2_tok(access, refresh, exp)));
    lemma_read_after_write(s, app, f);
    lemma_upsert_found(target_app(s, app).o_auth2_tokens, user, oauth2_tok(access, refresh, exp));
}

/// In an app whose default user has a saved OAuth2 token, that token is
/// the app's first OAuth2 token, whichever tokens were saved before it.
pub proof fn law_default_user_token_first(a: AppV, t: TokenV)
    requires
        a.default_user.len() > 0,
        token_of(a.o_auth2_tokens, a.default_user) == Some(t),
    ensures
        first_oauth2(a) == Some(t),
{
}

/// Saving `user`'s OAuth2 token in an app and then making `user` the app's
/// default user makes that token the one the app's first-token read gives,
/// also when other users' tokens were saved before.
pub proof fn law_default_user_token_wins(
    s: StoreV,
    app: Seq<char>,
    user: Seq<char>,
    access: Seq<char>,
    refresh: Seq<char>,
    exp: u64,
)
    requires
        readable_after_write(s, app),
        user.len() > 0,
    ensures
        ({
            let s1 = modify_app(
                s,
                app,
                |a: AppV| set_oauth2_tokens(a, upsert(a.o_auth2_tokens, user, oauth2_tok(access, refresh, exp))),
            );
            &&& token_of(target_app(s1, app).o_auth2_tokens, user) is Some
            &&& resolved_app(modify_app(s1, app, |a: AppV| AppV { default_user: user, ..a }), app) matches Some(b)
                && first_oauth2(b) == Some(oauth2_tok(access, refresh, exp))
        }),
{
    let tok = oauth2_tok(access, refresh, exp);
    let f = |a: AppV| set_oauth2_tokens(a, upsert(a.o_auth2_tokens, user, tok));
    let g = |a: AppV| AppV { default_user: user, ..a };
    let s1 = modify_app(s, app, f);
    lemma_read_after_write(s, app, f);
    let t1 = f(target_app(s, app));
    assert(resolved(s1, app) >= 0);
    assert(target_app(s1, app) == t1);
    lemma_upsert_found(target_app(s, app).o_auth2_tokens, user, tok);
    assert(readable_after_write(s1, app));
    lemma_read_after_write(s1, app, g);
    let b = g(t1);
    assert(token_of(b.o_auth2_tokens, b.default_user) == Some(tok));
    assert(modify_app(s1, app, |a: AppV| AppV { default_user: user, ..a }) == modify_app(s1, app, g));
}

/// After clearing a user's OAuth2 token, reading it from the same app finds none.
pub proof fn law_oauth2_clear_then_get(s: StoreV, app: Seq<char>, user: Seq<char>)
    requires
        readable_after_write(s, app),
    ensures
        oauth2_of(
            modify_app(s, app, |a: AppV| set_oauth2_tokens(a, remove_key(a.o_auth2_tokens, user))),
            app,
            user,
        ) is None,
{
    let f = |a: AppV| set_oauth2_tokens(a, remove_key(a.o_auth2_tokens, user));
    lemma_read_after_write(s, app, f);
    lemma_remove_key_absent(target_app(s, app).o_auth2_tokens, user);
}

/// Saving a bearer token, then reading the same app's bearer token, gives it back.
pub proof fn law_bearer_save_then_get(s: StoreV, app: Seq<char>, token: Seq<char>)
    requires
        readable_after_write(s, app),
    ensures
        resolved_app(modify_app(s, app, |a: AppV| set_bearer(a, Some(bearer_tok(token)))), app)
            matches Some(a) && a.bearer_token == Some(bearer_tok(token)),
{
    lemma_read_after_write(s, app, |a: AppV| set_bearer(a, Some(bearer_tok(token))));
}

/// Saving OAuth1 credentials, then reading the same app's, gives them back.
pub proof fn law_oauth1_save_then_get(
    s: StoreV,
    app: Seq<char>,
    at: Seq<char>,
    ts: Seq<char>,
    ck: Seq<char>,
    cs: Seq<char>,
)
    requires
        readable_after_write(s, app),
    ensures
        resolved_app(modify_app(s, app, |a: AppV| set_oauth1(a, Some(oauth1_tok(at, ts, ck, cs)))), app)
            matches Some(a) && a.o_auth1_token == Some(oauth1_tok(at, ts, ck, cs)),
{
    lemma_read_after_write(s, app, |a: AppV| set_oauth1(a, Some(oauth1_tok(at, ts, ck, cs))));
}

/// After clearing an app, it holds no credential.
pub proof fn law_clear_all_empties(s: StoreV, app: Seq<char>)
    requires
        readable_after_write(s, app),
    ensures
        resolved_app(modify_app(s, app, |a: AppV| cleared(a)), app) matches Some(a) && !has_credentials(a),
{
    lemma_read_after_write(s, app, |a: AppV| cleared(a));
}

/// A write that resolves to a registered app leaves every other registered
/// app as it was.
pub proof fn law_write_isolated(s: StoreV, app: Seq<char>, other: Seq<char>, f: spec_fn(AppV) -> AppV)
    requires
        resolved(s, app) >= 0,
        app_pos(s, other) >= 0,
        app_pos(s, other) != resolved(s, app),
    ensures
        app_pos(modify_app(s, app, f), other) == app_pos(s, other),
        modify_app(s, app, f).apps[app_pos(s, other)] == s.apps[app_pos(s, other)],
{
    lemma_key_pos(names(s.apps), other);
    lemma_key_pos(names(s.apps), app);
    lemma_key_pos(names(s.apps), s.default_app);
    assert(names(s.apps).len() == s.apps.len());
    assert(write_store(s, app) == s);
    assert(write_pos(s, app) == resolved(s, app));
    lemma_modify_positions(s, app, f, other);
}

/// No two apps share a name.
pub open spec fn unique_names(s: StoreV) -> bool {
    forall|i: int, j: int| 0 <= i < j < s.apps.len() ==> s.apps[i].0 != s.apps[j].0
}

/// Resolving a write target keeps app names unique.
proof fn lemma_write_store_unique(s: StoreV, name: Seq<char>)
    requires
        unique_names(s),
    ensures
        unique_names(write_store(s, name)),
{
    let t = write_store(s, name);
    lemma_key_pos(names(s.apps), name);
    lemma_key_pos(names(s.apps), s.default_app);
    lemma_key_pos(names(s.apps), "default"@);
    assert(names(s.apps).len() == s.apps.len());
    if resolved(s, name) < 0 {
        let p = app_pos(s, "default"@);
        if p >= 0 {
            assert(names(s.apps)[p] == "default"@);
            assert forall|a: int, b: int| 0 <= a < b < t.apps.len() implies t.apps[a].0 != t.apps[b].0 by {
                assert(t.apps[a].0 == s.apps[a].0);
                assert(t.apps[b].0 == s.apps[b].0);
            }
        } else {
            assert forall|a: int, b: int| 0 <= a < b < t.apps.len() implies t.apps[a].0 != t.apps[b].0 by {
                if b == s.apps.len() {
                    assert(names(s.apps)[a] != "default"@);
                } else {
                    assert(t.apps[a] == s.apps[a] && t.apps[b] == s.apps[b]);
                }
            }
        }
    }
}

/// Every write through `modify_app` (each save, clear and default-user
/// change) keeps app names unique, also when it has to add the app
/// `default`.
pub proof fn law_writes_keep_names_unique(s: StoreV, name: Seq<char>, f: spec_fn(AppV) -> AppV)
    requires
        unique_names(s),
    ensures
        unique_names(modify_app(s, name, f)),
{
    let t = write_store(s, name);
    lemma_write_store_unique(s, name);
    lemma_key_pos(names(s.apps), name);
    lemma_key_pos(names(s.apps), s.default_app);
    lemma_key_pos(names(s.apps), "default"@);
    assert(names(s.apps).len() == s.apps.len());
    assert(unique_names(t));
    lemma_key_pos(names(t.apps), "default"@);
    assert(names(t.apps).len() == t.apps.len());
    let i = write_pos(s, name);
    if resolved(s, name) < 0 {
        assert(names(t.apps)[t.apps.len() - 1] == t.apps[t.apps.len() - 1].0);
        if app_pos(s, "default"@) >= 0 {
            assert(names(t.apps)[app_pos(s, "default"@)] == "default"@);
        } else {
            assert(t.apps[t.apps.len() - 1].0 == "default"@);
        }
    }
    assert(0 <= i < t.apps.len());
    let m = modify_app(s, name, f);
    assert forall|a: int, b: int| 0 <= a < b < m.apps.len() implies m.apps[a].0 != m.apps[b].0 by {
        assert(m.apps[a].0 == t.apps[a].0);
        assert(m.apps[b].0 == t.apps[b].0);
    }
}

/// Registering an app keeps names unique, and the new app is then found
/// under its name, with the given credentials and no tokens.
pub proof fn law_add_then_get(s: StoreV, name: Seq<char>, cid: Seq<char>, csec: Seq<char>)
    requires
        unique_names(s),
        app_pos(s, name) < 0,
    ensures
        ({
            let t = StoreV {
                apps: s.apps.push((name, fresh_app(cid, csec))),
                default_app: if s.apps.len() == 0 {
                    name
                } else {
                    s.default_app
                },
                file_path: s.file_path,
            };
            &&& unique_names(t)
            &&& app_pos(t, name) >= 0
            &&& t.apps[app_pos(t, name)].1 == fresh_app(cid, csec)
        }),
{
    let t = StoreV {
        apps: s.apps.push((name, fresh_app(cid, csec))),
        default_app: if s.apps.len() == 0 {
            name
        } else {
            s.default_app
        },
        file_path: s.file_path,
    };
    assert(names(t.apps) =~= names(s.apps).push(name));
    lemma_key_pos_push(names(s.apps), name, name);
    lemma_key_pos(names(s.apps), name);
    assert forall|i: int, j: int| 0 <= i < j < t.apps.len() implies t.apps[i].0 != t.apps[j].0 by {
        if j == s.apps.len() {
            assert(names(s.apps)[i] == s.apps[i].0);
        }
    }
}

/// Removing an app from a store with unique names leaves no app of that
/// name, keeps names unique, and leaves a default that is empty or registered
/// whenever it was before.
pub proof fn law_remove_then_absent(s: StoreV, name: Seq<char>)
    requires
        unique_names(s),
        app_pos(s, name) >= 0,
    ensures
        app_pos(without_app(s, name), name) < 0,
        unique_names(without_app(s, name)),
        (s.default_app == name || app_pos(s, s.default_app) >= 0) ==> (without_app(s, name).default_app.len()
            == 0 || app_pos(without_app(s, name), without_app(s, name).default_app) >= 0),
{
    let t = without_app(s, name);
    let p = app_pos(s, name);
    lemma_key_pos(names(s.apps), name);
    lemma_key_pos(names(s.apps), s.default_app);
    assert forall|j: int| 0 <= j < t.apps.len() implies names(t.apps)[j] != name by {
        if j < p {
            assert(t.apps[j] == s.apps[j]);
        } else {
            assert(t.apps[j] == s.apps[j + 1]);
        }
    }
    crate::order::lemma_key_pos_at(names(t.apps), name, t.apps.len() as int);
    if t.default_app.len() > 0 {
        let d = t.default_app;
        if s.default_app == name {
            assert(d == t.apps[0].0);
            crate::order::lemma_key_pos_at(names(t.apps), d, 0);
        } else if app_pos(s, s.default_app) >= 0 {
            let q = app_pos(s, d);
            assert(q != p);
            if q < p {
                assert forall|j: int| 0 <= j < q implies names(t.apps)[j] != d by {
                    assert(t.apps[j] == s.apps[j]);
                }
                crate::order::lemma_key_pos_at(names(t.apps), d, q);
            } else {
                assert forall|j: int| 0 <= j < q - 1 implies names(t.apps)[j] != d by {
                    if j < p {
                        assert(t.apps[j] == s.apps[j]);
                    } else {
                        assert(t.apps[j] == s.apps[j + 1]);
                    }
                }
                assert(t.apps[q - 1] == s.apps[q]);
                crate::order::lemma_key_pos_at(names(t.apps), d, q - 1);
            }
        }
    }
}

} // verus!
