//! Request descriptions: where a request goes and how it is authorised.

use vstd::prelude::*;

verus! {

/// Default request timeout in seconds when none is supplied.
pub const DEFAULT_TIMEOUT_SECS: u64 = 30;

/// Typed target for an HTTP request.
///
/// Either a template path with substitutable `{name}` segments plus an
/// ordered query list (`Template`), or a fully-formed URL that bypasses the
/// auth matrix (`RawUrl`).
#[derive(Debug, Clone)]
pub enum RequestTarget {
    /// API path template, e.g. `"/2/users/{id}/likes"`, with the values of
    /// its `{name}` segments and the query pairs in render order.
    Template {
        /// Path template containing `{name}` segments to substitute.
        path: String,
        /// `(name, value)` pairs for the `{name}` segments; the first pair
        /// with a given name is the one used.
        path_params: Vec<(String, String)>,
        /// Ordered query parameters, percent-encoded and joined with `&`.
        query: Vec<(String, String)>,
    },
    /// Fully-formed URL used by raw mode.
    RawUrl(String),
}

/// The model of a list of string pairs.
pub open spec fn pairs_view(v: Seq<(String, String)>) -> Seq<(Seq<char>, Seq<char>)> {
    Seq::new(v.len(), |i: int| (v[i].0@, v[i].1@))
}

/// The empty template target.
pub open spec fn is_empty_template(t: RequestTarget) -> bool {
    match t {
        RequestTarget::Template { path, path_params, query } => path@.len() == 0
            && path_params@.len() == 0 && query@.len() == 0,
        RequestTarget::RawUrl(_) => false,
    }
}

impl Default for RequestTarget {
    fn default() -> (t: Self)
        ensures
            is_empty_template(t),
    {
        RequestTarget::Template { path: String::new(), path_params: Vec::new(), query: Vec::new() }
    }
}

/// Common options for API requests.
#[derive(Debug, Clone)]
pub struct RequestOptions {
    /// HTTP method; empty means `GET` (or `POST` for multipart).
    pub method: String,
    /// Where the request goes.
    pub target: RequestTarget,
    /// Extra headers in `"Name: Value"` form.
    pub headers: Vec<String>,
    /// Request body.
    pub data: String,
    /// Explicit auth scheme (`oauth1`, `oauth2`, `app`) or empty for auto-detect.
    pub auth_type: String,
    /// OAuth2 username; empty selects the active app's first token.
    pub username: String,
    /// Skip the Authorization header entirely.
    pub no_auth: bool,
    /// Log request and response details.
    pub verbose: bool,
    /// Send the `X-B3-Flags: 1` tracing header.
    pub trace: bool,
    /// Cursor for list endpoints.
    pub pagination_token: String,
}

/// Options with every field empty, false, or the empty template.
pub open spec fn is_default_request(o: RequestOptions) -> bool {
    &&& o.method@.len() == 0
    &&& is_empty_template(o.target)
    &&& o.headers@.len() == 0
    &&& o.data@.len() == 0
    &&& o.auth_type@.len() == 0
    &&& o.username@.len() == 0
    &&& !o.no_auth
    &&& !o.verbose
    &&& !o.trace
    &&& o.pagination_token@.len() == 0
}

impl Default for RequestOptions {
    fn default() -> (o: Self)
        ensures
            is_default_request(o),
    {
        RequestOptions {
            method: String::new(),
            target: RequestTarget::default(),
            headers: Vec::new(),
            data: String::new(),
            auth_type: String::new(),
            username: String::new(),
            no_auth: false,
            verbose: false,
            trace: false,
            pagination_token: String::new(),
        }
    }
}

/// Consumer-facing options for shortcut methods.
#[derive(Debug, Clone)]
pub struct CallOptions {
    /// Explicit auth scheme or empty for auto-detect.
    pub auth_type: String,
    /// OAuth2 username.
    pub username: String,
    /// Skip the Authorization header.
    pub no_auth: bool,
    /// Log request and response details.
    pub verbose: bool,
    /// Send the tracing header.
    pub trace: bool,
    /// Per-call HTTP timeout in seconds.
    pub timeout_secs: u64,
    /// Cursor for list endpoints.
    pub pagination_token: String,
}

impl Default for CallOptions {
    fn default() -> (o: Self)
        ensures
            o.auth_type@.len() == 0,
            o.username@.len() == 0,
            !o.no_auth,
            !o.verbose,
            !o.trace,
            o.timeout_secs == DEFAULT_TIMEOUT_SECS,
            o.pagination_token@.len() == 0,
    {
        CallOptions {
            auth_type: String::new(),
            username: String::new(),
            no_auth: false,
            verbose: false,
            trace: false,
            timeout_secs: DEFAULT_TIMEOUT_SECS,
            pagination_token: String::new(),
        }
    }
}

impl CallOptions {
    /// Request options carrying this call's consumer fields; method, target,
    /// headers and body stay at their defaults.
    pub fn to_request_options(&self) -> (r: RequestOptions)
        ensures
            r.auth_type@ == self.auth_type@,
            r.username@ == self.username@,
            r.no_auth == self.no_auth,
            r.verbose == self.verbose,
            r.trace == self.trace,
            r.pagination_token@ == self.pagination_token@,
            r.method@.len() == 0,
            is_empty_template(r.target),
            r.headers@.len() == 0,
            r.data@.len() == 0,
    {
        RequestOptions {
            method: String::new(),
            target: RequestTarget::default(),
            headers: Vec::new(),
            data: String::new(),
            auth_type: self.auth_type.clone(),
            username: self.username.clone(),
            no_auth: self.no_auth,
            verbose: self.verbose,
            trace: self.trace,
            pagination_token: self.pagination_token.clone(),
        }
    }
}

/// Options specific to multipart requests.
#[derive(Debug, Clone)]
pub struct MultipartOptions {
    /// Base request configuration.
    pub request: RequestOptions,
    /// Non-file form fields.
    pub form_fields: Vec<(String, String)>,
    /// Form field name the file is attached under.
    pub file_field: String,
    /// Path of the file to upload; exclusive with `file_data`.
    pub file_path: String,
    /// File name sent with in-memory data.
    pub file_name: String,
    /// In-memory file bytes; exclusive with `file_path`.
    pub file_data: Vec<u8>,
}

/// The model of a [`RequestTarget`].
pub enum TargetV {
    Template {
        path: Seq<char>,
        path_params: Seq<(Seq<char>, Seq<char>)>,
        query: Seq<(Seq<char>, Seq<char>)>,
    },
    RawUrl(Seq<char>),
}

/// The model of a target.
pub open spec fn target_view(t: RequestTarget) -> TargetV {
    match t {
        RequestTarget::Template { path, path_params, query } => TargetV::Template {
            path: path@,
            path_params: pairs_view(path_params@),
            query: pairs_view(query@),
        },
        RequestTarget::RawUrl(u) => TargetV::RawUrl(u@),
    }
}

/// Two request descriptions hold the same values.
pub open spec fn same_request(a: RequestOptions, b: RequestOptions) -> bool {
    &&& a.method@ == b.method@
    &&& target_view(a.target) == target_view(b.target)
    &&& crate::error::texts(a.headers@) == crate::error::texts(b.headers@)
    &&& a.data@ == b.data@
    &&& a.auth_type@ == b.auth_type@
    &&& a.username@ == b.username@
    &&& a.no_auth == b.no_auth
    &&& a.verbose == b.verbose
    &&& a.trace == b.trace
    &&& a.pagination_token@ == b.pagination_token@
}

/// A copy of a list of strings.
pub fn copy_strings(v: &Vec<String>) -> (r: Vec<String>)
    ensures
        crate::error::texts(r@) == crate::error::texts(v@),
{
    let mut r: Vec<String> = Vec::new();
    let mut i: usize = 0;
    while i < v.len()
        invariant
            i <= v.len(),
            crate::error::texts(r@) == crate::error::texts(v@).subrange(0, i as int),
        decreases v.len() - i,
    {
        let ghost prev = r@;
        let s = v[i].clone();
        r.push(s);
        proof {
            assert(crate::error::texts(r@) =~= crate::error::texts(prev).push(s@));
        }
        i = i + 1;
    }
    proof {
        assert(crate::error::texts(v@).subrange(0, i as int) =~= crate::error::texts(v@));
    }
    r
}

/// A copy of a list of string pairs.
pub fn copy_pairs(v: &Vec<(String, String)>) -> (r: Vec<(String, String)>)
    ensures
        pairs_view(r@) == pairs_view(v@),
{
    let mut r: Vec<(String, String)> = Vec::new();
    let mut i: usize = 0;
    while i < v.len()
        invariant
            i <= v.len(),
            pairs_view(r@) == pairs_view(v@).subrange(0, i as int),
        decreases v.len() - i,
    {
        let ghost prev = r@;
        let e = (v[i].0.clone(), v[i].1.clone());
        r.push(e);
        proof {
            assert(pairs_view(r@) =~= pairs_view(prev).push((e.0@, e.1@)));
        }
        i = i + 1;
    }
    proof {
        assert(pairs_view(v@).subrange(0, i as int) =~= pairs_view(v@));
    }
    r
}

/// A copy of a target.
pub fn copy_target(t: &RequestTarget) -> (r: RequestTarget)
    ensures
        target_view(r) == target_view(*t),
{
    match t {
        RequestTarget::Template { path, path_params, query } => RequestTarget::Template {
            path: path.clone(),
            path_params: copy_pairs(path_params),
            query: copy_pairs(query),
        },
        RequestTarget::RawUrl(u) => RequestTarget::RawUrl(u.clone()),
    }
}

/// A copy of a request description.
pub fn copy_request(o: &RequestOptions) -> (r: RequestOptions)
    ensures
        same_request(r, *o),
{
    RequestOptions {
        method: o.method.clone(),
        target: copy_target(&o.target),
        headers: copy_strings(&o.headers),
        data: o.data.clone(),
        auth_type: o.auth_type.clone(),
        username: o.username.clone(),
        no_auth: o.no_auth,
        verbose: o.verbose,
        trace: o.trace,
        pagination_token: o.pagination_token.clone(),
    }
}

} // verus!
