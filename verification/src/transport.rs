//! What goes on the wire for a request, decided before any socket opens:
//! method, URL, body and Content-Type, the caller's headers, and which of
//! the headers xurl adds (Authorization, User-Agent, X-B3-Flags) it skips
//! because the caller supplied them. Also what a response status and body
//! come to.

use vstd::prelude::*;

use crate::error::{texts, Error};
use crate::request::{MultipartOptions, RequestOptions};
use crate::select::{builds, built};
use crate::store::opt_str;
use crate::text::{
    chars_of, to_upper_unicode, unicode_upper, eq_ignore_ascii_case, index_of, lower, owned, push_str, str_eq, string_of_range,
    trim, trim_str, u64_string, vec_index_of, decimal,
};
use crate::url::{build_url_for_target, url_ensures};
use crate::endpoints::{endpoint_path, is_streaming_endpoint, streaming_paths};
use crate::media::is_media_append_request;

verus! {

// ── JSON validity ────────────────────────────────────────────────────

/// `s` parses as a JSON value.
pub uninterp spec fn json_parses(s: Seq<char>) -> bool;

/// `serde_json::from_str::<serde_json::Value>(s).is_ok()`.
#[verifier::external_body]
pub(crate) fn is_json(s: &str) -> (r: bool)
    ensures
        r == json_parses(s@),
{
    serde_json::from_str::<serde_json::Value>(s).is_ok()
}

/// The JSON value `s` parses to, serialised compactly; `None` when `s` is
/// not JSON.
pub uninterp spec fn json_compact(s: Seq<char>) -> Option<Seq<char>>;

/// The member names of the JSON object `s` parses to; `None` when `s` is
/// not JSON or not an object.
pub uninterp spec fn json_object_keys(s: Seq<char>) -> Option<Seq<Seq<char>>>;

/// `serde_json::from_str::<serde_json::Value>(s)`, then `to_string` on the
/// value: the compact serialisation, which exists exactly when `s` parses.
#[verifier::external_body]
pub(crate) fn compact_json(s: &str) -> (r: Option<String>)
    ensures
        opt_str(r) == json_compact(s@),
        r is Some <==> json_parses(s@),
{
    match serde_json::from_str::<serde_json::Value>(s) {
        Ok(v) => Some(v.to_string()),
        Err(_) => None,
    }
}

/// `serde_json::from_str::<serde_json::Value>(s)`, and where that is an
/// object, its member names (each once: the object is a map).
#[verifier::external_body]
pub(crate) fn object_keys(s: &str) -> (r: Option<Vec<String>>)
    ensures
        match r {
            Some(ks) => json_object_keys(s@) == Some(ks@.map_values(|k: String| k@)) && json_parses(s@),
            None => json_object_keys(s@) is None,
        },
{
    match serde_json::from_str::<serde_json::Value>(s) {
        Ok(serde_json::Value::Object(m)) => Some(m.keys().cloned().collect()),
        _ => None,
    }
}

// ── Caller headers ───────────────────────────────────────────────────

/// The trimmed name of a `Name: Value` header, if it has a colon.
pub open spec fn header_name(h: Seq<char>) -> Option<Seq<char>> {
    let i = index_of(h, ':');
    if i < 0 {
        None
    } else {
        Some(trim(h.take(i)))
    }
}

/// The trimmed value of a `Name: Value` header, if it has a colon.
pub open spec fn header_value(h: Seq<char>) -> Option<Seq<char>> {
    let i = index_of(h, ':');
    if i < 0 {
        None
    } else {
        Some(trim(h.skip(i + 1)))
    }
}

/// The header's name equals `name`, ignoring ASCII case.
pub open spec fn named(h: Seq<char>, name: Seq<char>) -> bool {
    header_name(h) matches Some(k) && lower(k) == lower(name)
}

/// Some header's name equals `name`, ignoring ASCII case.
pub open spec fn supplies(headers: Seq<Seq<char>>, name: Seq<char>) -> bool {
    exists|i: int| 0 <= i < headers.len() && #[trigger] named(headers[i], name)
}

/// The name and value of a `Name: Value` header, both trimmed.
fn split_header(h: &str) -> (r: Option<(String, String)>)
    ensures
        match r {
            Some(p) => header_name(h@) == Some(p.0@) && header_value(h@) == Some(p.1@),
            None => header_name(h@) is None && header_value(h@) is None,
        },
{
    let v = chars_of(h);
    proof {
        assert(v@.skip(0) =~= v@);
        crate::text::lemma_index_of_props(v@, ':');
    }
    match vec_index_of(&v, 0, ':') {
        None => None,
        Some(i) => {
            let k = string_of_range(&v, 0, i);
            let val = string_of_range(&v, i + 1, v.len());
            proof {
                assert(k@ =~= h@.take(i as int));
                assert(val@ =~= h@.skip(i + 1));
            }
            Some((trim_str(k.as_str()), trim_str(val.as_str())))
        },
    }
}

/// Whether a `"Name: Value"` entry of `headers` has the name `name`,
/// comparing the trimmed name without regard to ASCII case.
pub fn user_supplied_header(headers: &Vec<String>, name: &str) -> (r: bool)
    ensures
        r == supplies(texts(headers@), name@),
{
    let mut i: usize = 0;
    while i < headers.len()
        invariant
            i <= headers.len(),
            forall|k: int| 0 <= k < i ==> !(#[trigger] named(texts(headers@)[k], name@)),
        decreases headers.len() - i,
    {
        proof {
            assert(texts(headers@)[i as int] == headers@[i as int]@);
        }
        match split_header(headers[i].as_str()) {
            Some(p) => {
                if eq_ignore_ascii_case(p.0.as_str(), name) {
                    proof {
                        assert(named(texts(headers@)[i as int], name@));
                    }
                    return true;
                }
            },
            None => {},
        }
        i = i + 1;
    }
    false
}

/// The caller's headers that have a colon, as trimmed name/value pairs.
pub open spec fn custom_headers(headers: Seq<Seq<char>>) -> Seq<(Seq<char>, Seq<char>)>
    decreases headers.len(),
{
    if headers.len() == 0 {
        Seq::empty()
    } else {
        let h = headers.last();
        match (header_name(h), header_value(h)) {
            (Some(k), Some(v)) => custom_headers(headers.drop_last()).push((k, v)),
            _ => custom_headers(headers.drop_last()),
        }
    }
}

/// The caller's headers as trimmed name/value pairs; entries without a
/// colon are dropped.
pub fn header_pairs(headers: &Vec<String>) -> (r: Vec<(String, String)>)
    ensures
        crate::request::pairs_view(r@) == custom_headers(texts(headers@)),
{
    let mut out: Vec<(String, String)> = Vec::new();
    let mut i: usize = 0;
    proof {
        assert(crate::request::pairs_view(out@) =~= Seq::<(Seq<char>, Seq<char>)>::empty());
    }
    while i < headers.len()
        invariant
            i <= headers.len(),
            crate::request::pairs_view(out@) == custom_headers(texts(headers@).subrange(0, i as int)),
        decreases headers.len() - i,
    {
        proof {
            let t = texts(headers@).subrange(0, i + 1);
            assert(t.drop_last() =~= texts(headers@).subrange(0, i as int));
            assert(t.last() == headers@[i as int]@);
        }
        match split_header(headers[i].as_str()) {
            Some(p) => {
                let ghost prev = out@;
                out.push(p);
                proof {
                    assert(crate::request::pairs_view(out@) =~= crate::request::pairs_view(prev).push((p.0@, p.1@)));
                }
            },
            None => {},
        }
        i = i + 1;
    }
    proof {
        assert(texts(headers@).subrange(0, i as int) =~= texts(headers@));
    }
    out
}

/// The note for a header xurl would add but the caller supplied.
pub open spec fn override_note(name: Seq<char>) -> Seq<char> {
    "info: user-supplied "@ + name + " detected; skipping xurl append"@
}

/// The notes for the xurl-added headers the caller overrides, in the order
/// Content-Type, Authorization, User-Agent, X-B3-Flags; each only when xurl
/// would have added it.
pub open spec fn override_notes(
    headers: Seq<Seq<char>>,
    would_set_content_type: bool,
    would_set_auth: bool,
    would_set_trace: bool,
) -> Seq<Seq<char>> {
    (if would_set_content_type && supplies(headers, "Content-Type"@) {
        seq![override_note("Content-Type"@)]
    } else {
        Seq::empty()
    }) + (if would_set_auth && supplies(headers, "Authorization"@) {
        seq![override_note("Authorization"@)]
    } else {
        Seq::empty()
    }) + (if supplies(headers, "User-Agent"@) {
        seq![override_note("User-Agent"@)]
    } else {
        Seq::empty()
    }) + (if would_set_trace && supplies(headers, "X-B3-Flags"@) {
        seq![override_note("X-B3-Flags"@)]
    } else {
        Seq::empty()
    })
}

/// A note for `name`.
fn note_for(name: &str) -> (r: String)
    ensures
        r@ == override_note(name@),
{
    let mut r = owned("info: user-supplied ");
    push_str(&mut r, name);
    push_str(&mut r, " detected; skipping xurl append");
    r
}

/// The notes for the xurl-added headers the caller overrides.
pub fn note_header_overrides(
    headers: &Vec<String>,
    would_set_content_type: bool,
    would_set_auth: bool,
    would_set_trace: bool,
) -> (r: Vec<String>)
    ensures
        texts(r@) == override_notes(texts(headers@), would_set_content_type, would_set_auth, would_set_trace),
{
    let mut r: Vec<String> = Vec::new();
    if would_set_content_type && user_supplied_header(headers, "Content-Type") {
        r.push(note_for("Content-Type"));
    }
    if would_set_auth && user_supplied_header(headers, "Authorization") {
        r.push(note_for("Authorization"));
    }
    if user_supplied_header(headers, "User-Agent") {
        r.push(note_for("User-Agent"));
    }
    if would_set_trace && user_supplied_header(headers, "X-B3-Flags") {
        r.push(note_for("X-B3-Flags"));
    }
    proof {
        assert(texts(r@) =~= override_notes(
            texts(headers@),
            would_set_content_type,
            would_set_auth,
            would_set_trace,
        ));
    }
    r
}

// ── Request plan ─────────────────────────────────────────────────────

/// A byte HTTP allows in a method name (an RFC 9110 token character).
pub open spec fn method_char(c: char) -> bool {
    ||| ('0' <= c && c <= '9')
    ||| ('A' <= c && c <= 'Z')
    ||| ('a' <= c && c <= 'z')
    ||| c == '!' || c == '#' || c == '$' || c == '%' || c == '&' || c == '\'' || c == '*'
    ||| c == '+' || c == '-' || c == '.' || c == '^' || c == '_' || c == '`' || c == '|' || c == '~'
}

/// A valid HTTP method name: non-empty, token characters only.
pub open spec fn valid_method(m: Seq<char>) -> bool {
    m.len() > 0 && forall|i: int| 0 <= i < m.len() ==> method_char(#[trigger] m[i])
}

/// Is `m` a valid HTTP method name?
pub fn is_valid_method(m: &str) -> (r: bool)
    ensures
        r == valid_method(m@),
{
    let v = chars_of(m);
    if v.len() == 0 {
        return false;
    }
    let mut i: usize = 0;
    while i < v.len()
        invariant
            i <= v.len(),
            v@ == m@,
            forall|k: int| 0 <= k < i ==> method_char(#[trigger] v@[k]),
        decreases v.len() - i,
    {
        let c = v[i];
        let ok = ('0' <= c && c <= '9') || ('A' <= c && c <= 'Z') || ('a' <= c && c <= 'z') || c == '!' || c == '#'
            || c == '$' || c == '%' || c == '&' || c == '\'' || c == '*' || c == '+' || c == '-' || c == '.' || c
            == '^' || c == '_' || c == '`' || c == '|' || c == '~';
        if !ok {
            return false;
        }
        i = i + 1;
    }
    true
}

/// How a request is sent: a JSON exchange, a multipart upload, or a stream.
#[derive(Debug, Clone, Copy, PartialEq, Eq, Structural)]
pub enum SendKind {
    Json,
    Multipart,
    Stream,
}

/// What goes on the wire for a request, apart from the Authorization value.
#[derive(Debug, Clone)]
pub struct RequestPlan {
    /// The method, upper-cased.
    pub method: String,
    /// The full URL.
    pub url: String,
    /// Content-Type xurl sets, unless the caller supplied one.
    pub content_type: Option<String>,
    /// The body, when one is sent.
    pub body: Option<String>,
    /// The caller's headers, trimmed.
    pub headers: Vec<(String, String)>,
    /// An Authorization header is to be added.
    pub add_auth: bool,
    /// The User-Agent header is to be added.
    pub add_user_agent: bool,
    /// `X-B3-Flags: 1` is to be added.
    pub add_trace: bool,
    /// Notes on xurl headers the caller overrides.
    pub notes: Vec<String>,
}

/// How a raw-mode request is sent: a media append with a file as a
/// multipart upload; a forced stream or a streaming endpoint as a stream;
/// anything else as a JSON exchange.
pub fn request_kind(endpoint: &str, force_stream: bool, media_file: &str) -> (r: SendKind)
    ensures
        r == (if crate::text::contains(endpoint@, "/2/media/upload"@) && crate::text::contains(endpoint@, "append"@)
            && media_file@.len() > 0 {
            SendKind::Multipart
        } else if force_stream || streaming_paths().contains(endpoint_path(endpoint@)) {
            SendKind::Stream
        } else {
            SendKind::Json
        }),
{
    if is_media_append_request(endpoint, media_file) {
        SendKind::Multipart
    } else if force_stream || is_streaming_endpoint(endpoint) {
        SendKind::Stream
    } else {
        SendKind::Json
    }
}

/// The method of a request: upper-cased, the kind's default when that is
/// empty.
pub open spec fn plan_method(m: Seq<char>, kind: SendKind) -> Seq<char> {
    if unicode_upper(m).len() == 0 {
        if kind == SendKind::Multipart {
            "POST"@
        } else {
            "GET"@
        }
    } else {
        unicode_upper(m)
    }
}

/// xurl sends the request's data as the body (and may set its type).
pub open spec fn sends_body(o: RequestOptions, method: Seq<char>, kind: SendKind) -> bool {
    match kind {
        SendKind::Json => o.data@.len() > 0 && (method == "POST"@ || method == "PUT"@ || method == "PATCH"@),
        SendKind::Stream => o.data@.len() > 0,
        SendKind::Multipart => false,
    }
}

/// The plan for a request, as the fields of [`RequestPlan`] model it.
pub open spec fn plan_ok(base: Seq<char>, o: RequestOptions, kind: SendKind, p: RequestPlan) -> bool {
    let method = plan_method(o.method@, kind);
    let hs = texts(o.headers@);
    let body = sends_body(o, method, kind);
    &&& p.method@ == method
    &&& p.url@ == built(base, o.target)
    &&& (body && !supplies(hs, "Content-Type"@)) ==> (p.content_type matches Some(ct) && ct@ == (if json_parses(
        o.data@,
    ) {
        "application/json"@
    } else {
        "application/x-www-form-urlencoded"@
    }))
    &&& !(body && !supplies(hs, "Content-Type"@)) ==> p.content_type is None
    &&& body ==> (p.body matches Some(b) && b@ == o.data@)
    &&& !body ==> p.body is None
    &&& crate::request::pairs_view(p.headers@) == custom_headers(hs)
    &&& p.add_auth == (!o.no_auth && !supplies(hs, "Authorization"@))
    &&& p.add_user_agent == !supplies(hs, "User-Agent"@)
    &&& p.add_trace == (o.trace && !supplies(hs, "X-B3-Flags"@))
    &&& texts(p.notes@) == override_notes(hs, body, !o.no_auth, o.trace)
}

/// Decides what goes on the wire for `options`: the URL is built first (its
/// errors come first), then the method is checked.
pub fn plan_request(options: &RequestOptions, base_url: &str, kind: SendKind) -> (r: Result<RequestPlan, Error>)
    ensures
        !builds(options.target) ==> (r matches Err(e) && url_ensures(base_url@, options.target, Err(e))),
        builds(options.target) && !valid_method(plan_method(options.method@, kind)) ==> (r matches Err(
            Error::InvalidMethod(m),
        ) && m@ == plan_method(options.method@, kind)),
        builds(options.target) && valid_method(plan_method(options.method@, kind)) ==> (r matches Ok(p) && plan_ok(
            base_url@,
            *options,
            kind,
            p,
        )),
{
    let up = to_upper_unicode(options.method.as_str());
    let method = if up.as_str().is_empty() {
        match kind {
            SendKind::Multipart => owned("POST"),
            _ => owned("GET"),
        }
    } else {
        up
    };
    let url = match build_url_for_target(base_url, &options.target) {
        Ok(u) => u,
        Err(e) => return Err(e),
    };
    if !is_valid_method(method.as_str()) {
        return Err(Error::InvalidMethod(method));
    }
    let body = match kind {
        SendKind::Json => !options.data.as_str().is_empty() && (str_eq(method.as_str(), "POST") || str_eq(
            method.as_str(),
            "PUT",
        ) || str_eq(method.as_str(), "PATCH")),
        SendKind::Stream => !options.data.as_str().is_empty(),
        SendKind::Multipart => false,
    };
    let content_type = if body && !user_supplied_header(&options.headers, "Content-Type") {
        if is_json(options.data.as_str()) {
            Some(owned("application/json"))
        } else {
            Some(owned("application/x-www-form-urlencoded"))
        }
    } else {
        None
    };
    let plan = RequestPlan {
        method,
        url,
        content_type,
        body: if body {
            Some(options.data.clone())
        } else {
            None
        },
        headers: header_pairs(&options.headers),
        add_auth: !options.no_auth && !user_supplied_header(&options.headers, "Authorization"),
        add_user_agent: !user_supplied_header(&options.headers, "User-Agent"),
        add_trace: options.trace && !user_supplied_header(&options.headers, "X-B3-Flags"),
        notes: note_header_overrides(&options.headers, body, !options.no_auth, options.trace),
    };
    proof {
        if unicode_upper(options.method@).len() == 0 {
            reveal_strlit("GET");
            reveal_strlit("POST");
        }
    }
    Ok(plan)
}

/// The plan for a multipart request.
pub fn plan_multipart(options: &MultipartOptions, base_url: &str) -> (r: Result<RequestPlan, Error>)
    ensures
        !builds(options.request.target) ==> (r matches Err(e) && url_ensures(base_url@, options.request.target, Err(e))),
        builds(options.request.target) && !valid_method(plan_method(options.request.method@, SendKind::Multipart))
            ==> (r matches Err(Error::InvalidMethod(m)) && m@ == plan_method(options.request.method@, SendKind::Multipart)),
        builds(options.request.target) && valid_method(plan_method(options.request.method@, SendKind::Multipart))
            ==> (r matches Ok(p) && plan_ok(base_url@, options.request, SendKind::Multipart, p)),
{
    plan_request(&options.request, base_url, SendKind::Multipart)
}

// ── Responses ────────────────────────────────────────────────────────

/// What a JSON exchange's response comes to. `parsed` is the body's JSON
/// re-serialised (compact) when it parses; `status_text` is the status as
/// displayed (code and reason). `Ok(None)` is the empty object `{}`, what an
/// empty or unparsable successful body comes to.
pub fn json_response_outcome(status: u16, status_text: &str, body: &str, parsed: Option<String>) -> (r: Result<
    Option<String>,
    Error,
>)
    ensures
        body@.len() == 0 ==> (if status >= 400 {
            r matches Err(Error::Api { status: s, body: b }) && s == status && b@ == "{}"@
        } else {
            r matches Ok(None)
        }),
        body@.len() > 0 && parsed is Some ==> (if status >= 400 {
            r matches Err(Error::Api { status: s, body: b }) && s == status && b@ == parsed->Some_0@
        } else {
            r matches Ok(Some(j)) && j@ == parsed->Some_0@
        }),
        body@.len() > 0 && parsed is None ==> (if status >= 400 {
            r matches Err(Error::Api { status: s, body: b }) && s == status && b@ == "HTTP error: "@
                + status_text@
        } else {
            r matches Ok(None)
        }),
{
    if body.is_empty() {
        if status >= 400 {
            return Err(Error::Api { status, body: owned("{}") });
        }
        return Ok(None);
    }
    match parsed {
        Some(j) => {
            if status >= 400 {
                Err(Error::Api { status, body: j })
            } else {
                Ok(Some(j))
            }
        },
        None => {
            if status >= 400 {
                let mut m = owned("HTTP error: ");
                push_str(&mut m, status_text);
                Err(Error::Api { status, body: m })
            } else {
                Ok(None)
            }
        },
    }
}

/// What a multipart upload's response comes to: an unparsable or empty
/// body counts as `{}` (`None`, or the error body `{}`).
pub fn multipart_response_outcome(status: u16, body: &str, parsed: Option<String>) -> (r: Result<Option<String>, Error>)
    ensures
        status >= 400 ==> (r matches Err(Error::Api { status: s, body: b }) && s == status && b@ == (if body@.len() > 0
            && parsed is Some {
            parsed->Some_0@
        } else {
            "{}"@
        })),
        status < 400 && body@.len() > 0 && parsed is Some ==> (r matches Ok(Some(j)) && j@ == parsed->Some_0@),
        status < 400 && !(body@.len() > 0 && parsed is Some) ==> r matches Ok(None),
{
    let json = if body.is_empty() {
        None
    } else {
        parsed
    };
    if status >= 400 {
        return Err(
            Error::Api {
                status,
                body: match json {
                    Some(j) => j,
                    None => owned("{}"),
                },
            },
        );
    }
    Ok(json)
}

/// Checks a successful reply's top level before it is read as a typed
/// response: an empty object is a JSON error, and an object with `errors`
/// but no `data` is a validation error carrying the body's compact JSON.
/// `members` counts the object's members; `compact` is the body re-serialised.
pub fn response_precheck(is_object: bool, members: usize, has_data: bool, has_errors: bool, compact: &str) -> (r: Result<
    (),
    Error,
>)
    ensures
        is_object && members == 0 ==> (r matches Err(Error::Json(m)) && m@
            == "empty response body — expected JSON with a \"data\" field"@),
        is_object && members > 0 && !has_data && has_errors ==> (r matches Err(Error::Validation(m)) && m@ == compact@),
        !(is_object && members == 0) && !(is_object && !has_data && has_errors) ==> r is Ok,
{
    if is_object && members == 0 {
        return Err(Error::Json(owned("empty response body — expected JSON with a \"data\" field")));
    }
    if is_object && !has_data && has_errors {
        return Err(Error::Validation(owned(compact)));
    }
    Ok(())
}

/// The error for a failed stream: the body's JSON re-serialised when it
/// parses, the raw body otherwise. `None` when the status is a success.
pub fn stream_status_error(status: u16, body: &str, parsed: Option<String>) -> (r: Option<Error>)
    ensures
        status < 400 ==> r is None,
        status >= 400 ==> (r matches Some(Error::Api { status: s, body: b }) && s == status && b@ == match parsed {
            Some(j) => j@,
            None => body@,
        }),
{
    if status < 400 {
        return None;
    }
    Some(
        Error::Api {
            status,
            body: match parsed {
                Some(j) => j,
                None => owned(body),
            },
        },
    )
}

/// What a JSON exchange's response comes to, from the status (code and as
/// displayed) and the raw body: an error status carries the body's compact
/// JSON, `{}` for an empty body, or `HTTP error: ` and the status when the
/// body is not JSON; a success gives the compact JSON, or `None` (the empty
/// object) for an empty or non-JSON body.
pub fn send_outcome(status: u16, status_text: &str, body: &str) -> (r: Result<Option<String>, Error>)
    ensures
        body@.len() == 0 ==> (if status >= 400 {
            r matches Err(Error::Api { status: s, body: b }) && s == status && b@ == "{}"@
        } else {
            r matches Ok(None)
        }),
        body@.len() > 0 && json_compact(body@) is Some ==> (if status >= 400 {
            r matches Err(Error::Api { status: s, body: b }) && s == status && Some(b@) == json_compact(body@)
        } else {
            r matches Ok(Some(j)) && Some(j@) == json_compact(body@)
        }),
        body@.len() > 0 && json_compact(body@) is None ==> (if status >= 400 {
            r matches Err(Error::Api { status: s, body: b }) && s == status && b@ == "HTTP error: "@
                + status_text@
        } else {
            r matches Ok(None)
        }),
{
    let parsed = compact_json(body);
    json_response_outcome(status, status_text, body, parsed)
}

/// What a multipart upload's response comes to, from the status and the
/// raw body: its compact JSON, or `{}` when it is empty or not JSON.
pub fn multipart_outcome(status: u16, body: &str) -> (r: Result<Option<String>, Error>)
    ensures
        status >= 400 ==> (r matches Err(Error::Api { status: s, body: b }) && s == status && b@ == (if body@.len() > 0
            && json_compact(body@) is Some {
            json_compact(body@)->Some_0
        } else {
            "{}"@
        })),
        status < 400 && body@.len() > 0 && json_compact(body@) is Some ==> (r matches Ok(Some(j)) && Some(j@)
            == json_compact(body@)),
        status < 400 && !(body@.len() > 0 && json_compact(body@) is Some) ==> r matches Ok(None),
{
    let parsed = compact_json(body);
    multipart_response_outcome(status, body, parsed)
}

/// The error for a stream that failed with `status`: the body's compact
/// JSON when it is JSON, the raw body otherwise; `None` for a success.
pub fn stream_failure(status: u16, body: &str) -> (r: Option<Error>)
    ensures
        status < 400 ==> r is None,
        status >= 400 ==> (r matches Some(Error::Api { status: s, body: b }) && s == status && b@ == match json_compact(
            body@,
        ) {
            Some(j) => j,
            None => body@,
        }),
{
    let parsed = compact_json(body);
    stream_status_error(status, body, parsed)
}

/// The member names hold `name`.
pub open spec fn has_member(keys: Seq<Seq<char>>, name: Seq<char>) -> bool {
    keys.contains(name)
}

/// Whether one of the names is `name`.
fn keys_contain(keys: &Vec<String>, name: &str) -> (r: bool)
    ensures
        r == has_member(keys@.map_values(|k: String| k@), name@),
{
    let ghost ks = keys@.map_values(|k: String| k@);
    let mut i: usize = 0;
    while i < keys.len()
        invariant
            i <= keys.len(),
            ks == keys@.map_values(|k: String| k@),
            forall|j: int| 0 <= j < i ==> ks[j] != name@,
        decreases keys.len() - i,
    {
        if str_eq(keys[i].as_str(), name) {
            assert(ks[i as int] == name@);
            return true;
        }
        i = i + 1;
    }
    false
}

/// Checks a successful reply's JSON text before it is read as a typed
/// response: an empty object is a JSON error, and an object with `errors`
/// but no `data` is a validation error carrying the compact JSON. Anything
/// else passes.
pub fn precheck_body(body: &str) -> (r: Result<(), Error>)
    ensures
        match json_object_keys(body@) {
            Some(ks) => {
                &&& ks.len() == 0 ==> (r matches Err(Error::Json(m)) && m@
                    == "empty response body — expected JSON with a \"data\" field"@)
                &&& ks.len() > 0 && !has_member(ks, "data"@) && has_member(ks, "errors"@) ==> (r matches Err(
                    Error::Validation(m),
                ) && Some(m@) == json_compact(body@))
                &&& !(ks.len() == 0) && !(!has_member(ks, "data"@) && has_member(ks, "errors"@)) ==> r is Ok
            },
            None => r is Ok,
        },
{
    match object_keys(body) {
        Some(keys) => {
            let has_data = keys_contain(&keys, "data");
            let has_errors = keys_contain(&keys, "errors");
            let compact = match compact_json(body) {
                Some(c) => c,
                None => owned(body),
            };
            response_precheck(true, keys.len(), has_data, has_errors, compact.as_str())
        },
        None => Ok(()),
    }
}

/// A line of a stream as delivered: empty keep-alive lines are skipped.
pub fn stream_line(line: String) -> (r: Option<String>)
    ensures
        line@.len() == 0 ==> r is None,
        line@.len() > 0 ==> (r matches Some(l) && l@ == line@),
{
    if line.as_str().is_empty() {
        None
    } else {
        Some(line)
    }
}

/// The User-Agent value for a crate version.
pub fn user_agent(version: &str) -> (r: String)
    ensures
        r@ == "xurl/"@ + version@,
{
    let mut r = owned("xurl/");
    push_str(&mut r, version);
    r
}

} // verus!
