//! Chunked media upload (INIT → APPEND → FINALIZE → STATUS): the requests
//! of each phase, how a file is cut into segments, what a status poll
//! means, and what the raw-mode URLs of the media endpoint carry.

use vstd::prelude::*;

use crate::error::{texts, Error};
use crate::request::{copy_strings, pairs_view, same_request, target_view, MultipartOptions, RequestOptions, RequestTarget};
use crate::text::{debug_quoted, debug_str, 
    chars_of, contains, ends_with, find, index_of, owned, push_str, starts_with, str_contains, str_ends_with,
    str_eq, string_of_range, u64_string, vec_find, vec_index_of, vec_starts_with, decimal,
};

verus! {

/// Base path of the media upload endpoints.
pub const MEDIA_ENDPOINT: &'static str = "/2/media/upload";

/// Size of an APPEND segment: 4 MiB.
pub const CHUNK_SIZE: u64 = 4194304;

// ── Raw-mode URLs ────────────────────────────────────────────────────

/// The text after the first occurrence of `sep`, up to its next occurrence.
pub open spec fn second_piece(s: Seq<char>, sep: Seq<char>) -> Option<Seq<char>> {
    match find(s, sep) {
        None => None,
        Some(i) => {
            let rest = s.skip(i + sep.len());
            match find(rest, sep) {
                None => Some(rest),
                Some(j) => Some(rest.take(j)),
            }
        },
    }
}

/// The media id a raw media URL carries: the path segment before
/// `/append` or `/finalize`, else a `media_id=` query parameter; empty for
/// anything else (and for the initialize URL).
pub open spec fn media_id_of(url: Seq<char>) -> Seq<char> {
    if url.len() == 0 || !contains(url, "/2/media/upload"@) || ends_with(url, "/2/media/upload/initialize"@) {
        Seq::empty()
    } else {
        match path_media_id(url) {
            Some(id) => id,
            None => match query_media_id(url) {
                Some(id) => id,
                None => Seq::empty(),
            },
        }
    }
}

/// The id before `/append` (or else `/finalize`) in the piece after
/// `/2/media/upload/`.
pub open spec fn path_media_id(url: Seq<char>) -> Option<Seq<char>> {
    match second_piece(url, "/2/media/upload/"@) {
        None => None,
        Some(rest) => match find(rest, "/append"@) {
            Some(i) => Some(rest.take(i)),
            None => match find(rest, "/finalize"@) {
                Some(i) => Some(rest.take(i)),
                None => None,
            },
        },
    }
}

/// The value of the first `media_id=` parameter of the query piece.
pub open spec fn query_media_id(url: Seq<char>) -> Option<Seq<char>> {
    match second_piece(url, "?"@) {
        None => None,
        Some(q) => first_media_id(crate::callback::segments(q)),
    }
}

/// The value of the first segment starting `media_id=`.
pub open spec fn first_media_id(segs: Seq<Seq<char>>) -> Option<Seq<char>>
    decreases segs.len(),
{
    if segs.len() == 0 {
        None
    } else if starts_with(segs[0], "media_id="@) {
        Some(segs[0].skip(9))
    } else {
        first_media_id(segs.drop_first())
    }
}

/// What follows the first `sep` in `v`.
#[verifier::rlimit(40)]
fn after_first(v: &Vec<char>, sep: &Vec<char>) -> (r: Option<Vec<char>>)
    ensures
        match find(v@, sep@) {
            Some(i) => r matches Some(x) && x@ == v@.skip(i + sep@.len()),
            None => r is None,
        },
{
    match vec_find(v, sep) {
        None => None,
        Some(i) => {
            let vl = v.len();
            proof {
                assert(crate::text::occurs_at(v@, sep@, i as int));
            }
            let start = i + sep.len();
            let rest = vec_slice(v, start, v.len());
            proof {
                assert(rest@ =~= v@.skip(i + sep@.len()));
            }
            Some(rest)
        },
    }
}

/// What precedes the first `sep` in `v`, or all of `v`.
#[verifier::rlimit(40)]
fn before_first(v: &Vec<char>, sep: &Vec<char>) -> (r: Vec<char>)
    ensures
        r@ == match find(v@, sep@) {
            Some(j) => v@.take(j),
            None => v@,
        },
{
    match vec_find(v, sep) {
        None => vec_slice(v, 0, v.len()),
        Some(j) => {
            let p = vec_slice(v, 0, j);
            proof {
                assert(p@ =~= v@.take(j as int));
            }
            p
        },
    }
}

/// The piece of `v` after the first `sep`, up to the next one.
fn second_piece_exec(v: &Vec<char>, sep: &Vec<char>) -> (r: Option<Vec<char>>)
    ensures
        match second_piece(v@, sep@) {
            Some(p) => r matches Some(x) && x@ == p,
            None => r is None,
        },
{
    match after_first(v, sep) {
        None => None,
        Some(rest) => Some(before_first(&rest, sep)),
    }
}

/// `v[from..to]`.
fn vec_slice(v: &Vec<char>, from: usize, to: usize) -> (r: Vec<char>)
    requires
        from <= to <= v.len(),
    ensures
        r@ == v@.subrange(from as int, to as int),
{
    let mut r: Vec<char> = Vec::new();
    let mut i = from;
    while i < to
        invariant
            from <= i <= to <= v.len(),
            r@ == v@.subrange(from as int, i as int),
        decreases to - i,
    {
        r.push(v[i]);
        i = i + 1;
    }
    r
}

/// The characters of a string literal or slice, as a vector.
fn cv(s: &str) -> (r: Vec<char>)
    ensures
        r@ == s@,
{
    chars_of(s)
}

/// Extracts the media id from a raw media URL (see [`media_id_of`]).
pub fn extract_media_id(url: &str) -> (r: String)
    ensures
        r@ == media_id_of(url@),
{
    proof {
        reveal_strlit("");
    }
    if url.is_empty() || !str_contains(url, "/2/media/upload") || str_ends_with(url, "/2/media/upload/initialize") {
        return String::new();
    }
    let v = chars_of(url);
    if let Some(id) = path_media_id_exec(&v) {
        return id;
    }
    match query_media_id_exec(&v) {
        Some(id) => id,
        None => String::new(),
    }
}

/// The id before `/append` or `/finalize` (see [`path_media_id`]).
#[verifier::rlimit(40)]
fn path_media_id_exec(v: &Vec<char>) -> (r: Option<String>)
    ensures
        crate::auth::opt_view(r) == path_media_id(v@),
{
    let base = cv("/2/media/upload/");
    proof {
        reveal_strlit("/2/media/upload/");
    }
    let rest = match second_piece_exec(v, &base) {
        Some(p) => p,
        None => return None,
    };
    let app = cv("/append");
    proof {
        reveal_strlit("/append");
    }
    if let Some(i) = vec_find(&rest, &app) {
        return Some(crate::text::string_of_range(&rest, 0, i));
    }
    let fin = cv("/finalize");
    proof {
        reveal_strlit("/finalize");
    }
    match vec_find(&rest, &fin) {
        Some(i) => Some(crate::text::string_of_range(&rest, 0, i)),
        None => None,
    }
}

/// The first `media_id=` value of the query (see [`query_media_id`]).
#[verifier::rlimit(40)]
fn query_media_id_exec(v: &Vec<char>) -> (r: Option<String>)
    ensures
        crate::auth::opt_view(r) == query_media_id(v@),
{
    let q = cv("?");
    proof {
        reveal_strlit("?");
    }
    let query = match second_piece_exec(v, &q) {
        Some(p) => p,
        None => return None,
    };
    let segs = split_amp(&query);
    let pre = cv("media_id=");
    proof {
        reveal_strlit("media_id=");
    }
    let mut k: usize = 0;
    proof {
        assert(texts(segs@).skip(0) =~= texts(segs@));
        assert(query_media_id(v@) == first_media_id(texts(segs@)));
    }
    while k < segs.len()
        invariant
            k <= segs.len(),
            pre@ == "media_id="@,
            pre@.len() == 9,
            query_media_id(v@) == first_media_id(texts(segs@).skip(k as int)),
        decreases segs.len() - k,
    {
        let s = chars_of(segs[k].as_str());
        proof {
            let t = texts(segs@).skip(k as int);
            assert(t[0] == s@);
            assert(t.drop_first() =~= texts(segs@).skip(k + 1));
        }
        if vec_starts_with(&s, &pre) {
            proof {
                assert(s@.subrange(9, s@.len() as int) =~= s@.skip(9));
                let t = texts(segs@).skip(k as int);
                assert(starts_with(t[0], "media_id="@));
                assert(first_media_id(t) == Some(t[0].skip(9)));
            }
            return Some(crate::text::string_of_range(&s, 9, s.len()));
        }
        k = k + 1;
    }
    proof {
        assert(texts(segs@).skip(k as int) =~= Seq::<Seq<char>>::empty());
    }
    None
}

/// The `&`-separated segments of a query.
fn split_amp(q: &Vec<char>) -> (r: Vec<String>)
    ensures
        texts(r@) == crate::callback::segments(q@),
{
    let s = crate::text::string_of(q);
    crate::callback::query_segments(s.as_str())
}

/// The upload phase a raw media URL addresses: `append`, `finalize`,
/// `initialize` or `status` for URLs under `/2/media/upload/`; empty
/// otherwise.
pub open spec fn command_of(url: Seq<char>) -> Seq<char> {
    if !contains(url, "/2/media/upload/"@) {
        Seq::empty()
    } else {
        match second_piece(url, "/2/media/upload/"@) {
            Some(p) => if contains(p, "/append"@) {
                "append"@
            } else if contains(p, "/finalize"@) {
                "finalize"@
            } else if p == "initialize"@ {
                "initialize"@
            } else {
                "status"@
            },
            None => "status"@,
        }
    }
}

/// The upload phase a raw media URL addresses (see [`command_of`]).
pub fn extract_command(url: &str) -> (r: String)
    ensures
        r@ == command_of(url@),
{
    if !str_contains(url, "/2/media/upload/") {
        return String::new();
    }
    let v = chars_of(url);
    let base = cv("/2/media/upload/");
    proof {
        reveal_strlit("/2/media/upload/");
    }
    match second_piece_exec(&v, &base) {
        Some(p) => {
            let ps = crate::text::string_of(&p);
            if str_contains(ps.as_str(), "/append") {
                owned("append")
            } else if str_contains(ps.as_str(), "/finalize") {
                owned("finalize")
            } else if str_eq(ps.as_str(), "initialize") {
                owned("initialize")
            } else {
                owned("status")
            }
        },
        None => owned("status"),
    }
}

/// A raw request is a media append with a file.
pub fn is_media_append_request(url: &str, media_file: &str) -> (r: bool)
    ensures
        r == (contains(url@, "/2/media/upload"@) && contains(url@, "append"@) && media_file@.len() > 0),
{
    str_contains(url, "/2/media/upload") && str_contains(url, "append") && !media_file.is_empty()
}

// ── JSON helpers ─────────────────────────────────────────────────────

/// The member `key` of the JSON object `data` parses to: its text when it is
/// a string, and its JSON serialisation. `None` when `data` is not JSON or
/// has no such member.
pub uninterp spec fn json_member(data: Seq<char>, key: Seq<char>) -> Option<(Option<Seq<char>>, Seq<char>)>;

/// The model of a member as the wrapper hands it out.
pub open spec fn member_view(m: Option<(Option<String>, String)>) -> Option<(Option<Seq<char>>, Seq<char>)> {
    match m {
        Some((t, j)) => Some((crate::auth::opt_view(t), j@)),
        None => None,
    }
}

/// `serde_json::from_str::<serde_json::Value>(data)`, then `.get(key)`; of
/// the member, `as_str` and `to_string`.
#[verifier::external_body]
fn json_member_of(data: &str, key: &str) -> (r: Option<(Option<String>, String)>)
    ensures
        member_view(r) == json_member(data@, key@),
{
    let json: serde_json::Value = serde_json::from_str(data).ok()?;
    let v = json.get(key)?;
    Some((v.as_str().map(str::to_string), v.to_string()))
}

/// The text a member stands for: a string's own text, any other value's
/// JSON.
pub open spec fn member_text(m: (Option<Seq<char>>, Seq<char>)) -> Seq<char> {
    match m.0 {
        Some(t) => t,
        None => m.1,
    }
}

/// The `segment_index` of a JSON data string, as text.
pub open spec fn json_segment_index(data: Seq<char>) -> Option<Seq<char>> {
    match json_member(data, "segment_index"@) {
        Some(m) => Some(member_text(m)),
        None => None,
    }
}

/// Extracts `segment_index` from a JSON data string: a string member's
/// text, another member's JSON.
pub fn extract_segment_index(data: &str) -> (r: Option<String>)
    ensures
        crate::auth::opt_view(r) == json_segment_index(data@),
{
    match json_member_of(data, "segment_index") {
        Some((text, json)) => match text {
            Some(t) => Some(t),
            None => Some(json),
        },
        None => None,
    }
}

/// The segment index of a raw append: the data's `segment_index` when it
/// is there and non-empty, else `0`.
pub open spec fn raw_segment_index(data: Seq<char>) -> Seq<char> {
    if data.len() == 0 {
        "0"@
    } else {
        match json_segment_index(data) {
            Some(s) if s.len() > 0 => s,
            _ => "0"@,
        }
    }
}

/// The segment index of a raw append (see [`raw_segment_index`]).
pub fn segment_index_for(data: &str) -> (r: String)
    ensures
        r@ == raw_segment_index(data@),
{
    if data.is_empty() {
        return owned("0");
    }
    match extract_segment_index(data) {
        Some(s) => {
            if s.as_str().is_empty() {
                owned("0")
            } else {
                s
            }
        },
        None => owned("0"),
    }
}

/// A string as a JSON string literal body: `"` and `\` escaped, control
/// characters as `\n`, `\r`, `\t`, `\b`, `\f` or `\u00XX`.
pub open spec fn json_escape_char(c: char) -> Seq<char> {
    if c == '"' {
        "\\\""@
    } else if c == '\\' {
        "\\\\"@
    } else if c == '\n' {
        "\\n"@
    } else if c == '\r' {
        "\\r"@
    } else if c == '\t' {
        "\\t"@
    } else if c == '\u{8}' {
        "\\b"@
    } else if c == '\u{c}' {
        "\\f"@
    } else if (c as u32) < 0x20 {
        "\\u00"@ + seq![hex_lower((c as u32 / 16) as int), hex_lower((c as u32 % 16) as int)]
    } else {
        seq![c]
    }
}

/// Lower-case hexadecimal digit for `0 <= n < 16`.
pub open spec fn hex_lower(n: int) -> char {
    if n < 10 {
        (n + 48) as char
    } else {
        (n + 87) as char
    }
}

/// Lower-case hexadecimal digit of `n < 16`.
fn hex_lower_exec(n: u8) -> (c: char)
    requires
        n < 16,
    ensures
        c == hex_lower(n as int),
{
    if n < 10 {
        (n + 48) as char
    } else {
        (n + 87) as char
    }
}

/// A string escaped for a JSON string literal.
pub open spec fn json_escape(s: Seq<char>) -> Seq<char>
    decreases s.len(),
{
    if s.len() == 0 {
        Seq::empty()
    } else {
        json_escape(s.drop_last()) + json_escape_char(s.last())
    }
}

/// Appends `s` escaped for a JSON string literal.
pub fn push_json_escaped(out: &mut String, s: &str)
    ensures
        final(out)@ == old(out)@ + json_escape(s@),
{
    let v = chars_of(s);
    let mut i: usize = 0;
    while i < v.len()
        invariant
            i <= v.len(),
            v@ == s@,
            out@ == old(out)@ + json_escape(v@.subrange(0, i as int)),
        decreases v.len() - i,
    {
        let c = v[i];
        let ghost before = out@;
        if c == '"' {
            push_str(out, "\\\"");
        } else if c == '\\' {
            push_str(out, "\\\\");
        } else if c == '\n' {
            push_str(out, "\\n");
        } else if c == '\r' {
            push_str(out, "\\r");
        } else if c == '\t' {
            push_str(out, "\\t");
        } else if c == '\u{8}' {
            push_str(out, "\\b");
        } else if c == '\u{c}' {
            push_str(out, "\\f");
        } else if (c as u32) < 0x20 {
            push_str(out, "\\u00");
            let n = c as u32;
            out.push(hex_lower_exec((n / 16) as u8));
            out.push(hex_lower_exec((n % 16) as u8));
        } else {
            out.push(c);
        }
        proof {
            let t = v@.subrange(0, i + 1);
            assert(t.drop_last() =~= v@.subrange(0, i as int));
            assert(out@ =~= before + json_escape_char(c));
        }
        i = i + 1;
    }
    assert(v@.subrange(0, v.len() as int) =~= s@);
}

/// The INIT body: a JSON object with its members in name order.
pub open spec fn init_body_text(total_bytes: u64, media_type: Seq<char>, media_category: Seq<char>) -> Seq<char> {
    "{\"media_category\":\""@ + json_escape(media_category) + "\",\"media_type\":\""@ + json_escape(media_type)
        + "\",\"total_bytes\":"@ + decimal(total_bytes as nat) + "}"@
}

/// The INIT request's fields.
#[derive(Debug, Clone)]
pub struct InitRequest {
    pub total_bytes: u64,
    pub media_type: String,
    pub media_category: String,
}

impl InitRequest {
    /// The request serialised as a JSON object, members in name order.
    pub fn to_json(&self) -> (r: String)
        ensures
            r@ == init_body_text(self.total_bytes, self.media_type@, self.media_category@),
    {
        let mut r = owned("{\"media_category\":\"");
        push_json_escaped(&mut r, self.media_category.as_str());
        push_str(&mut r, "\",\"media_type\":\"");
        push_json_escaped(&mut r, self.media_type.as_str());
        push_str(&mut r, "\",\"total_bytes\":");
        push_str(&mut r, u64_string(self.total_bytes).as_str());
        push_str(&mut r, "}");
        r
    }
}

/// The INIT request body.
pub fn init_body(total_bytes: u64, media_type: &str, media_category: &str) -> (r: String)
    ensures
        r@ == init_body_text(total_bytes, media_type@, media_category@),
{
    let req = InitRequest { total_bytes, media_type: owned(media_type), media_category: owned(media_category) };
    req.to_json()
}

// ── Phase requests ───────────────────────────────────────────────────

/// Options shared by the phases of an upload.
pub fn base_options(auth_type: &str, username: &str, trace: bool, headers: &Vec<String>) -> (r: RequestOptions)
    ensures
        r.auth_type@ == auth_type@,
        r.username@ == username@,
        r.trace == trace,
        texts(r.headers@) == texts(headers@),
        r.method@.len() == 0,
        r.data@.len() == 0,
        !r.no_auth,
        !r.verbose,
        r.pagination_token@.len() == 0,
        crate::request::is_empty_template(r.target),
{
    let mut o = RequestOptions::default();
    o.auth_type = owned(auth_type);
    o.username = owned(username);
    o.trace = trace;
    o.headers = copy_strings(headers);
    o
}

/// A phase request: `base` with the given method, template and body.
fn phase(base: &RequestOptions, method: &str, path: &str, id: Option<&str>, query: Vec<(String, String)>, data: &str) -> (r:
    RequestOptions)
    ensures
        r.method@ == method@,
        r.target matches RequestTarget::Template { path: p, path_params: pp, query: q } && p@ == path@
            && pairs_view(pp@) == (match id {
            Some(i) => seq![("id"@, i@)],
            None => Seq::empty(),
        }) && q@ == query@,
        r.data@ == data@,
        r.auth_type@ == base.auth_type@,
        r.username@ == base.username@,
        r.trace == base.trace,
        texts(r.headers@) == texts(base.headers@),
        r.no_auth == base.no_auth,
        r.verbose == base.verbose,
        r.pagination_token@ == base.pagination_token@,
{
    let params = match id {
        Some(i) => vec![(owned("id"), owned(i))],
        None => Vec::new(),
    };
    proof {
        assert(pairs_view(params@) =~= match id {
            Some(i) => seq![("id"@, i@)],
            None => Seq::<(Seq<char>, Seq<char>)>::empty(),
        });
    }
    RequestOptions {
        method: owned(method),
        target: RequestTarget::Template { path: owned(path), path_params: params, query },
        headers: copy_strings(&base.headers),
        data: owned(data),
        auth_type: base.auth_type.clone(),
        username: base.username.clone(),
        no_auth: base.no_auth,
        verbose: base.verbose,
        trace: base.trace,
        pagination_token: base.pagination_token.clone(),
    }
}

/// The INIT request: `POST /2/media/upload/initialize` with the JSON body.
pub fn init_request(base: &RequestOptions, total_bytes: u64, media_type: &str, media_category: &str) -> (r: RequestOptions)
    ensures
        r.method@ == "POST"@,
        r.target matches RequestTarget::Template { path: p, path_params: pp, query: q } && p@
            == "/2/media/upload/initialize"@ && pairs_view(pp@) == Seq::<(Seq<char>, Seq<char>)>::empty()
            && q@.len() == 0,
        r.data@ == init_body_text(total_bytes, media_type@, media_category@),
        r.auth_type@ == base.auth_type@,
        r.username@ == base.username@,
        r.trace == base.trace,
        texts(r.headers@) == texts(base.headers@),
{
    let body = init_body(total_bytes, media_type, media_category);
    phase(base, "POST", "/2/media/upload/initialize", None, Vec::new(), body.as_str())
}

/// The FINALIZE request: `POST /2/media/upload/{id}/finalize`, no body.
pub fn finalize_request(base: &RequestOptions, media_id: &str) -> (r: RequestOptions)
    ensures
        r.method@ == "POST"@,
        r.target matches RequestTarget::Template { path: p, path_params: pp, query: q } && p@
            == "/2/media/upload/{id}/finalize"@ && pairs_view(pp@) == seq![("id"@, media_id@)] && q@.len() == 0,
        r.data@.len() == 0,
        r.auth_type@ == base.auth_type@,
        r.username@ == base.username@,
        r.trace == base.trace,
        texts(r.headers@) == texts(base.headers@),
{
    proof {
        reveal_strlit("");
    }
    phase(base, "POST", "/2/media/upload/{id}/finalize", Some(media_id), Vec::new(), "")
}

/// The STATUS request: `GET /2/media/upload?command=STATUS&media_id=<id>`.
pub fn status_request(base: &RequestOptions, media_id: &str) -> (r: RequestOptions)
    ensures
        r.method@ == "GET"@,
        r.target matches RequestTarget::Template { path: p, path_params: pp, query: q } && p@ == "/2/media/upload"@
            && pairs_view(pp@) == Seq::<(Seq<char>, Seq<char>)>::empty() && pairs_view(q@) == seq![
            ("command"@, "STATUS"@),
            ("media_id"@, media_id@),
        ],
        r.data@.len() == 0,
        r.auth_type@ == base.auth_type@,
        r.username@ == base.username@,
        r.trace == base.trace,
        texts(r.headers@) == texts(base.headers@),
{
    proof {
        reveal_strlit("");
    }
    let q = vec![(owned("command"), owned("STATUS")), (owned("media_id"), owned(media_id))];
    proof {
        assert(pairs_view(q@) =~= seq![("command"@, "STATUS"@), ("media_id"@, media_id@)]);
    }
    phase(base, "GET", "/2/media/upload", None, q, "")
}

/// The APPEND request for one segment: a multipart `POST` to
/// `/2/media/upload/{id}/append` with the segment's index and bytes.
pub fn append_request(base: &RequestOptions, media_id: &str, segment_index: u64, file_name: &str, data: Vec<u8>) -> (r:
    MultipartOptions)
    ensures
        r.request.method@ == "POST"@,
        r.request.target matches RequestTarget::Template { path: p, path_params: pp, query: q } && p@
            == "/2/media/upload/{id}/append"@ && pairs_view(pp@) == seq![("id"@, media_id@)] && q@.len() == 0,
        r.request.data@.len() == 0,
        r.request.auth_type@ == base.auth_type@,
        r.request.username@ == base.username@,
        r.request.trace == base.trace,
        texts(r.request.headers@) == texts(base.headers@),
        pairs_view(r.form_fields@) == seq![("segment_index"@, decimal(segment_index as nat))],
        r.file_field@ == "media"@,
        r.file_path@.len() == 0,
        r.file_name@ == file_name@,
        r.file_data@ == data@,
{
    proof {
        reveal_strlit("");
    }
    let mut req = phase(base, "POST", "/2/media/upload/{id}/append", Some(media_id), Vec::new(), "");
    req.no_auth = false;
    req.verbose = false;
    req.pagination_token = String::new();
    let fields = vec![(owned("segment_index"), u64_string(segment_index))];
    proof {
        assert(pairs_view(fields@) =~= seq![("segment_index"@, decimal(segment_index as nat))]);
    }
    MultipartOptions {
        request: req,
        form_fields: fields,
        file_field: owned("media"),
        file_path: String::new(),
        file_name: owned(file_name),
        file_data: data,
    }
}

/// The number of APPEND segments for a file of `size` bytes.
pub open spec fn segment_count(size: nat) -> nat {
    if size % (CHUNK_SIZE as nat) == 0 {
        size / (CHUNK_SIZE as nat)
    } else {
        size / (CHUNK_SIZE as nat) + 1
    }
}

/// The number of APPEND segments for a file of `size` bytes.
pub fn segments_for(size: u64) -> (r: u64)
    ensures
        r == segment_count(size as nat),
{
    if size % CHUNK_SIZE == 0 {
        size / CHUNK_SIZE
    } else {
        size / CHUNK_SIZE + 1
    }
}

/// Where segment `k` of a file of `size` bytes ends (exclusive).
pub open spec fn segment_end(size: nat, k: nat) -> nat {
    if (k + 1) * (CHUNK_SIZE as nat) <= size {
        (k + 1) * (CHUNK_SIZE as nat)
    } else {
        size
    }
}

/// The segments tile the file: a file has segments exactly when it is not
/// empty, segment `k` starts at `k * CHUNK_SIZE`, every segment but the last
/// ends where the next one starts, and the last ends at the end of the file.
pub proof fn law_segments_tile_file(size: nat)
    ensures
        segment_count(size) == 0 <==> size == 0,
        forall|k: nat| k + 1 < segment_count(size) ==> #[trigger] segment_end(size, k) == (k + 1) * (CHUNK_SIZE as nat),
        segment_count(size) > 0 ==> segment_end(size, (segment_count(size) - 1) as nat) == size,
{
    let c: nat = CHUNK_SIZE as nat;
    let q: nat = size / c;
    let r: nat = size % c;
    assert(size == q * c + r && r < c) by (nonlinear_arith)
        requires
            c == 4194304,
            q == size / c,
            r == size % c,
    ;
    assert forall|k: nat| k + 1 < segment_count(size) implies #[trigger] segment_end(size, k) == (k + 1) * c by {
        assert((k + 1) * c <= q * c) by (nonlinear_arith)
            requires
                k + 1 <= q,
                c > 0,
        ;
        if r == 0 {
            assert(k + 1 < q);
        } else {
            assert(k + 1 <= q);
        }
    }
    if segment_count(size) > 0 {
        let n: nat = (segment_count(size) - 1) as nat;
        if r == 0 {
            assert((n + 1) * c == q * c);
        } else {
            assert((n + 1) * c == q * c + c) by (nonlinear_arith)
                requires
                    n + 1 == q + 1,
            ;
        }
    }
}

/// The byte range of segment `k` of a file of `size` bytes.
pub fn segment_range(size: u64, k: u64) -> (r: (u64, u64))
    requires
        k < segment_count(size as nat),
    ensures
        r.0 == k * CHUNK_SIZE,
        r.1 == segment_end(size as nat, k as nat),
        r.0 < r.1 <= size,
{
    assert(k * CHUNK_SIZE < size) by (nonlinear_arith)
        requires
            k < segment_count(size as nat),
            CHUNK_SIZE == 4194304,
    ;
    let start = k * CHUNK_SIZE;
    let end = if size - start >= CHUNK_SIZE {
        start + CHUNK_SIZE
    } else {
        size
    };
    (start, end)
}

// ── Raw-mode append ──────────────────────────────────────────────────

/// The file-name part of a path, when it has one.
pub uninterp spec fn path_file_name(path: Seq<char>) -> Option<Seq<char>>;

/// `std::path::Path::new(path).file_name()`, converted lossily to text.
/// The contract names the outcome.
#[verifier::external_body]
fn file_name_of(path: &str) -> (r: Option<String>)
    ensures
        crate::auth::opt_view(r) == path_file_name(path@),
{
    std::path::Path::new(path).file_name().map(|n| n.to_string_lossy().to_string())
}

/// The file name sent with a segment: the path's file name, or `file`.
pub fn upload_file_name(path: &str) -> (r: String)
    ensures
        r@ == match path_file_name(path@) {
            Some(n) => n,
            None => "file"@,
        },
{
    match file_name_of(path) {
        Some(n) => n,
        None => owned("file"),
    }
}

/// The multipart request of a raw-mode append: the request's own options,
/// the URL's media id required, the segment index from the data, and the
/// file sent from its path.
pub fn raw_append_request(options: &RequestOptions, media_file: &str) -> (r: Result<MultipartOptions, Error>)
    ensures
        match options.target {
            RequestTarget::Template { path, .. } => r matches Err(Error::Validation(m)) && m@
                == "handle_media_append_request requires a RawUrl target; got Template { path: "@ + debug_str(path@)
                + " } — call this only from the raw-mode path"@,
            RequestTarget::RawUrl(u) => if media_id_of(u@).len() == 0 {
                r matches Err(Error::Validation(m)) && m@ == "media_id is required for append endpoint"@
            } else {
                r matches Ok(mo) && same_request(mo.request, *options) && pairs_view(mo.form_fields@) == seq![
                    ("segment_index"@, raw_segment_index(options.data@)),
                ] && mo.file_field@ == "media"@ && mo.file_path@ == media_file@ && mo.file_name@ == match path_file_name(
                    media_file@,
                ) {
                    Some(n) => n,
                    None => "file"@,
                } && mo.file_data@.len() == 0
            },
        },
{
    let url = match &options.target {
        RequestTarget::RawUrl(u) => u,
        RequestTarget::Template { path, .. } => {
            let mut m = owned("handle_media_append_request requires a RawUrl target; got Template { path: ");
            push_str(&mut m, debug_quoted(path.as_str()).as_str());
            push_str(&mut m, " } — call this only from the raw-mode path");
            return Err(Error::Validation(m));
        },
    };
    let media_id = extract_media_id(url.as_str());
    if media_id.as_str().is_empty() {
        return Err(Error::Validation(owned("media_id is required for append endpoint")));
    }
    let fields = vec![(owned("segment_index"), segment_index_for(options.data.as_str()))];
    proof {
        assert(pairs_view(fields@) =~= seq![("segment_index"@, raw_segment_index(options.data@))]);
    }
    Ok(
        MultipartOptions {
            request: crate::request::copy_request(options),
            form_fields: fields,
            file_field: owned("media"),
            file_path: owned(media_file),
            file_name: upload_file_name(media_file),
            file_data: Vec::new(),
        },
    )
}

// ── Processing ───────────────────────────────────────────────────────

/// What a status poll means.
#[derive(Debug, Clone)]
pub enum ProcessingStep {
    /// Processing succeeded.
    Done,
    /// Poll again after this many seconds.
    Wait(u64),
}

/// The next step after a status poll reporting `state` and the advised
/// wait: done on `succeeded`, an error on `failed`, otherwise wait the
/// advised seconds (at least one).
pub fn processing_step(state: Option<&str>, check_after_secs: Option<u64>) -> (r: Result<ProcessingStep, Error>)
    ensures
        (state matches Some(s) && s@ == "succeeded"@) ==> r matches Ok(ProcessingStep::Done),
        (state matches Some(s) && s@ == "failed"@) ==> (r matches Err(Error::Validation(m)) && m@
            == "media processing failed"@),
        !(state matches Some(s) && (s@ == "succeeded"@ || s@ == "failed"@)) ==> (r matches Ok(
            ProcessingStep::Wait(w),
        ) && w == match check_after_secs {
            Some(c) => if c >= 1 {
                c
            } else {
                1
            },
            None => 1,
        }),
{
    let st = match state {
        Some(x) => x,
        None => "",
    };
    proof {
        reveal_strlit("");
        reveal_strlit("succeeded");
        reveal_strlit("failed");
        assert("succeeded"@ != "failed"@) by {
            assert("succeeded"@.len() != "failed"@.len());
        }
        assert(""@.len() == 0);
        assert(""@ != "failed"@) by {
            assert("failed"@.len() == 6);
        }
        assert(""@ != "succeeded"@) by {
            assert("succeeded"@.len() == 9);
        }
    }
    if str_eq(st, "succeeded") {
        return Ok(ProcessingStep::Done);
    }
    if str_eq(st, "failed") {
        return Err(Error::Validation(owned("media processing failed")));
    }
    let c = match check_after_secs {
        Some(c) => c,
        None => 1,
    };
    Ok(ProcessingStep::Wait(if c >= 1 {
        c
    } else {
        1
    }))
}

/// An upload waits for processing when asked to and the media is video.
pub fn waits_for_processing(wait: bool, media_category: &str) -> (r: bool)
    ensures
        r == (wait && contains(media_category@, "video"@)),
{
    wait && str_contains(media_category, "video")
}

/// The INIT response must carry a media id.
pub fn require_media_id(media_id: &str) -> (r: Result<(), Error>)
    ensures
        media_id@.len() == 0 ==> (r matches Err(Error::Json(m)) && m@ == "failed to parse media ID from init response"@),
        media_id@.len() > 0 ==> r is Ok,
{
    if media_id.is_empty() {
        Err(Error::Json(owned("failed to parse media ID from init response")))
    } else {
        Ok(())
    }
}

} // verus!
