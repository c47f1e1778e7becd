//! The decisions of the OAuth2 callback listener: which addresses to bind,
//! which request path to answer, and what an incoming request means.
//!
//! Binding, accepting and writing to sockets is the caller's; each request
//! it reads is classified here, and the reply to send back is built here.

use vstd::prelude::*;

use crate::error::{join_with, texts, Error};
use crate::text::{pieces, split_on, 
    chars_of, decimal, has_char, index_of, is_white, is_white_char, owned, push_str, starts_with, str_contains,
    str_eq, str_starts_with, string_of_range, u64_string, vec_index_of,
};
use crate::weburl::{parse_url, parse_view, url_parse, ParsedUrl};

verus! {

// ── Addresses and paths ──────────────────────────────────────────────

/// The addresses a listener for `host:port` binds: both loopbacks for
/// `localhost`, a bracketed form for a bare IPv6 address, else `host:port`.
pub open spec fn addresses(host: Seq<char>, port: u16) -> Seq<Seq<char>> {
    if host == "localhost"@ {
        seq!["127.0.0.1:"@ + decimal(port as nat), "[::1]:"@ + decimal(port as nat)]
    } else if has_char(host, ':') && !starts_with(host, "["@) {
        seq!["["@ + host + "]:"@ + decimal(port as nat)]
    } else {
        seq![host + ":"@ + decimal(port as nat)]
    }
}

/// Builds the address list to bind for a URI host and port.
pub fn address_list(host: &str, port: u16) -> (r: Vec<String>)
    ensures
        texts(r@) == addresses(host@, port),
{
    let p = u64_string(port as u64);
    if str_eq(host, "localhost") {
        let mut a = owned("127.0.0.1:");
        push_str(&mut a, p.as_str());
        let mut b = owned("[::1]:");
        push_str(&mut b, p.as_str());
        let r = vec![a, b];
        proof {
            assert(texts(r@) =~= addresses(host@, port));
        }
        return r;
    }
    if crate::text::str_has_char(host, ':') && !str_starts_with(host, "[") {
        let mut a = owned("[");
        push_str(&mut a, host);
        push_str(&mut a, "]:");
        push_str(&mut a, p.as_str());
        let r = vec![a];
        proof {
            assert(texts(r@) =~= addresses(host@, port));
        }
        return r;
    }
    let mut a = owned(host);
    push_str(&mut a, ":");
    push_str(&mut a, p.as_str());
    let r = vec![a];
    proof {
        assert(texts(r@) =~= addresses(host@, port));
    }
    r
}

/// Parses the redirect URI the listener binds from; a parse failure is an
/// auth error carrying the parser's message.
pub fn parse_redirect_uri(redirect_uri: &str) -> (r: Result<ParsedUrl, Error>)
    ensures
        match url_parse(redirect_uri@) {
            Ok(u) => r matches Ok(x) && x@ == u,
            Err(e) => r matches Err(Error::Auth(m)) && m@ == "InvalidURL: "@ + e,
        },
{
    let parsed = parse_url(redirect_uri);
    proof {
        assert(parse_view(parsed) == url_parse(redirect_uri@));
    }
    match parsed {
        Ok(u) => Ok(u),
        Err(e) => {
            let mut m = owned("InvalidURL: ");
            push_str(&mut m, e.as_str());
            Err(Error::Auth(m))
        },
    }
}

/// The request path the listener answers: the URI's path, `/callback`
/// when it is empty.
pub fn callback_path_from(uri: &ParsedUrl) -> (r: String)
    ensures
        r@ == (if uri.path@.len() == 0 {
            "/callback"@
        } else {
            uri.path@
        }),
{
    if uri.path.as_str().is_empty() {
        owned("/callback")
    } else {
        uri.path.clone()
    }
}

/// The request path is the listener's path, exactly or followed by a query.
pub open spec fn path_match(uri_path: Seq<char>, request_path: Seq<char>) -> bool {
    request_path == uri_path || starts_with(request_path, uri_path + "?"@)
}

/// Matches `request_path` against the configured `uri_path`: equal, or
/// `uri_path` followed by `?` and a query.
pub fn path_matches(uri_path: &str, request_path: &str) -> (r: bool)
    ensures
        r == path_match(uri_path@, request_path@),
{
    if str_eq(request_path, uri_path) {
        return true;
    }
    let mut with_q = owned(uri_path);
    push_str(&mut with_q, "?");
    str_starts_with(request_path, with_q.as_str())
}

/// The one-line warning for a listener that bound only one loopback.
pub fn format_partial_bind_warning(bound_addr: &str, failed_addr: &str, failed_err: &str) -> (r: String)
    ensures
        r@ == "callback listener bound "@ + bound_addr@ + " but failed to bind "@ + failed_addr@ + " ("@
            + failed_err@ + "); continuing with the bound address"@,
{
    let mut r = owned("callback listener bound ");
    push_str(&mut r, bound_addr);
    push_str(&mut r, " but failed to bind ");
    push_str(&mut r, failed_addr);
    push_str(&mut r, " (");
    push_str(&mut r, failed_err);
    push_str(&mut r, "); continuing with the bound address");
    r
}

/// Where the listener binds and what it answers, from the redirect URI.
pub fn callback_target(uri: &ParsedUrl) -> (r: Result<(String, u16, String), Error>)
    ensures
        match uri@.host {
            None => r matches Err(Error::Auth(m)) && m@ == "redirect URI has no host"@,
            Some(h) => match uri@.port {
                None => r matches Err(Error::Auth(m)) && m@ == "redirect URI has no port"@,
                Some(p) => r matches Ok(t) && t.0@ == h && t.1 == p && t.2@ == (if uri.path@.len() == 0 {
                    "/callback"@
                } else {
                    uri.path@
                }),
            },
        },
{
    let host = match &uri.host {
        Some(h) => h.clone(),
        None => return Err(Error::Auth(owned("redirect URI has no host"))),
    };
    let port = match uri.port {
        Some(p) => p,
        None => return Err(Error::Auth(owned("redirect URI has no port"))),
    };
    Ok((host, port, callback_path_from(uri)))
}

/// The error when no address could be bound: each failure as
/// `address: error`, comma-separated.
pub fn bind_failure_error(failed: &Vec<(String, String)>) -> (r: Error)
    ensures
        r matches Error::Auth(m) && m@ == "could not bind callback listener: "@ + join_with(
            Seq::new(failed@.len(), |i: int| failed@[i].0@ + ": "@ + failed@[i].1@),
            Seq::empty(),
            ", "@,
        ),
{
    let mut parts: Vec<String> = Vec::new();
    let mut i: usize = 0;
    while i < failed.len()
        invariant
            i <= failed.len(),
            texts(parts@) == Seq::new(failed@.len(), |k: int| failed@[k].0@ + ": "@ + failed@[k].1@).subrange(
                0,
                i as int,
            ),
        decreases failed.len() - i,
    {
        let mut t = failed[i].0.clone();
        push_str(&mut t, ": ");
        push_str(&mut t, failed[i].1.as_str());
        let ghost prev = parts@;
        parts.push(t);
        proof {
            assert(texts(parts@) =~= texts(prev).push(t@));
            assert(texts(parts@) =~= Seq::new(failed@.len(), |k: int| failed@[k].0@ + ": "@ + failed@[k].1@).subrange(
                0,
                i + 1,
            ));
        }
        i = i + 1;
    }
    proof {
        assert(Seq::new(failed@.len(), |k: int| failed@[k].0@ + ": "@ + failed@[k].1@).subrange(0, i as int)
            =~= Seq::new(failed@.len(), |k: int| failed@[k].0@ + ": "@ + failed@[k].1@));
        reveal_strlit("");
        assert(""@ =~= Seq::<char>::empty());
    }
    let detail = crate::error::join_strings(&parts, "", ", ");
    let mut m = owned("could not bind callback listener: ");
    push_str(&mut m, detail.as_str());
    Error::Auth(m)
}

/// After binding: the warning to print, when `localhost` got exactly one of
/// its two addresses.
pub fn partial_bind_warning(host: &str, bound: &Vec<String>, failed: &Vec<(String, String)>) -> (r: Option<String>)
    ensures
        (host@ == "localhost"@ && bound.len() == 1 && failed.len() > 0) ==> (r matches Some(w) && w@
            == "callback listener bound "@ + bound@[0]@ + " but failed to bind "@ + failed@[0].0@ + " ("@
            + failed@[0].1@ + "); continuing with the bound address"@),
        !(host@ == "localhost"@ && bound.len() == 1 && failed.len() > 0) ==> r is None,
{
    if str_eq(host, "localhost") && bound.len() == 1 && failed.len() > 0 {
        Some(format_partial_bind_warning(bound[0].as_str(), failed[0].0.as_str(), failed[0].1.as_str()))
    } else {
        None
    }
}

// ── Reading a request ────────────────────────────────────────────────

/// Length of the leading run of characters whose whiteness is `w`.
pub open spec fn lead_run(s: Seq<char>, w: bool) -> nat
    decreases s.len(),
{
    if s.len() > 0 && is_white(s[0]) == w {
        1 + lead_run(s.drop_first(), w)
    } else {
        0
    }
}

/// A scan that stopped after `i` characters of whiteness `w` computes `lead_run`.
proof fn lemma_lead_run_at(s: Seq<char>, w: bool, i: int)
    requires
        0 <= i <= s.len(),
        forall|k: int| 0 <= k < i ==> is_white(s[k]) == w,
        i == s.len() || is_white(s[i]) != w,
    ensures
        lead_run(s, w) == i,
    decreases i,
{
    if i > 0 {
        lemma_lead_run_at(s.drop_first(), w, i - 1);
    }
}

/// The second whitespace-separated word of `s`, empty when there is none.
pub open spec fn second_word(s: Seq<char>) -> Seq<char> {
    let a = lead_run(s, true);
    let s1 = s.skip(a as int);
    let rest = s1.skip(lead_run(s1, false) as int);
    let s2 = rest.skip(lead_run(rest, true) as int);
    s2.take(lead_run(s2, false) as int)
}

/// The first line of `s`: up to the first `\n`, without a `\r` before it.
pub open spec fn first_line(s: Seq<char>) -> Seq<char> {
    let i = index_of(s, '\n');
    if i < 0 {
        s
    } else if i > 0 && s[i - 1] == '\r' {
        s.take(i - 1)
    } else {
        s.take(i)
    }
}

/// The text between the first `?` and the next one, empty without a `?`.
pub open spec fn query_part(p: Seq<char>) -> Seq<char> {
    let i = index_of(p, '?');
    if i < 0 {
        Seq::empty()
    } else {
        let rest = p.skip(i + 1);
        let j = index_of(rest, '?');
        if j < 0 {
            rest
        } else {
            rest.take(j)
        }
    }
}

/// The `&`-separated segments of a query.
pub open spec fn segments(q: Seq<char>) -> Seq<Seq<char>> {
    pieces(q, '&')
}

/// The value of the last segment `name=value` for `name`.
pub open spec fn param_of(segs: Seq<Seq<char>>, name: Seq<char>) -> Option<Seq<char>>
    decreases segs.len(),
{
    if segs.len() == 0 {
        None
    } else {
        let s = segs.last();
        let i = index_of(s, '=');
        if i >= 0 && s.take(i) == name {
            Some(s.skip(i + 1))
        } else {
            param_of(segs.drop_last(), name)
        }
    }
}

/// What a request to the callback listener means.
#[derive(Debug, Clone)]
pub enum CallbackReply {
    /// The path is not the callback path: answer 404 and keep listening.
    NotFound,
    /// The `state` parameter does not match: answer 400 and fail.
    BadState,
    /// The `code` parameter is missing or empty: answer 400 and fail.
    EmptyCode,
    /// The authorization code arrived: answer 200 and deliver it.
    Code(String),
}

/// The model of a [`CallbackReply`].
pub enum ReplyV {
    NotFound,
    BadState,
    EmptyCode,
    Code(Seq<char>),
}

impl View for CallbackReply {
    type V = ReplyV;

    open spec fn view(&self) -> ReplyV {
        match self {
            CallbackReply::NotFound => ReplyV::NotFound,
            CallbackReply::BadState => ReplyV::BadState,
            CallbackReply::EmptyCode => ReplyV::EmptyCode,
            CallbackReply::Code(c) => ReplyV::Code(c@),
        }
    }
}

/// The meaning of a request whose text is `req`.
pub open spec fn classify(req: Seq<char>, uri_path: Seq<char>, expected_state: Seq<char>) -> ReplyV {
    let path = second_word(first_line(req));
    if !path_match(uri_path, path) {
        ReplyV::NotFound
    } else {
        let segs = segments(query_part(path));
        let state = match param_of(segs, "state"@) {
            Some(v) => v,
            None => Seq::empty(),
        };
        let code = match param_of(segs, "code"@) {
            Some(v) => v,
            None => Seq::empty(),
        };
        if state != expected_state {
            ReplyV::BadState
        } else if code.len() == 0 {
            ReplyV::EmptyCode
        } else {
            ReplyV::Code(code)
        }
    }
}

/// A code is delivered only for a request to the callback path that
/// carries the expected `state`, and it is that request's non-empty `code`.
pub proof fn law_code_needs_matching_state(req: Seq<char>, uri_path: Seq<char>, expected_state: Seq<char>)
    requires
        expected_state.len() > 0,
    ensures
        classify(req, uri_path, expected_state) matches ReplyV::Code(c) ==> {
            let path = second_word(first_line(req));
            let segs = segments(query_part(path));
            &&& path_match(uri_path, path)
            &&& param_of(segs, "state"@) == Some(expected_state)
            &&& param_of(segs, "code"@) == Some(c)
            &&& c.len() > 0
        },
{
}

/// The length of the leading run of whiteness `w` in `v[from..]`.
fn run_len(v: &Vec<char>, from: usize, w: bool) -> (n: usize)
    requires
        from <= v.len(),
    ensures
        n == lead_run(v@.skip(from as int), w),
        from + n <= v.len(),
{
    let mut i = from;
    while i < v.len() && is_white_char(v[i]) == w
        invariant
            from <= i <= v.len(),
            forall|k: int| from <= k < i ==> is_white(v@[k]) == w,
        decreases v.len() - i,
    {
        i = i + 1;
    }
    proof {
        let s = v@.skip(from as int);
        assert forall|k: int| 0 <= k < i - from implies is_white(s[k]) == w by {
            assert(s[k] == v@[from + k]);
        }
        lemma_lead_run_at(s, w, i - from);
    }
    i - from
}

/// The request path of an HTTP request: the second word of its first line.
pub fn request_path_of(request: &str) -> (r: String)
    ensures
        r@ == second_word(first_line(request@)),
{
    let v = chars_of(request);
    proof {
        assert(v@.skip(0) =~= v@);
        crate::text::lemma_index_of_props(v@, '\n');
    }
    let end = match vec_index_of(&v, 0, '\n') {
        Some(i) => {
            if i > 0 && v[i - 1] == '\r' {
                i - 1
            } else {
                i
            }
        },
        None => v.len(),
    };
    proof {
        assert(v@.skip(0) =~= v@);
        crate::text::lemma_index_of_props(v@, '\n');
    }
    let line = string_of_range(&v, 0, end);
    proof {
        assert(line@ =~= first_line(request@));
    }
    let lv = chars_of(line.as_str());
    let a = run_len(&lv, 0, true);
    let b = run_len(&lv, a, false);
    let c = run_len(&lv, a + b, true);
    let d = run_len(&lv, a + b + c, false);
    proof {
        let s = lv@;
        assert(s.skip(0) =~= s);
        assert(s.skip(a as int).skip(b as int) =~= s.skip(a + b));
        assert(s.skip(a + b).skip(c as int) =~= s.skip(a + b + c));
    }
    let r = string_of_range(&lv, a + b + c, a + b + c + d);
    proof {
        assert(r@ =~= lv@.skip(a + b + c).take(d as int));
    }
    r
}

/// The `&`-separated segments of a query.
pub fn query_segments(q: &str) -> (r: Vec<String>)
    ensures
        texts(r@) == segments(q@),
{
    split_on(&chars_of(q), '&')
}

/// The value of the last `name=value` segment for `name`, if any.
fn find_param(segs: &Vec<String>, name: &str) -> (r: Option<String>)
    ensures
        match r {
            Some(v) => param_of(texts(segs@), name@) == Some(v@),
            None => param_of(texts(segs@), name@) is None,
        },
{
    let mut i = segs.len();
    proof {
        assert(texts(segs@).subrange(0, i as int) =~= texts(segs@));
    }
    while i > 0
        invariant
            i <= segs.len(),
            param_of(texts(segs@), name@) == param_of(texts(segs@).subrange(0, i as int), name@),
        decreases i,
    {
        let s = chars_of(segs[i - 1].as_str());
        proof {
            let t = texts(segs@).subrange(0, i as int);
            assert(t.drop_last() =~= texts(segs@).subrange(0, i - 1));
            assert(t.last() == s@);
        }
        match vec_index_of(&s, 0, '=') {
            Some(k) => {
                proof {
                    assert(s@.skip(0) =~= s@);
                    crate::text::lemma_index_of_props(s@, '=');
                }
                let key = string_of_range(&s, 0, k);
                if str_eq(key.as_str(), name) {
                    return Some(string_of_range(&s, k + 1, s.len()));
                }
            },
            None => {
                proof {
                    assert(s@.skip(0) =~= s@);
                }
            },
        }
        i = i - 1;
    }
    None
}

/// Classifies a request read by the callback listener.
pub fn classify_callback_request(request: &str, uri_path: &str, expected_state: &str) -> (r: CallbackReply)
    ensures
        r@ == classify(request@, uri_path@, expected_state@),
{
    let path = request_path_of(request);
    if !path_matches(uri_path, path.as_str()) {
        return CallbackReply::NotFound;
    }
    let pv = chars_of(path.as_str());
    let query = match vec_index_of(&pv, 0, '?') {
        None => Vec::new(),
        Some(i) => {
            proof {
                assert(pv@.skip(0) =~= pv@);
                crate::text::lemma_index_of_props(pv@, '?');
            }
            let tail: Vec<char> = vec_tail(&pv, i + 1);
            match vec_index_of(&tail, 0, '?') {
                None => {
                    proof {
                        assert(tail@.skip(0) =~= tail@);
                    }
                    tail
                },
                Some(j) => {
                    proof {
                        assert(tail@.skip(0) =~= tail@);
                        crate::text::lemma_index_of_props(tail@, '?');
                    }
                    vec_head(&tail, j)
                },
            }
        },
    };
    proof {
        assert(pv@.skip(0) =~= pv@);
        assert(query@ =~= query_part(path@));
    }
    let segs = split_on(&query, '&');
    let state = match find_param(&segs, "state") {
        Some(v) => v,
        None => String::new(),
    };
    let code = match find_param(&segs, "code") {
        Some(v) => v,
        None => String::new(),
    };
    if !str_eq(state.as_str(), expected_state) {
        CallbackReply::BadState
    } else if code.as_str().is_empty() {
        CallbackReply::EmptyCode
    } else {
        CallbackReply::Code(code)
    }
}

/// The characters of `v` from `from` on.
fn vec_tail(v: &Vec<char>, from: usize) -> (r: Vec<char>)
    requires
        from <= v.len(),
    ensures
        r@ == v@.skip(from as int),
{
    let mut r: Vec<char> = Vec::new();
    let mut i = from;
    while i < v.len()
        invariant
            from <= i <= v.len(),
            r@ == v@.subrange(from as int, i as int),
        decreases v.len() - i,
    {
        r.push(v[i]);
        i = i + 1;
    }
    r
}

/// The first `n` characters of `v`.
fn vec_head(v: &Vec<char>, n: usize) -> (r: Vec<char>)
    requires
        n <= v.len(),
    ensures
        r@ == v@.take(n as int),
{
    let mut r: Vec<char> = Vec::new();
    let mut i: usize = 0;
    while i < n
        invariant
            i <= n <= v.len(),
            r@ == v@.subrange(0, i as int),
        decreases n - i,
    {
        r.push(v[i]);
        i = i + 1;
    }
    r
}

/// The HTTP response the listener writes for a reply.
pub open spec fn response_text(r: CallbackReply) -> Seq<char> {
    match r {
        CallbackReply::NotFound => "HTTP/1.1 404 Not Found\r\nContent-Length: 9\r\n\r\nNot Found"@,
        CallbackReply::BadState => "HTTP/1.1 400 Bad Request\r\nContent-Length: 30\r\n\r\nError: invalid state parameter"@,
        CallbackReply::EmptyCode => "HTTP/1.1 400 Bad Request\r\nContent-Length: 31\r\n\r\nError: empty authorization code"@,
        CallbackReply::Code(_) => "HTTP/1.1 200 OK\r\nContent-Length: 53\r\n\r\nAuthentication successful! You can close this window."@,
    }
}

impl CallbackReply {
    /// The HTTP response to write back.
    pub fn response(&self) -> (r: String)
        ensures
            r@ == response_text(*self),
    {
        match self {
            CallbackReply::NotFound => owned("HTTP/1.1 404 Not Found\r\nContent-Length: 9\r\n\r\nNot Found"),
            CallbackReply::BadState => owned(
                "HTTP/1.1 400 Bad Request\r\nContent-Length: 30\r\n\r\nError: invalid state parameter",
            ),
            CallbackReply::EmptyCode => owned(
                "HTTP/1.1 400 Bad Request\r\nContent-Length: 31\r\n\r\nError: empty authorization code",
            ),
            CallbackReply::Code(_) => owned(
                "HTTP/1.1 200 OK\r\nContent-Length: 53\r\n\r\nAuthentication successful! You can close this window.",
            ),
        }
    }

    /// What the listener delivers: nothing for a 404 (it keeps listening),
    /// the code, or the protocol error.
    pub fn delivered(&self) -> (r: Option<Result<String, String>>)
        ensures
            match *self {
                CallbackReply::NotFound => r is None,
                CallbackReply::BadState => r matches Some(Err(e)) && e@ == "invalid state parameter"@,
                CallbackReply::EmptyCode => r matches Some(Err(e)) && e@ == "empty authorization code"@,
                CallbackReply::Code(c) => r matches Some(Ok(x)) && x@ == c@,
            },
    {
        match self {
            CallbackReply::NotFound => None,
            CallbackReply::BadState => Some(Err(owned("invalid state parameter"))),
            CallbackReply::EmptyCode => Some(Err(owned("empty authorization code"))),
            CallbackReply::Code(c) => Some(Ok(c.clone())),
        }
    }
}

/// The flow's result for what a listener delivered.
pub fn callback_result(delivered: Result<String, String>) -> (r: Result<String, Error>)
    ensures
        match delivered {
            Ok(c) => r matches Ok(x) && x@ == c@,
            Err(e) => r matches Err(Error::Auth(m)) && m@ == "CallbackError: "@ + e@,
        },
{
    match delivered {
        Ok(c) => Ok(c),
        Err(e) => {
            let mut m = owned("CallbackError: ");
            push_str(&mut m, e.as_str());
            Err(Error::Auth(m))
        },
    }
}

} // verus!
