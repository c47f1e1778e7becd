//! URL construction for a request target: path-template substitution and
//! percent-encoding of path-parameter and query values.

use vstd::prelude::*;
use vstd::utf8::*;

use crate::error::Error;
use crate::request::{pairs_view, RequestTarget};
use crate::text::{
    ascii_lowercase, chars_of, debug_quoted, debug_str, to_lower_unicode, unicode_lower, ends_with, has_char, index_of, is_ascii_char, lemma_index_of_props,
    lower, owned, push_str, starts_with, str_ends_with, str_has_char, str_starts_with,
    string_of_range, trim_start, trim_start_str, vec_index_of,
};

verus! {

broadcast use vstd::utf8::char_is_scalar;

// ── Percent-encoding model ───────────────────────────────────────────

/// Characters encoded in path-parameter and query values: the ASCII
/// controls plus ` "#%&+,/:;<=>?@[\]^`{|}`.
pub open spec fn in_value_set(c: char) -> bool {
    ||| (c as u32) < 0x20
    ||| (c as u32) == 0x7f
    ||| c == ' '
    ||| c == '"'
    ||| c == '#'
    ||| c == '%'
    ||| c == '&'
    ||| c == '+'
    ||| c == ','
    ||| c == '/'
    ||| c == ':'
    ||| c == ';'
    ||| c == '<'
    ||| c == '='
    ||| c == '>'
    ||| c == '?'
    ||| c == '@'
    ||| c == '['
    ||| c == '\\'
    ||| c == ']'
    ||| c == '^'
    ||| c == '`'
    ||| c == '{'
    ||| c == '|'
    ||| c == '}'
}

/// Upper-case hexadecimal digit for `0 <= n < 16`.
pub open spec fn hex_digit(n: int) -> char {
    if n < 10 {
        (n + 48) as char
    } else {
        (n + 55) as char
    }
}

/// `%XX` for one byte.
pub open spec fn pct_byte(b: u8) -> Seq<char> {
    seq!['%', hex_digit((b / 16) as int), hex_digit((b % 16) as int)]
}

/// `%XX` for each byte, in order.
pub open spec fn pct_bytes(bs: Seq<u8>) -> Seq<char>
    decreases bs.len(),
{
    if bs.len() == 0 {
        Seq::empty()
    } else {
        pct_bytes(bs.drop_last()) + pct_byte(bs.last())
    }
}

/// One character encoded: ASCII outside the set stays, everything else
/// becomes the `%XX` form of its UTF-8 bytes.
pub open spec fn encode_value_char(c: char) -> Seq<char> {
    if is_ascii_char(c) && !in_value_set(c) {
        seq![c]
    } else {
        pct_bytes(encode_scalar(c as u32))
    }
}

/// Percent-encoding of a whole value.
pub open spec fn encode_value(s: Seq<char>) -> Seq<char>
    decreases s.len(),
{
    if s.len() == 0 {
        Seq::empty()
    } else {
        encode_value(s.drop_last()) + encode_value_char(s.last())
    }
}

// ── Template rendering model ─────────────────────────────────────────

/// A literal template character is copied byte by byte: ASCII stays,
/// other characters become one character per UTF-8 byte.
pub open spec fn literal_chars(c: char) -> Seq<char> {
    if is_ascii_char(c) {
        seq![c]
    } else {
        encode_scalar(c as u32).map_values(|b: u8| b as char)
    }
}

/// Value of the first pair named `k`.
pub open spec fn lookup(ps: Seq<(Seq<char>, Seq<char>)>, k: Seq<char>) -> Option<Seq<char>>
    decreases ps.len(),
{
    if ps.len() == 0 {
        None
    } else if ps[0].0 == k {
        Some(ps[0].1)
    } else {
        lookup(ps.drop_first(), k)
    }
}

/// A path-parameter value that would change the URL's shape.
pub open spec fn forbidden_param(v: Seq<char>) -> bool {
    has_char(v, '/') || has_char(v, '?') || has_char(v, '#') || has_char(v, '%')
}

/// What rendering a template yields.
pub enum Rendered {
    /// The rendered path.
    Path(Seq<char>),
    /// A `{name}` segment had no value.
    Missing(Seq<char>),
    /// A `{name}` segment's value holds a forbidden character.
    Bad(Seq<char>, Seq<char>),
}

/// `p` put in front of a rendered path; errors pass through.
pub open spec fn prefix(p: Seq<char>, r: Rendered) -> Rendered {
    match r {
        Rendered::Path(x) => Rendered::Path(p + x),
        _ => r,
    }
}

/// Substitutes `{name}` segments of `t`, left to right; the first missing
/// or forbidden value stops the rendering.
pub open spec fn render(t: Seq<char>, ps: Seq<(Seq<char>, Seq<char>)>) -> Rendered
    decreases t.len(),
{
    if t.len() == 0 {
        Rendered::Path(Seq::empty())
    } else if t[0] == '{' && index_of(t.drop_first(), '}') >= 0 {
        let end = index_of(t.drop_first(), '}');
        proof {
            lemma_index_of_props(t.drop_first(), '}');
        }
        let name = t.subrange(1, end + 1);
        match lookup(ps, name) {
            None => Rendered::Missing(name),
            Some(v) => if forbidden_param(v) {
                Rendered::Bad(name, v)
            } else {
                prefix(encode_value(v), render(t.skip(end + 2), ps))
            },
        }
    } else {
        prefix(literal_chars(t[0]), render(t.drop_first(), ps))
    }
}

/// The error text for a `{name}` segment without a value.
pub open spec fn missing_param_text(template: Seq<char>, name: Seq<char>) -> Seq<char> {
    "path template "@ + debug_str(template) + " references {"@ + name + "} but path_params has no such key"@
}

/// The error text for a raw URL of another scheme.
pub open spec fn bad_scheme_text(url: Seq<char>) -> Seq<char> {
    "URL must start with http:// or https://: "@ + url
}

/// `base` and a rendered path joined with exactly one `/`.
pub open spec fn join_base(base: Seq<char>, path: Seq<char>) -> Seq<char> {
    let b = if ends_with(base, seq!['/']) { base } else { base.push('/') };
    let p = if starts_with(path, seq!['/']) { path.drop_first() } else { path };
    b + p
}

/// `k=v` pairs, both encoded, joined with `&`.
pub open spec fn query_string(q: Seq<(Seq<char>, Seq<char>)>) -> Seq<char>
    decreases q.len(),
{
    if q.len() == 0 {
        Seq::empty()
    } else {
        let sep = if q.len() > 1 { seq!['&'] } else { Seq::empty() };
        query_string(q.drop_last()) + sep + encode_value(q.last().0) + seq!['='] + encode_value(
            q.last().1,
        )
    }
}

/// Full URL of a rendered template path.
pub open spec fn template_url(base: Seq<char>, path: Seq<char>, q: Seq<(Seq<char>, Seq<char>)>) -> Seq<char> {
    let u = join_base(base, path);
    if q.len() == 0 {
        u
    } else {
        u + seq!['?'] + query_string(q)
    }
}

/// Raw URLs must use `http` or `https` (compared case-insensitively, after
/// leading whitespace).
pub open spec fn raw_scheme_ok(url: Seq<char>) -> bool {
    let l = lower(trim_start(url));
    starts_with(l, "https://"@) || starts_with(l, "http://"@)
}

// ── Lemmas ───────────────────────────────────────────────────────────

proof fn lemma_prefix_assoc(a: Seq<char>, b: Seq<char>, r: Rendered)
    ensures
        prefix(a, prefix(b, r)) == prefix(a + b, r),
{
    match r {
        Rendered::Path(x) => {
            assert(a + (b + x) =~= (a + b) + x);
        },
        _ => {},
    }
}

proof fn lemma_prefix_empty(r: Rendered)
    ensures
        prefix(Seq::empty(), r) == r,
{
    match r {
        Rendered::Path(x) => {
            assert(Seq::<char>::empty() + x =~= x);
        },
        _ => {},
    }
}

// ── Executable encoding ──────────────────────────────────────────────

fn in_value_set_exec(c: char) -> (r: bool)
    ensures
        r == in_value_set(c),
{
    let v = c as u32;
    v < 0x20 || v == 0x7f || c == ' ' || c == '"' || c == '#' || c == '%' || c == '&' || c == '+'
        || c == ',' || c == '/' || c == ':' || c == ';' || c == '<' || c == '=' || c == '>' || c
        == '?' || c == '@' || c == '[' || c == '\\' || c == ']' || c == '^' || c == '`' || c == '{'
        || c == '|' || c == '}'
}

fn hex_digit_exec(n: u8) -> (r: char)
    requires
        n < 16,
    ensures
        r == hex_digit(n as int),
{
    if n < 10 {
        (n + 48) as char
    } else {
        (n + 55) as char
    }
}

/// The UTF-8 bytes of one character.
pub fn utf8_bytes(c: char) -> (r: Vec<u8>)
    ensures
        r@ == encode_scalar(c as u32),
{
    let v = c as u32;
    let mut r: Vec<u8> = Vec::new();
    if v <= 0x7F {
        r.push((v & 0x7F) as u8);
    } else if v <= 0x7FF {
        r.push(0xC0 | ((v >> 6) & 0x1F) as u8);
        r.push(0x80 | (v & 0x3F) as u8);
    } else if v <= 0xFFFF {
        r.push(0xE0 | ((v >> 12) & 0x0F) as u8);
        r.push(0x80 | ((v >> 6) & 0x3F) as u8);
        r.push(0x80 | (v & 0x3F) as u8);
    } else {
        r.push(0xF0 | ((v >> 18) & 0x7) as u8);
        r.push(0x80 | ((v >> 12) & 0x3F) as u8);
        r.push(0x80 | ((v >> 6) & 0x3F) as u8);
        r.push(0x80 | (v & 0x3F) as u8);
    }
    proof {
        assert(is_scalar(v));
        assert(r@ =~= encode_scalar(v));
    }
    r
}

/// Appends `%XX` for each byte of `bs` to `out`.
fn push_pct_bytes(out: &mut String, bs: &Vec<u8>)
    ensures
        final(out)@ == old(out)@ + pct_bytes(bs@),
{
    let mut i: usize = 0;
    while i < bs.len()
        invariant
            i <= bs.len(),
            out@ == old(out)@ + pct_bytes(bs@.subrange(0, i as int)),
        decreases bs.len() - i,
    {
        let b = bs[i];
        out.push('%');
        out.push(hex_digit_exec(b / 16));
        out.push(hex_digit_exec(b % 16));
        proof {
            let s = bs@.subrange(0, i + 1);
            assert(s.drop_last() =~= bs@.subrange(0, i as int));
            assert(s.last() == b);
            assert(pct_bytes(s) == pct_bytes(s.drop_last()) + pct_byte(b));
            assert(out@ =~= old(out)@ + pct_bytes(s));
        }
        i = i + 1;
    }
    assert(bs@.subrange(0, bs.len() as int) =~= bs@);
}

/// Appends the encoding of one character to `out`.
fn push_encoded_char(out: &mut String, c: char)
    ensures
        final(out)@ == old(out)@ + encode_value_char(c),
{
    if (c as u32) < 128 && !in_value_set_exec(c) {
        out.push(c);
        assert(out@ =~= old(out)@ + seq![c]);
    } else {
        let bs = utf8_bytes(c);
        push_pct_bytes(out, &bs);
    }
}

/// Appends the percent-encoding of `v[from..to]` to `out`.
fn push_encoded_range(out: &mut String, v: &Vec<char>, from: usize, to: usize)
    requires
        from <= to <= v.len(),
    ensures
        final(out)@ == old(out)@ + encode_value(v@.subrange(from as int, to as int)),
{
    let mut i = from;
    while i < to
        invariant
            from <= i <= to <= v.len(),
            out@ == old(out)@ + encode_value(v@.subrange(from as int, i as int)),
        decreases to - i,
    {
        push_encoded_char(out, v[i]);
        proof {
            let s = v@.subrange(from as int, i + 1);
            assert(s.drop_last() =~= v@.subrange(from as int, i as int));
            assert(s.last() == v@[i as int]);
            assert(out@ =~= old(out)@ + encode_value(s));
        }
        i = i + 1;
    }
}

/// Appends the percent-encoding of `value` to `out`.
pub fn write_encoded(out: &mut String, value: &str)
    ensures
        final(out)@ == old(out)@ + encode_value(value@),
{
    let v = chars_of(value);
    push_encoded_range(out, &v, 0, v.len());
    assert(v@.subrange(0, v.len() as int) =~= value@);
}

/// Percent-encoding of `value` against the value set.
pub fn encode_value_string(value: &str) -> (r: String)
    ensures
        r@ == encode_value(value@),
{
    let mut r = String::new();
    write_encoded(&mut r, value);
    assert(r@ =~= encode_value(value@));
    r
}

/// Appends the literal copy of one template character.
fn push_literal_char(out: &mut String, c: char)
    ensures
        final(out)@ == old(out)@ + literal_chars(c),
{
    if (c as u32) < 128 {
        out.push(c);
        assert(out@ =~= old(out)@ + seq![c]);
    } else {
        let bs = utf8_bytes(c);
        let mut i: usize = 0;
        while i < bs.len()
            invariant
                i <= bs.len(),
                bs@ == encode_scalar(c as u32),
                out@ == old(out)@ + bs@.subrange(0, i as int).map_values(|b: u8| b as char),
            decreases bs.len() - i,
        {
            out.push(bs[i] as char);
            assert(bs@.subrange(0, i + 1).map_values(|b: u8| b as char) =~= bs@.subrange(
                0,
                i as int,
            ).map_values(|b: u8| b as char).push(bs@[i as int] as char));
            i = i + 1;
        }
        assert(bs@.subrange(0, bs.len() as int) =~= bs@);
    }
}

/// The first value named `name` in `params`.
fn lookup_param<'a>(params: &'a Vec<(String, String)>, name: &String) -> (r: Option<&'a String>)
    ensures
        r matches Some(v) ==> lookup(pairs_view(params@), name@) == Some(v@),
        r is None ==> lookup(pairs_view(params@), name@) is None,
{
    let mut i: usize = 0;
    assert(pairs_view(params@).skip(0) =~= pairs_view(params@));
    while i < params.len()
        invariant
            i <= params.len(),
            lookup(pairs_view(params@), name@) == lookup(pairs_view(params@).skip(i as int), name@),
        decreases params.len() - i,
    {
        proof {
            let s = pairs_view(params@).skip(i as int);
            assert(s[0] == (params@[i as int].0@, params@[i as int].1@));
            assert(s.drop_first() =~= pairs_view(params@).skip(i + 1));
        }
        if params[i].0 == *name {
            return Some(&params[i].1);
        }
        i = i + 1;
    }
    None
}

/// Does `v` hold a character that would change the URL's shape?
pub fn is_forbidden_param(v: &str) -> (r: bool)
    ensures
        r == forbidden_param(v@),
{
    str_has_char(v, '/') || str_has_char(v, '?') || str_has_char(v, '#') || str_has_char(v, '%')
}

/// Substitutes `{name}` segments in a path template using `path_params`.
///
/// Each substituted value is rejected if it contains `/`, `?`, `#` or `%`,
/// then percent-encoded. A `{name}` missing from `path_params` is a
/// programmer error and surfaces as [`Error::Internal`].
pub fn render_template_path(template: &str, path_params: &Vec<(String, String)>) -> (r: Result<
    String,
    Error,
>)
    ensures
        match render(template@, pairs_view(path_params@)) {
            Rendered::Path(p) => r matches Ok(s) && s@ == p,
            Rendered::Missing(n) => r matches Err(Error::Internal(m)) && m@ == missing_param_text(template@, n),
            Rendered::Bad(n, v) => r matches Err(Error::InvalidPathParam { name, value }) && name@
                == n && value@ == v,
        },
{
    let t = chars_of(template);
    let ghost ps = pairs_view(path_params@);
    let mut out = String::new();
    let mut i: usize = 0;
    proof {
        lemma_prefix_empty(render(t@, ps));
        assert(t@.skip(0) =~= t@);
    }
    while i < t.len()
        invariant
            i <= t.len(),
            t@ == template@,
            ps == pairs_view(path_params@),
            render(t@, ps) == prefix(out@, render(t@.skip(i as int), ps)),
        decreases t.len() - i,
    {
        let ghost rest = t@.skip(i as int);
        assert(rest[0] == t@[i as int]);
        assert(rest.drop_first() =~= t@.skip(i + 1));
        if t[i] == '{' {
            let found = vec_index_of(&t, i + 1, '}');
            if let Some(end) = found {
                proof {
                    lemma_index_of_props(t@.skip(i + 1), '}');
                    assert(t@.skip(i + 1) =~= rest.drop_first());
                }
                let name = string_of_range(&t, i + 1, i + 1 + end);
                assert(name@ =~= rest.subrange(1, end + 1));
                match lookup_param(path_params, &name) {
                    None => {
                        let mut m = String::new();
                        push_str(&mut m, "path template ");
                        push_str(&mut m, debug_quoted(template).as_str());
                        push_str(&mut m, " references {");
                        push_str(&mut m, name.as_str());
                        push_str(&mut m, "} but path_params has no such key");
                        return Err(Error::Internal(m));
                    },
                    Some(value) => {
                        if is_forbidden_param(value.as_str()) {
                            return Err(
                                Error::InvalidPathParam { name: name, value: value.clone() },
                            );
                        }
                        let ghost before = out@;
                        write_encoded(&mut out, value.as_str());
                        proof {
                            assert(rest.skip(end + 2) =~= t@.skip(i + 1 + end + 1));
                            lemma_prefix_assoc(before, encode_value(value@), render(t@.skip(i + 1 + end + 1), ps));
                        }
                        i = i + 1 + end + 1;
                        continue ;
                    },
                }
            }
        }
        let ghost before = out@;
        push_literal_char(&mut out, t[i]);
        proof {
            lemma_prefix_assoc(before, literal_chars(t@[i as int]), render(t@.skip(i + 1), ps));
        }
        i = i + 1;
    }
    proof {
        assert(t@.skip(i as int) =~= Seq::<char>::empty());
        assert(out@ + Seq::<char>::empty() =~= out@);
    }
    Ok(out)
}

/// Does a raw URL use `http` or `https`?
pub fn raw_url_scheme_ok(url: &str) -> (r: bool)
    ensures
        r == raw_scheme_ok(url@),
{
    let t = trim_start_str(url);
    let l = ascii_lowercase(t.as_str());
    str_starts_with(l.as_str(), "https://") || str_starts_with(l.as_str(), "http://")
}

/// Validates that a raw URL uses the `http` or `https` scheme.
///
/// Refuses `file://`, `ftp://`, `data:` and the like before any handle to
/// the filesystem or an outside service is created.
pub fn validate_raw_url_scheme(url: &str) -> (r: Result<(), Error>)
    ensures
        raw_scheme_ok(url@) ==> r is Ok,
        !raw_scheme_ok(url@) ==> (r matches Err(Error::InvalidUrl(m)) && m@ == bad_scheme_text(url@)),
{
    if raw_url_scheme_ok(url) {
        return Ok(());
    }
    let mut m = String::new();
    push_str(&mut m, "URL must start with http:// or https://: ");
    push_str(&mut m, url);
    assert(m@ =~= "URL must start with http:// or https://: "@ + url@);
    Err(Error::InvalidUrl(m))
}

/// What building a URL for `target` against `base` yields.
pub open spec fn url_ensures(base: Seq<char>, target: RequestTarget, r: Result<String, Error>) -> bool {
    match target {
        RequestTarget::RawUrl(raw) => {
            &&& raw_scheme_ok(raw@) ==> (r matches Ok(s) && s@ == raw@)
            &&& !raw_scheme_ok(raw@) ==> (r matches Err(Error::InvalidUrl(m)) && m@ == bad_scheme_text(raw@))
        },
        RequestTarget::Template { path, path_params, query } => match render(
            path@,
            pairs_view(path_params@),
        ) {
            Rendered::Path(p) => r matches Ok(s) && s@ == template_url(base, p, pairs_view(query@)),
            Rendered::Missing(n) => r matches Err(Error::Internal(m)) && m@ == missing_param_text(path@, n),
            Rendered::Bad(n, v) => r matches Err(Error::InvalidPathParam { name, value }) && name@
                == n && value@ == v,
        },
    }
}

/// Appends `?k=v&...` for the query pairs to `url`.
fn push_query(url: &mut String, query: &Vec<(String, String)>)
    requires
        query.len() > 0,
    ensures
        final(url)@ == old(url)@ + seq!['?'] + query_string(pairs_view(query@)),
{
    url.push('?');
    let ghost start = url@;
    let mut i: usize = 0;
    assert(pairs_view(query@).subrange(0, 0) =~= Seq::<(Seq<char>, Seq<char>)>::empty());
    assert(start =~= start + query_string(pairs_view(query@).subrange(0, 0)));
    while i < query.len()
        invariant
            i <= query.len(),
            url@ == start + query_string(pairs_view(query@).subrange(0, i as int)),
        decreases query.len() - i,
    {
        let ghost before = url@;
        if i > 0 {
            url.push('&');
        }
        write_encoded(url, query[i].0.as_str());
        url.push('=');
        write_encoded(url, query[i].1.as_str());
        proof {
            let q = pairs_view(query@).subrange(0, i + 1);
            assert(q.drop_last() =~= pairs_view(query@).subrange(0, i as int));
            assert(q.last() == (query@[i as int].0@, query@[i as int].1@));
            let sep: Seq<char> = if q.len() > 1 { seq!['&'] } else { Seq::empty() };
            assert(url@ =~= before + sep + encode_value(q.last().0) + seq!['='] + encode_value(q.last().1));
            assert(url@ =~= start + query_string(q));
        }
        i = i + 1;
    }
    assert(pairs_view(query@).subrange(0, query.len() as int) =~= pairs_view(query@));
}

/// `base` and `path` joined with exactly one `/`.
fn join_base_path(base: &str, path: &str) -> (r: String)
    ensures
        r@ == join_base(base@, path@),
{
    let mut url = owned(base);
    if !str_ends_with(url.as_str(), "/") {
        url.push('/');
    }
    let rv = chars_of(path);
    proof {
        reveal_strlit("/");
    }
    if str_starts_with(path, "/") {
        let tail = string_of_range(&rv, 1, rv.len());
        push_str(&mut url, tail.as_str());
    } else {
        push_str(&mut url, path);
    }
    proof {
        reveal_strlit("/");
        assert(seq!['/'] =~= "/"@);
        if starts_with(path@, seq!['/']) {
            assert(rv@.subrange(1, rv@.len() as int) =~= path@.drop_first());
        }
    }
    assert(url@ =~= join_base(base@, path@));
    url
}

/// The URL a raw-mode endpoint names: itself when it starts with `http`
/// (in any case), else the endpoint joined to `base_url`.
pub fn endpoint_url(base_url: &str, endpoint: &str) -> (r: String)
    ensures
        r@ == (if starts_with(unicode_lower(endpoint@), "http"@) {
            endpoint@
        } else {
            join_base(base_url@, endpoint@)
        }),
{
    let l = to_lower_unicode(endpoint);
    if str_starts_with(l.as_str(), "http") {
        owned(endpoint)
    } else {
        join_base_path(base_url, endpoint)
    }
}

/// Renders a [`RequestTarget`] against `base_url` into a full URL string.
pub fn build_url_for_target(base_url: &str, target: &RequestTarget) -> (r: Result<String, Error>)
    ensures
        url_ensures(base_url@, *target, r),
{
    match target {
        RequestTarget::Template { path, path_params, query } => {
            let rendered = render_template_path(path.as_str(), path_params)?;
            let mut url = join_base_path(base_url, rendered.as_str());
            if query.len() > 0 {
                push_query(&mut url, query);
            }
            Ok(url)
        },
        RequestTarget::RawUrl(raw) => {
            if raw_url_scheme_ok(raw.as_str()) {
                Ok(raw.clone())
            } else {
                let e = validate_raw_url_scheme(raw.as_str());
                match e {
                    Err(x) => Err(x),
                    Ok(()) => Err(Error::InvalidUrl(String::new())),
                }
            }
        },
    }
}

/// Renders the path of a template target without base URL or query.
///
/// A raw-URL target has no template to render and is an internal error.
pub fn render_template_template(target: &RequestTarget) -> (r: Result<String, Error>)
    ensures
        match *target {
            RequestTarget::RawUrl(_) => r matches Err(Error::Internal(_)),
            RequestTarget::Template { path, path_params, .. } => match render(
                path@,
                pairs_view(path_params@),
            ) {
                Rendered::Path(p) => r matches Ok(s) && s@ == p,
                Rendered::Missing(n) => r matches Err(Error::Internal(m)) && m@ == missing_param_text(path@, n),
                Rendered::Bad(n, v) => r matches Err(Error::InvalidPathParam { name, value })
                    && name@ == n && value@ == v,
            },
        },
{
    match target {
        RequestTarget::Template { path, path_params, .. } => render_template_path(
            path.as_str(),
            path_params,
        ),
        RequestTarget::RawUrl(_) => Err(
            Error::Internal(owned("RawUrl target has no template to render")),
        ),
    }
}

} // verus!
