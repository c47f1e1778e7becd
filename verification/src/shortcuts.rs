//! The shortcut commands: normalising their identifiers, validating their
//! inputs, and the request each one sends.

use vstd::prelude::*;

use crate::error::{texts, Error};
use crate::media::{json_escape, push_json_escaped};
use crate::request::{copy_strings, pairs_view, target_view, CallOptions, RequestOptions, RequestTarget, TargetV};
use crate::text::{
    chars_of, decimal, owned, pieces, push_str, split_on, starts_with, str_eq, str_starts_with, string_of_range,
    trim, trim_str, u64_string,
};
use crate::weburl::{parse_url, url_parse};

verus! {

// ── Identifiers ──────────────────────────────────────────────────────

/// `s` without leading characters equal to `c`.
pub open spec fn strip_leading(s: Seq<char>, c: char) -> Seq<char>
    decreases s.len(),
{
    if s.len() > 0 && s[0] == c {
        strip_leading(s.drop_first(), c)
    } else {
        s
    }
}

/// `s` without trailing characters equal to `c`.
pub open spec fn strip_trailing(s: Seq<char>, c: char) -> Seq<char>
    decreases s.len(),
{
    if s.len() > 0 && s.last() == c {
        strip_trailing(s.drop_last(), c)
    } else {
        s
    }
}

/// The part after the first `status` part that has a successor.
pub open spec fn after_status(parts: Seq<Seq<char>>) -> Option<Seq<char>>
    decreases parts.len(),
{
    if parts.len() < 2 {
        None
    } else if parts[0] == "status"@ {
        Some(parts[1])
    } else {
        after_status(parts.drop_first())
    }
}

/// The post id an input names: for an `http(s)://` URL that parses, the
/// path part following `status`; otherwise the trimmed input.
pub open spec fn post_id_of(input: Seq<char>) -> Seq<char> {
    let t = trim(input);
    if starts_with(t, "http://"@) || starts_with(t, "https://"@) {
        match url_parse(t) {
            Ok(u) => match after_status(pieces(strip_trailing(strip_leading(u.path, '/'), '/'), '/')) {
                Some(id) => id,
                None => t,
            },
            Err(_) => t,
        }
    } else {
        t
    }
}

/// `v` without leading `c` characters.
fn strip_leading_exec(v: &Vec<char>, c: char) -> (r: usize)
    ensures
        r <= v.len(),
        v@.skip(r as int) == strip_leading(v@, c),
{
    let mut i: usize = 0;
    proof {
        assert(v@.skip(0) =~= v@);
    }
    while i < v.len() && v[i] == c
        invariant
            i <= v.len(),
            strip_leading(v@, c) == strip_leading(v@.skip(i as int), c),
        decreases v.len() - i,
    {
        proof {
            assert(v@.skip(i as int).drop_first() =~= v@.skip(i + 1));
        }
        i = i + 1;
    }
    i
}

/// `v[..n]` without trailing `c` characters.
fn strip_trailing_exec(v: &Vec<char>, n: usize, c: char) -> (r: usize)
    requires
        n <= v.len(),
    ensures
        r <= n,
        v@.take(r as int) == strip_trailing(v@.take(n as int), c),
{
    let mut j = n;
    while j > 0 && v[j - 1] == c
        invariant
            j <= n <= v.len(),
            strip_trailing(v@.take(n as int), c) == strip_trailing(v@.take(j as int), c),
        decreases j,
    {
        proof {
            assert(v@.take(j as int).drop_last() =~= v@.take(j - 1));
        }
        j = j - 1;
    }
    j
}

/// The part after the first `status` part that has a successor.
fn after_status_exec(parts: &Vec<String>) -> (r: Option<String>)
    ensures
        crate::auth::opt_view(r) == after_status(texts(parts@)),
{
    let mut i: usize = 0;
    proof {
        assert(texts(parts@).skip(0) =~= texts(parts@));
    }
    while parts.len() > 1 && i < parts.len() - 1
        invariant
            i <= parts.len(),
            after_status(texts(parts@)) == after_status(texts(parts@).skip(i as int)),
        decreases parts.len() - i,
    {
        proof {
            let t = texts(parts@).skip(i as int);
            assert(t[0] == parts@[i as int]@ && t[1] == parts@[i + 1]@);
            assert(t.drop_first() =~= texts(parts@).skip(i + 1));
        }
        if str_eq(parts[i].as_str(), "status") {
            return Some(parts[i + 1].clone());
        }
        i = i + 1;
    }
    None
}

/// Extracts a post id from a full URL or returns the trimmed input.
pub fn resolve_post_id(input: &str) -> (r: String)
    ensures
        r@ == post_id_of(input@),
{
    let t = trim_str(input);
    if str_starts_with(t.as_str(), "http://") || str_starts_with(t.as_str(), "https://") {
        if let Ok(u) = parse_url(t.as_str()) {
            let pv = chars_of(u.path.as_str());
            let a = strip_leading_exec(&pv, '/');
            let rest = string_of_range(&pv, a, pv.len());
            let rv = chars_of(rest.as_str());
            let b = strip_trailing_exec(&rv, rv.len(), '/');
            proof {
                assert(rv@.take(rv@.len() as int) =~= rv@);
                assert(rest@ =~= pv@.skip(a as int));
            }
            let core = string_of_range(&rv, 0, b);
            proof {
                assert(core@ =~= rv@.take(b as int));
            }
            let parts = split_on(&chars_of(core.as_str()), '/');
            if let Some(id) = after_status_exec(&parts) {
                return id;
            }
        }
    }
    t
}

/// The username an input names: trimmed, then one leading `@` removed.
pub open spec fn username_of(input: Seq<char>) -> Seq<char> {
    let t = trim(input);
    if t.len() > 0 && t[0] == '@' {
        t.drop_first()
    } else {
        t
    }
}

/// Normalises a username: trims it and strips a leading `@` if present.
pub fn resolve_username(input: &str) -> (r: String)
    ensures
        r@ == username_of(input@),
{
    let t = trim_str(input);
    let v = chars_of(t.as_str());
    if v.len() > 0 && v[0] == '@' {
        let r = string_of_range(&v, 1, v.len());
        proof {
            assert(r@ =~= v@.drop_first());
        }
        r
    } else {
        t
    }
}

// ── Validators ───────────────────────────────────────────────────────

/// Longest post body the platform accepts, in characters.
pub const POST_BODY_MAX_CHARS: usize = 280;

/// Most media a post can carry.
pub const POST_MEDIA_MAX: usize = 4;

/// Validates a post, reply or quote body: non-empty, at most 280 characters.
pub fn validate_post_body(text: &str) -> (r: Result<(), &'static str>)
    ensures
        text@.len() == 0 ==> r == Err::<(), &'static str>("empty-body"),
        text@.len() > 0 && text@.len() > POST_BODY_MAX_CHARS ==> r == Err::<(), &'static str>("body-too-long"),
        text@.len() > 0 && text@.len() <= POST_BODY_MAX_CHARS ==> r is Ok,
{
    if text.is_empty() {
        return Err("empty-body");
    }
    if chars_of(text).len() > POST_BODY_MAX_CHARS {
        return Err("body-too-long");
    }
    Ok(())
}

/// Validates a post's media list: at most four attachments.
pub fn validate_media_attachments(ids: &Vec<String>) -> (r: Result<(), &'static str>)
    ensures
        ids.len() > POST_MEDIA_MAX ==> r == Err::<(), &'static str>("too-many-attachments"),
        ids.len() <= POST_MEDIA_MAX ==> r is Ok,
{
    if ids.len() > POST_MEDIA_MAX {
        return Err("too-many-attachments");
    }
    Ok(())
}

/// Validates a DM body: non-empty.
pub fn validate_dm_body(text: &str) -> (r: Result<(), &'static str>)
    ensures
        text@.len() == 0 ==> r == Err::<(), &'static str>("empty-body"),
        text@.len() > 0 ==> r is Ok,
{
    if text.is_empty() {
        return Err("empty-body");
    }
    Ok(())
}

/// Validates a username target: something must remain after normalising.
pub fn validate_target_username(input: &str) -> (r: Result<(), &'static str>)
    ensures
        username_of(input@).len() == 0 ==> r == Err::<(), &'static str>("empty-username"),
        username_of(input@).len() > 0 ==> r is Ok,
{
    if resolve_username(input).as_str().is_empty() {
        return Err("empty-username");
    }
    Ok(())
}

/// Validates a post identifier (URL or id): it must resolve to something.
pub fn validate_post_id(input: &str) -> (r: Result<(), &'static str>)
    ensures
        post_id_of(input@).len() == 0 ==> r == Err::<(), &'static str>("empty-post-id"),
        post_id_of(input@).len() > 0 ==> r is Ok,
{
    if resolve_post_id(input).as_str().is_empty() {
        return Err("empty-post-id");
    }
    Ok(())
}

// ── Request builders ─────────────────────────────────────────────────

/// `r` is a shortcut request: the call's consumer fields, no headers, the
/// given method, template target and body.
pub open spec fn is_shortcut(
    r: RequestOptions,
    o: CallOptions,
    method: Seq<char>,
    path: Seq<char>,
    params: Seq<(Seq<char>, Seq<char>)>,
    query: Seq<(Seq<char>, Seq<char>)>,
    data: Seq<char>,
) -> bool {
    &&& r.method@ == method
    &&& target_view(r.target) == (TargetV::Template { path, path_params: params, query })
    &&& r.data@ == data
    &&& r.headers@.len() == 0
    &&& r.auth_type@ == o.auth_type@
    &&& r.username@ == o.username@
    &&& r.no_auth == o.no_auth
    &&& r.verbose == o.verbose
    &&& r.trace == o.trace
    &&& r.pagination_token@ == o.pagination_token@
}

/// Builds a shortcut request.
fn shortcut(
    opts: &CallOptions,
    method: &str,
    path: &str,
    params: Vec<(String, String)>,
    query: Vec<(String, String)>,
    data: String,
) -> (r: RequestOptions)
    ensures
        is_shortcut(r, *opts, method@, path@, pairs_view(params@), pairs_view(query@), data@),
{
    let mut req = opts.to_request_options();
    req.method = owned(method);
    req.target = RequestTarget::Template { path: owned(path), path_params: params, query };
    req.data = data;
    req
}

/// A pair of owned strings.
fn kv(k: &str, v: &str) -> (r: (String, String))
    ensures
        r.0@ == k@,
        r.1@ == v@,
{
    (owned(k), owned(v))
}

/// The page cursor as a query pair, when the call carries one.
pub open spec fn page_query(o: CallOptions) -> Seq<(Seq<char>, Seq<char>)> {
    if o.pagination_token@.len() == 0 {
        Seq::empty()
    } else {
        seq![("pagination_token"@, o.pagination_token@)]
    }
}

/// The page cursor as a query: one `pagination_token` pair, or none.
pub fn build_query(opts: &CallOptions) -> (r: Vec<(String, String)>)
    ensures
        pairs_view(r@) == page_query(*opts),
{
    let mut q: Vec<(String, String)> = Vec::new();
    if !opts.pagination_token.as_str().is_empty() {
        q.push(kv("pagination_token", opts.pagination_token.as_str()));
    }
    proof {
        assert(pairs_view(q@) =~= page_query(*opts));
    }
    q
}

/// Appends the page cursor to a query.
fn with_page(q: Vec<(String, String)>, opts: &CallOptions) -> (r: Vec<(String, String)>)
    ensures
        pairs_view(r@) == pairs_view(q@) + page_query(*opts),
{
    let mut q = q;
    let mut page = build_query(opts);
    let ghost before = pairs_view(q@);
    q.append(&mut page);
    proof {
        assert(pairs_view(q@) =~= before + page_query(*opts));
    }
    q
}

/// The decimal form of a signed number.
pub open spec fn signed_decimal(n: i32) -> Seq<char> {
    if n < 0 {
        "-"@ + decimal((-n) as nat)
    } else {
        decimal(n as nat)
    }
}

/// The decimal form of a signed number.
pub fn i32_string(n: i32) -> (r: String)
    ensures
        r@ == signed_decimal(n),
{
    if n < 0 {
        let m: u64 = (0i64 - (n as i64)) as u64;
        let mut r = owned("-");
        push_str(&mut r, u64_string(m).as_str());
        r
    } else {
        u64_string(n as u64)
    }
}

/// The reply part of a post body.
#[derive(Debug, Clone)]
pub struct PostReply {
    /// The post being replied to.
    pub in_reply_to_post_id: String,
}

/// The media part of a post body.
#[derive(Debug, Clone)]
pub struct PostMedia {
    /// Uploaded media to attach.
    pub media_ids: Vec<String>,
}

/// The JSON body of `POST /2/tweets`.
#[derive(Debug, Clone)]
pub struct PostBody {
    pub text: String,
    /// Present for a reply.
    pub reply: Option<PostReply>,
    /// The quoted post, for a quote.
    pub quote: Option<String>,
    /// Present when media is attached.
    pub media: Option<PostMedia>,
}

/// The JSON text of a post body: absent parts are left out.
pub open spec fn body_json(text: Seq<char>, reply_to: Option<Seq<char>>, quote: Option<Seq<char>>, media: Option<Seq<Seq<char>>>) -> Seq<char> {
    "{\"text\":\""@ + json_escape(text) + "\""@ + match reply_to {
        Some(id) => ",\"reply\":{\"in_reply_to_tweet_id\":\""@ + json_escape(id) + "\"}"@,
        None => Seq::empty(),
    } + match quote {
        Some(id) => ",\"quote_tweet_id\":\""@ + json_escape(id) + "\""@,
        None => Seq::empty(),
    } + match media {
        Some(m) => ",\"media\":{\"media_ids\":["@ + json_list(m) + "]}"@,
        None => Seq::empty(),
    } + "}"@
}

/// The JSON body of a post: media only when there is some.
pub open spec fn post_body_text(text: Seq<char>, reply_to: Option<Seq<char>>, quote: Option<Seq<char>>, media: Seq<Seq<char>>) -> Seq<char> {
    body_json(text, reply_to, quote, if media.len() > 0 { Some(media) } else { None })
}

/// JSON string literals of the items, comma-separated.
pub open spec fn json_list(items: Seq<Seq<char>>) -> Seq<char>
    decreases items.len(),
{
    if items.len() == 0 {
        Seq::empty()
    } else if items.len() == 1 {
        "\""@ + json_escape(items[0]) + "\""@
    } else {
        json_list(items.drop_last()) + ",\""@ + json_escape(items.last()) + "\""@
    }
}

/// Appends the items as JSON string literals, comma-separated.
fn push_json_list(r: &mut String, ids: &Vec<String>)
    ensures
        final(r)@ == old(r)@ + json_list(texts(ids@)),
{
    let mut i: usize = 0;
    let ghost start = r@;
    proof {
        assert(texts(ids@).subrange(0, 0) =~= Seq::<Seq<char>>::empty());
    }
    while i < ids.len()
        invariant
            i <= ids.len(),
            start == old(r)@,
            r@ == start + json_list(texts(ids@).subrange(0, i as int)),
        decreases ids.len() - i,
    {
        if i > 0 {
            push_str(r, ",\"");
        } else {
            push_str(r, "\"");
        }
        push_json_escaped(r, ids[i].as_str());
        push_str(r, "\"");
        proof {
            let t = texts(ids@).subrange(0, i + 1);
            assert(t.drop_last() =~= texts(ids@).subrange(0, i as int));
            assert(t.last() == ids@[i as int]@);
        }
        i = i + 1;
    }
    proof {
        assert(texts(ids@).subrange(0, i as int) =~= texts(ids@));
    }
}

impl PostBody {
    /// The body serialised as JSON, fields in declaration order.
    pub fn to_json(&self) -> (r: String)
        ensures
            r@ == body_json(
                self.text@,
                match self.reply {
                    Some(x) => Some(x.in_reply_to_post_id@),
                    None => None,
                },
                match self.quote {
                    Some(x) => Some(x@),
                    None => None,
                },
                match self.media {
                    Some(m) => Some(texts(m.media_ids@)),
                    None => None,
                },
            ),
    {
        let mut r = owned("{\"text\":\"");
        push_json_escaped(&mut r, self.text.as_str());
        push_str(&mut r, "\"");
        match &self.reply {
            Some(x) => {
                push_str(&mut r, ",\"reply\":{\"in_reply_to_tweet_id\":\"");
                push_json_escaped(&mut r, x.in_reply_to_post_id.as_str());
                push_str(&mut r, "\"}");
            },
            None => {},
        }
        match &self.quote {
            Some(id) => {
                push_str(&mut r, ",\"quote_tweet_id\":\"");
                push_json_escaped(&mut r, id.as_str());
                push_str(&mut r, "\"");
            },
            None => {},
        }
        match &self.media {
            Some(m) => {
                push_str(&mut r, ",\"media\":{\"media_ids\":[");
                push_json_list(&mut r, &m.media_ids);
                push_str(&mut r, "]}");
            },
            None => {},
        }
        push_str(&mut r, "}");
        proof {
            reveal_strlit("");
        }
        r
    }
}

/// The JSON body of a post.
pub fn post_body(text: &str, reply_to: Option<&str>, quote: Option<&str>, media_ids: &Vec<String>) -> (r: String)
    ensures
        r@ == post_body_text(
            text@,
            match reply_to {
                Some(x) => Some(x@),
                None => None,
            },
            match quote {
                Some(x) => Some(x@),
                None => None,
            },
            texts(media_ids@),
        ),
{
    let body = PostBody {
        text: owned(text),
        reply: match reply_to {
            Some(id) => Some(PostReply { in_reply_to_post_id: owned(id) }),
            None => None,
        },
        quote: match quote {
            Some(id) => Some(owned(id)),
            None => None,
        },
        media: if media_ids.len() > 0 {
            Some(PostMedia { media_ids: copy_strings(media_ids) })
        } else {
            None
        },
    };
    body.to_json()
}

/// The request that creates a post.
pub fn create_post_request(text: &str, media_ids: &Vec<String>, opts: &CallOptions) -> (r: RequestOptions)
    ensures
        is_shortcut(r, *opts, "POST"@, "/2/tweets"@, Seq::empty(), Seq::empty(), post_body_text(text@, None, None, texts(media_ids@))),
{
    let body = post_body(text, None, None, media_ids);
    shortcut(opts, "POST", "/2/tweets", no_pairs(), no_pairs(), body)
}

/// The request that replies to a post.
pub fn reply_to_post_request(post_id: &str, text: &str, media_ids: &Vec<String>, opts: &CallOptions) -> (r: RequestOptions)
    ensures
        is_shortcut(r, *opts, "POST"@, "/2/tweets"@, Seq::empty(), Seq::empty(), post_body_text(text@, Some(post_id_of(post_id@)), None, texts(media_ids@))),
{
    let id = resolve_post_id(post_id);
    let body = post_body(text, Some(id.as_str()), None, media_ids);
    shortcut(opts, "POST", "/2/tweets", no_pairs(), no_pairs(), body)
}

/// The request that quotes a post.
pub fn quote_post_request(post_id: &str, text: &str, opts: &CallOptions) -> (r: RequestOptions)
    ensures
        is_shortcut(r, *opts, "POST"@, "/2/tweets"@, Seq::empty(), Seq::empty(), post_body_text(text@, None, Some(post_id_of(post_id@)), Seq::empty())),
{
    let id = resolve_post_id(post_id);
    let none: Vec<String> = Vec::new();
    proof {
        assert(texts(none@) =~= Seq::<Seq<char>>::empty());
    }
    let body = post_body(text, None, Some(id.as_str()), &none);
    shortcut(opts, "POST", "/2/tweets", no_pairs(), no_pairs(), body)
}

/// One path parameter.
fn one_param(k: &str, v: &str) -> (r: Vec<(String, String)>)
    ensures
        pairs_view(r@) == seq![(k@, v@)],
{
    let r = vec![kv(k, v)];
    proof {
        assert(pairs_view(r@) =~= seq![(k@, v@)]);
    }
    r
}

/// Two path parameters.
fn two_params(k1: &str, v1: &str, k2: &str, v2: &str) -> (r: Vec<(String, String)>)
    ensures
        pairs_view(r@) == seq![(k1@, v1@), (k2@, v2@)],
{
    let r = vec![kv(k1, v1), kv(k2, v2)];
    proof {
        assert(pairs_view(r@) =~= seq![(k1@, v1@), (k2@, v2@)]);
    }
    r
}

/// No parameters.
fn no_pairs() -> (r: Vec<(String, String)>)
    ensures
        pairs_view(r@) == Seq::<(Seq<char>, Seq<char>)>::empty(),
{
    let r: Vec<(String, String)> = Vec::new();
    proof {
        assert(pairs_view(r@) =~= Seq::<(Seq<char>, Seq<char>)>::empty());
    }
    r
}

/// The request that deletes a post.
pub fn delete_post_request(post_id: &str, opts: &CallOptions) -> (r: RequestOptions)
    ensures
        is_shortcut(r, *opts, "DELETE"@, "/2/tweets/{id}"@, seq![("id"@, post_id_of(post_id@))], Seq::empty(), Seq::empty()),
{
    let id = resolve_post_id(post_id);
    proof {
        reveal_strlit("");
    }
    shortcut(opts, "DELETE", "/2/tweets/{id}", one_param("id", id.as_str()), no_pairs(), String::new())
}

/// The request that reads a post with its expansions.
pub fn read_post_request(post_id: &str, opts: &CallOptions) -> (r: RequestOptions)
    ensures
        is_shortcut(
            r,
            *opts,
            "GET"@,
            "/2/tweets/{id}"@,
            seq![("id"@, post_id_of(post_id@))],
            seq![
                ("post.fields"@, "created_at,public_metrics,conversation_id,entities,attachments"@),
                ("expansions"@, "author_id,in_reply_to_user_id,referenced_posts"@),
                ("user.fields"@, "username,name,verified"@),
            ],
            Seq::empty(),
        ),
{
    let id = resolve_post_id(post_id);
    let q = vec![
        kv("post.fields", "created_at,public_metrics,conversation_id,entities,attachments"),
        kv("expansions", "author_id,in_reply_to_user_id,referenced_posts"),
        kv("user.fields", "username,name,verified"),
    ];
    proof {
        assert(pairs_view(q@) =~= seq![
            ("post.fields"@, "created_at,public_metrics,conversation_id,entities,attachments"@),
            ("expansions"@, "author_id,in_reply_to_user_id,referenced_posts"@),
            ("user.fields"@, "username,name,verified"@),
        ]);
    }
    shortcut(opts, "GET", "/2/tweets/{id}", one_param("id", id.as_str()), q, String::new())
}

/// `n` clamped to `[10, 100]`.
pub open spec fn clamp_results(n: i32) -> i32 {
    if n < 10 {
        10
    } else if n > 100 {
        100
    } else {
        n
    }
}

/// The search page size is the point of `[10, 100]` nearest the one asked
/// for: it lies in that range, a size already in range is kept as it is,
/// and no size in range is closer to the one asked for.
pub proof fn law_page_size_clamp(n: i32)
    ensures
        10 <= clamp_results(n) <= 100,
        10 <= n <= 100 ==> clamp_results(n) == n,
        forall|k: int| 10 <= k <= 100 ==> #[trigger] abs_diff(k, n as int) >= abs_diff(clamp_results(n) as int, n as int),
        clamp_results(n) == n || clamp_results(n) == 10 || clamp_results(n) == 100,
{
}

/// The distance between two integers.
pub open spec fn abs_diff(a: int, b: int) -> int {
    if a >= b {
        a - b
    } else {
        b - a
    }
}

/// The request that searches recent posts (page size clamped to 10..=100).
pub fn search_posts_request(query: &str, max_results: i32, opts: &CallOptions) -> (r: RequestOptions)
    ensures
        is_shortcut(
            r,
            *opts,
            "GET"@,
            "/2/tweets/search/recent"@,
            Seq::empty(),
            seq![
                ("query"@, query@),
                ("max_results"@, signed_decimal(clamp_results(max_results))),
                ("post.fields"@, "created_at,public_metrics,conversation_id,entities"@),
                ("expansions"@, "author_id"@),
                ("user.fields"@, "username,name,verified"@),
            ] + page_query(*opts),
            Seq::empty(),
        ),
{
    let n = if max_results < 10 {
        10
    } else if max_results > 100 {
        100
    } else {
        max_results
    };
    let q = vec![
        kv("query", query),
        (owned("max_results"), i32_string(n)),
        kv("post.fields", "created_at,public_metrics,conversation_id,entities"),
        kv("expansions", "author_id"),
        kv("user.fields", "username,name,verified"),
    ];
    proof {
        assert(pairs_view(q@) =~= seq![
            ("query"@, query@),
            ("max_results"@, signed_decimal(clamp_results(max_results))),
            ("post.fields"@, "created_at,public_metrics,conversation_id,entities"@),
            ("expansions"@, "author_id"@),
            ("user.fields"@, "username,name,verified"@),
        ]);
    }
    shortcut(opts, "GET", "/2/tweets/search/recent", no_pairs(), with_page(q, opts), String::new())
}

/// The user fields of the profile shortcuts.
pub open spec fn profile_fields() -> Seq<char> {
    "created_at,description,public_metrics,verified,profile_image_url"@
}

/// The request for the authenticated user's profile.
pub fn get_me_request(opts: &CallOptions) -> (r: RequestOptions)
    ensures
        is_shortcut(r, *opts, "GET"@, "/2/users/me"@, Seq::empty(), seq![("user.fields"@, profile_fields())], Seq::empty()),
{
    shortcut(
        opts,
        "GET",
        "/2/users/me",
        no_pairs(),
        one_param("user.fields", "created_at,description,public_metrics,verified,profile_image_url"),
        String::new(),
    )
}

/// The request that looks a user up by username.
pub fn lookup_user_request(username: &str, opts: &CallOptions) -> (r: RequestOptions)
    ensures
        is_shortcut(
            r,
            *opts,
            "GET"@,
            "/2/users/by/username/{username}"@,
            seq![("username"@, username_of(username@))],
            seq![("user.fields"@, profile_fields())],
            Seq::empty(),
        ),
{
    let u = resolve_username(username);
    shortcut(
        opts,
        "GET",
        "/2/users/by/username/{username}",
        one_param("username", u.as_str()),
        one_param("user.fields", "created_at,description,public_metrics,verified,profile_image_url"),
        String::new(),
    )
}

/// The query of the post-list shortcuts.
pub open spec fn post_list_query(max_results: i32, post_fields: Seq<char>, user_fields: Seq<char>, o: CallOptions) -> Seq<(Seq<char>, Seq<char>)> {
    seq![
        ("max_results"@, signed_decimal(max_results)),
        ("post.fields"@, post_fields),
        ("expansions"@, "author_id"@),
        ("user.fields"@, user_fields),
    ] + page_query(o)
}

/// The query of a post-list shortcut.
fn post_list(max_results: i32, post_fields: &str, user_fields: &str, opts: &CallOptions) -> (r: Vec<(String, String)>)
    ensures
        pairs_view(r@) == post_list_query(max_results, post_fields@, user_fields@, *opts),
{
    let q = vec![
        (owned("max_results"), i32_string(max_results)),
        kv("post.fields", post_fields),
        kv("expansions", "author_id"),
        kv("user.fields", user_fields),
    ];
    proof {
        assert(pairs_view(q@) =~= seq![
            ("max_results"@, signed_decimal(max_results)),
            ("post.fields"@, post_fields@),
            ("expansions"@, "author_id"@),
            ("user.fields"@, user_fields@),
        ]);
    }
    with_page(q, opts)
}

/// The request for a user's home timeline.
pub fn get_timeline_request(user_id: &str, max_results: i32, opts: &CallOptions) -> (r: RequestOptions)
    ensures
        is_shortcut(
            r,
            *opts,
            "GET"@,
            "/2/users/{id}/timelines/reverse_chronological"@,
            seq![("id"@, user_id@)],
            post_list_query(max_results, "created_at,public_metrics,conversation_id,entities"@, "username,name"@, *opts),
            Seq::empty(),
        ),
{
    let q = post_list(max_results, "created_at,public_metrics,conversation_id,entities", "username,name", opts);
    shortcut(opts, "GET", "/2/users/{id}/timelines/reverse_chronological", one_param("id", user_id), q, String::new())
}

/// The request for a user's mentions.
pub fn get_mentions_request(user_id: &str, max_results: i32, opts: &CallOptions) -> (r: RequestOptions)
    ensures
        is_shortcut(
            r,
            *opts,
            "GET"@,
            "/2/users/{id}/mentions"@,
            seq![("id"@, user_id@)],
            post_list_query(max_results, "created_at,public_metrics,conversation_id,entities"@, "username,name"@, *opts),
            Seq::empty(),
        ),
{
    let q = post_list(max_results, "created_at,public_metrics,conversation_id,entities", "username,name", opts);
    shortcut(opts, "GET", "/2/users/{id}/mentions", one_param("id", user_id), q, String::new())
}

/// The request for a user's bookmarks.
pub fn get_bookmarks_request(user_id: &str, max_results: i32, opts: &CallOptions) -> (r: RequestOptions)
    ensures
        is_shortcut(
            r,
            *opts,
            "GET"@,
            "/2/users/{id}/bookmarks"@,
            seq![("id"@, user_id@)],
            post_list_query(max_results, "created_at,public_metrics,entities"@, "username,name"@, *opts),
            Seq::empty(),
        ),
{
    let q = post_list(max_results, "created_at,public_metrics,entities", "username,name", opts);
    shortcut(opts, "GET", "/2/users/{id}/bookmarks", one_param("id", user_id), q, String::new())
}

/// The request for the posts a user liked.
pub fn get_liked_posts_request(user_id: &str, max_results: i32, opts: &CallOptions) -> (r: RequestOptions)
    ensures
        is_shortcut(
            r,
            *opts,
            "GET"@,
            "/2/users/{id}/liked_tweets"@,
            seq![("id"@, user_id@)],
            post_list_query(max_results, "created_at,public_metrics,entities"@, "username,name"@, *opts),
            Seq::empty(),
        ),
{
    let q = post_list(max_results, "created_at,public_metrics,entities", "username,name", opts);
    shortcut(opts, "GET", "/2/users/{id}/liked_tweets", one_param("id", user_id), q, String::new())
}

/// `{"<name>":"<value>"}`, the value inserted as it is.
pub open spec fn one_field_body(name: Seq<char>, value: Seq<char>) -> Seq<char> {
    "{\""@ + name + "\":\""@ + value + "\"}"@
}

/// `{"<name>":"<value>"}`, the value inserted as it is.
fn one_field(name: &str, value: &str) -> (r: String)
    ensures
        r@ == one_field_body(name@, value@),
{
    let mut r = owned("{\"");
    push_str(&mut r, name);
    push_str(&mut r, "\":\"");
    push_str(&mut r, value);
    push_str(&mut r, "\"}");
    r
}

/// A `POST` to `path` for user `user_id` with `{"<field>":"<value>"}`.
fn post_for_user(opts: &CallOptions, path: &str, user_id: &str, field: &str, value: &str) -> (r: RequestOptions)
    ensures
        is_shortcut(r, *opts, "POST"@, path@, seq![("id"@, user_id@)], Seq::empty(), one_field_body(field@, value@)),
{
    shortcut(opts, "POST", path, one_param("id", user_id), no_pairs(), one_field(field, value))
}

/// A `DELETE` of `path` with two path parameters and no body.
fn delete_two(opts: &CallOptions, path: &str, k1: &str, v1: &str, k2: &str, v2: &str) -> (r: RequestOptions)
    ensures
        is_shortcut(r, *opts, "DELETE"@, path@, seq![(k1@, v1@), (k2@, v2@)], Seq::empty(), Seq::empty()),
{
    proof {
        reveal_strlit("");
    }
    shortcut(opts, "DELETE", path, two_params(k1, v1, k2, v2), no_pairs(), String::new())
}

/// The request that likes a post.
pub fn like_post_request(user_id: &str, post_id: &str, opts: &CallOptions) -> (r: RequestOptions)
    ensures
        is_shortcut(r, *opts, "POST"@, "/2/users/{id}/likes"@, seq![("id"@, user_id@)], Seq::empty(), one_field_body("tweet_id"@, post_id_of(post_id@))),
{
    let id = resolve_post_id(post_id);
    post_for_user(opts, "/2/users/{id}/likes", user_id, "tweet_id", id.as_str())
}

/// The request that unlikes a post.
pub fn unlike_post_request(user_id: &str, post_id: &str, opts: &CallOptions) -> (r: RequestOptions)
    ensures
        is_shortcut(r, *opts, "DELETE"@, "/2/users/{id}/likes/{tweet_id}"@, seq![("id"@, user_id@), ("tweet_id"@, post_id_of(post_id@))], Seq::empty(), Seq::empty()),
{
    let id = resolve_post_id(post_id);
    delete_two(opts, "/2/users/{id}/likes/{tweet_id}", "id", user_id, "tweet_id", id.as_str())
}

/// The request that reposts a post.
pub fn repost_request(user_id: &str, post_id: &str, opts: &CallOptions) -> (r: RequestOptions)
    ensures
        is_shortcut(r, *opts, "POST"@, "/2/users/{id}/retweets"@, seq![("id"@, user_id@)], Seq::empty(), one_field_body("tweet_id"@, post_id_of(post_id@))),
{
    let id = resolve_post_id(post_id);
    post_for_user(opts, "/2/users/{id}/retweets", user_id, "tweet_id", id.as_str())
}

/// The request that undoes a repost.
pub fn unrepost_request(user_id: &str, post_id: &str, opts: &CallOptions) -> (r: RequestOptions)
    ensures
        is_shortcut(r, *opts, "DELETE"@, "/2/users/{id}/retweets/{source_tweet_id}"@, seq![("id"@, user_id@), ("source_tweet_id"@, post_id_of(post_id@))], Seq::empty(), Seq::empty()),
{
    let id = resolve_post_id(post_id);
    delete_two(opts, "/2/users/{id}/retweets/{source_tweet_id}", "id", user_id, "source_tweet_id", id.as_str())
}

/// The request that bookmarks a post.
pub fn bookmark_request(user_id: &str, post_id: &str, opts: &CallOptions) -> (r: RequestOptions)
    ensures
        is_shortcut(r, *opts, "POST"@, "/2/users/{id}/bookmarks"@, seq![("id"@, user_id@)], Seq::empty(), one_field_body("tweet_id"@, post_id_of(post_id@))),
{
    let id = resolve_post_id(post_id);
    post_for_user(opts, "/2/users/{id}/bookmarks", user_id, "tweet_id", id.as_str())
}

/// The request that removes a bookmark.
pub fn unbookmark_request(user_id: &str, post_id: &str, opts: &CallOptions) -> (r: RequestOptions)
    ensures
        is_shortcut(r, *opts, "DELETE"@, "/2/users/{id}/bookmarks/{tweet_id}"@, seq![("id"@, user_id@), ("tweet_id"@, post_id_of(post_id@))], Seq::empty(), Seq::empty()),
{
    let id = resolve_post_id(post_id);
    delete_two(opts, "/2/users/{id}/bookmarks/{tweet_id}", "id", user_id, "tweet_id", id.as_str())
}

/// The request that follows a user.
pub fn follow_user_request(source_user_id: &str, target_user_id: &str, opts: &CallOptions) -> (r: RequestOptions)
    ensures
        is_shortcut(r, *opts, "POST"@, "/2/users/{id}/following"@, seq![("id"@, source_user_id@)], Seq::empty(), one_field_body("target_user_id"@, target_user_id@)),
{
    post_for_user(opts, "/2/users/{id}/following", source_user_id, "target_user_id", target_user_id)
}

/// The request that unfollows a user.
pub fn unfollow_user_request(source_user_id: &str, target_user_id: &str, opts: &CallOptions) -> (r: RequestOptions)
    ensures
        is_shortcut(r, *opts, "DELETE"@, "/2/users/{source_user_id}/following/{target_user_id}"@, seq![("source_user_id"@, source_user_id@), ("target_user_id"@, target_user_id@)], Seq::empty(), Seq::empty()),
{
    delete_two(opts, "/2/users/{source_user_id}/following/{target_user_id}", "source_user_id", source_user_id, "target_user_id", target_user_id)
}

/// The query of the user-list shortcuts.
pub open spec fn user_list_query(max_results: i32, o: CallOptions) -> Seq<(Seq<char>, Seq<char>)> {
    seq![
        ("max_results"@, signed_decimal(max_results)),
        ("user.fields"@, "created_at,description,public_metrics,verified"@),
    ] + page_query(o)
}

/// The query of a user-list shortcut.
fn user_list(max_results: i32, opts: &CallOptions) -> (r: Vec<(String, String)>)
    ensures
        pairs_view(r@) == user_list_query(max_results, *opts),
{
    let q = vec![
        (owned("max_results"), i32_string(max_results)),
        kv("user.fields", "created_at,description,public_metrics,verified"),
    ];
    proof {
        assert(pairs_view(q@) =~= seq![
            ("max_results"@, signed_decimal(max_results)),
            ("user.fields"@, "created_at,description,public_metrics,verified"@),
        ]);
    }
    with_page(q, opts)
}

/// The request for the accounts a user follows.
pub fn get_following_request(user_id: &str, max_results: i32, opts: &CallOptions) -> (r: RequestOptions)
    ensures
        is_shortcut(r, *opts, "GET"@, "/2/users/{id}/following"@, seq![("id"@, user_id@)], user_list_query(max_results, *opts), Seq::empty()),
{
    let q = user_list(max_results, opts);
    shortcut(opts, "GET", "/2/users/{id}/following", one_param("id", user_id), q, String::new())
}

/// The request for a user's followers.
pub fn get_followers_request(user_id: &str, max_results: i32, opts: &CallOptions) -> (r: RequestOptions)
    ensures
        is_shortcut(r, *opts, "GET"@, "/2/users/{id}/followers"@, seq![("id"@, user_id@)], user_list_query(max_results, *opts), Seq::empty()),
{
    let q = user_list(max_results, opts);
    shortcut(opts, "GET", "/2/users/{id}/followers", one_param("id", user_id), q, String::new())
}

/// `{"text":"<text>"}` with the text JSON-escaped.
pub open spec fn dm_body_text(text: Seq<char>) -> Seq<char> {
    "{\"text\":\""@ + json_escape(text) + "\"}"@
}

/// The request that sends a direct message.
pub fn send_dm_request(participant_id: &str, text: &str, opts: &CallOptions) -> (r: RequestOptions)
    ensures
        is_shortcut(r, *opts, "POST"@, "/2/dm_conversations/with/{participant_id}/messages"@, seq![("participant_id"@, participant_id@)], Seq::empty(), dm_body_text(text@)),
{
    let mut body = owned("{\"text\":\"");
    push_json_escaped(&mut body, text);
    push_str(&mut body, "\"}");
    shortcut(
        opts,
        "POST",
        "/2/dm_conversations/with/{participant_id}/messages",
        one_param("participant_id", participant_id),
        no_pairs(),
        body,
    )
}

/// The request for direct-message events.
pub fn get_dm_events_request(max_results: i32, opts: &CallOptions) -> (r: RequestOptions)
    ensures
        is_shortcut(
            r,
            *opts,
            "GET"@,
            "/2/dm_events"@,
            Seq::empty(),
            seq![
                ("max_results"@, signed_decimal(max_results)),
                ("dm_event.fields"@, "created_at,dm_conversation_id,text"@),
                ("expansions"@, "sender_id"@),
                ("user.fields"@, "username,name"@),
            ] + page_query(*opts),
            Seq::empty(),
        ),
{
    let q = vec![
        (owned("max_results"), i32_string(max_results)),
        kv("dm_event.fields", "created_at,dm_conversation_id,text"),
        kv("expansions", "sender_id"),
        kv("user.fields", "username,name"),
    ];
    proof {
        assert(pairs_view(q@) =~= seq![
            ("max_results"@, signed_decimal(max_results)),
            ("dm_event.fields"@, "created_at,dm_conversation_id,text"@),
            ("expansions"@, "sender_id"@),
            ("user.fields"@, "username,name"@),
        ]);
    }
    shortcut(opts, "GET", "/2/dm_events", no_pairs(), with_page(q, opts), String::new())
}

/// The request that mutes a user.
pub fn mute_user_request(source_user_id: &str, target_user_id: &str, opts: &CallOptions) -> (r: RequestOptions)
    ensures
        is_shortcut(r, *opts, "POST"@, "/2/users/{id}/muting"@, seq![("id"@, source_user_id@)], Seq::empty(), one_field_body("target_user_id"@, target_user_id@)),
{
    post_for_user(opts, "/2/users/{id}/muting", source_user_id, "target_user_id", target_user_id)
}

/// The request that unmutes a user.
pub fn unmute_user_request(source_user_id: &str, target_user_id: &str, opts: &CallOptions) -> (r: RequestOptions)
    ensures
        is_shortcut(r, *opts, "DELETE"@, "/2/users/{source_user_id}/muting/{target_user_id}"@, seq![("source_user_id"@, source_user_id@), ("target_user_id"@, target_user_id@)], Seq::empty(), Seq::empty()),
{
    delete_two(opts, "/2/users/{source_user_id}/muting/{target_user_id}", "source_user_id", source_user_id, "target_user_id", target_user_id)
}

/// The request that blocks a user.
pub fn block_user_request(source_user_id: &str, target_user_id: &str, opts: &CallOptions) -> (r: RequestOptions)
    ensures
        is_shortcut(r, *opts, "POST"@, "/2/users/{id}/blocking"@, seq![("id"@, source_user_id@)], Seq::empty(), one_field_body("target_user_id"@, target_user_id@)),
{
    post_for_user(opts, "/2/users/{id}/blocking", source_user_id, "target_user_id", target_user_id)
}

/// The request that unblocks a user.
pub fn unblock_user_request(source_user_id: &str, target_user_id: &str, opts: &CallOptions) -> (r: RequestOptions)
    ensures
        is_shortcut(r, *opts, "DELETE"@, "/2/users/{source_user_id}/blocking/{target_user_id}"@, seq![("source_user_id"@, source_user_id@), ("target_user_id"@, target_user_id@)], Seq::empty(), Seq::empty()),
{
    delete_two(opts, "/2/users/{source_user_id}/blocking/{target_user_id}", "source_user_id", source_user_id, "target_user_id", target_user_id)
}

/// The request for a user's recent posts.
pub fn get_user_posts_request(user_id: &str, max_results: i32, opts: &CallOptions) -> (r: RequestOptions)
    ensures
        is_shortcut(
            r,
            *opts,
            "GET"@,
            "/2/users/{id}/tweets"@,
            seq![("id"@, user_id@)],
            seq![
                ("max_results"@, signed_decimal(max_results)),
                ("tweet.fields"@, "created_at,public_metrics,conversation_id,entities"@),
                ("expansions"@, "referenced_tweets.id"@),
            ],
            Seq::empty(),
        ),
{
    let q = vec![
        (owned("max_results"), i32_string(max_results)),
        kv("tweet.fields", "created_at,public_metrics,conversation_id,entities"),
        kv("expansions", "referenced_tweets.id"),
    ];
    proof {
        assert(pairs_view(q@) =~= seq![
            ("max_results"@, signed_decimal(max_results)),
            ("tweet.fields"@, "created_at,public_metrics,conversation_id,entities"@),
            ("expansions"@, "referenced_tweets.id"@),
        ]);
    }
    shortcut(opts, "GET", "/2/users/{id}/tweets", one_param("id", user_id), q, String::new())
}

/// The request for API usage.
pub fn get_usage_request(opts: &CallOptions) -> (r: RequestOptions)
    ensures
        is_shortcut(r, *opts, "GET"@, "/2/usage/tweets"@, Seq::empty(), seq![("usage.fields"@, "daily_project_usage,daily_client_app_usage"@)], Seq::empty()),
{
    shortcut(opts, "GET", "/2/usage/tweets", no_pairs(), one_param("usage.fields", "daily_project_usage,daily_client_app_usage"), String::new())
}

} // verus!
