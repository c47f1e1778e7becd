//! OAuth 1.0a HMAC-SHA1 request signing (RFC 5849).
//!
//! The signature covers the upper-cased method, the URL without its query,
//! and every parameter (query pairs, caller extras, the `oauth_*` set),
//! sorted by name with one value per name, the last one given winning.

use vstd::prelude::*;

use crate::crypto::{
    base64_standard, base64_standard_encode, hmac_sha1, hmac_sha1_tag, random_below_billion, unix_now,
};
use crate::error::{join_with, Error};
use crate::order::{lemma_str_le_antisym, lemma_str_le_total, lemma_str_le_trans, str_le, str_le_exec};
use crate::request::pairs_view;
use crate::store::OAuth1Token;
use crate::text::{chars_of, decimal, owned, push_str, str_eq, to_upper_unicode, u64_string, unicode_upper};
use crate::url::{pct_bytes, utf8_bytes};
use crate::weburl::{parse_url, url_parse, UrlV};
use vstd::utf8::encode_scalar;

verus! {

broadcast use vstd::utf8::char_is_scalar;

// ── Form encoding ────────────────────────────────────────────────────

/// Characters `application/x-www-form-urlencoded` leaves as they are.
pub open spec fn form_unchanged(c: char) -> bool {
    ||| c == '*'
    ||| c == '-'
    ||| c == '.'
    ||| c == '_'
    ||| ('0' <= c && c <= '9')
    ||| ('A' <= c && c <= 'Z')
    ||| ('a' <= c && c <= 'z')
}

/// One character form-encoded: kept, `+` for a space, or `%XX` per UTF-8 byte.
pub open spec fn form_char(c: char) -> Seq<char> {
    if form_unchanged(c) {
        seq![c]
    } else if c == ' ' {
        seq!['+']
    } else {
        pct_bytes(encode_scalar(c as u32))
    }
}

/// A string form-encoded.
pub open spec fn form_encode(s: Seq<char>) -> Seq<char>
    decreases s.len(),
{
    if s.len() == 0 {
        Seq::empty()
    } else {
        form_encode(s.drop_last()) + form_char(s.last())
    }
}

/// The UTF-8 bytes of a string.
pub open spec fn utf8_of(s: Seq<char>) -> Seq<u8>
    decreases s.len(),
{
    if s.len() == 0 {
        Seq::empty()
    } else {
        utf8_of(s.drop_last()) + encode_scalar(s.last() as u32)
    }
}

/// Appends the `%XX` form of each byte.
fn push_pct(out: &mut String, bs: &Vec<u8>)
    ensures
        final(out)@ == old(out)@ + pct_bytes(bs@),
{
    let mut i: usize = 0;
    while i < bs.len()
        invariant
            i <= bs.len(),
            out@ == old(out)@ + pct_bytes(bs@.subrange(0, i as int)),
        decreases bs.len() - i,
    {
        let b = bs[i];
        out.push('%');
        out.push(hex_upper(b / 16));
        out.push(hex_upper(b % 16));
        proof {
            let s = bs@.subrange(0, i + 1);
            assert(s.drop_last() =~= bs@.subrange(0, i as int));
            assert(out@ =~= old(out)@ + pct_bytes(s));
        }
        i = i + 1;
    }
    assert(bs@.subrange(0, bs.len() as int) =~= bs@);
}

/// The upper-case hexadecimal digit of `n < 16`.
fn hex_upper(n: u8) -> (c: char)
    requires
        n < 16,
    ensures
        c == crate::url::hex_digit(n as int),
{
    if n < 10 {
        (n + 48) as char
    } else {
        (n + 55) as char
    }
}

/// Form-encodes `s` (as `url::form_urlencoded::byte_serialize` does).
pub fn form_encode_string(s: &str) -> (r: String)
    ensures
        r@ == form_encode(s@),
{
    let v = chars_of(s);
    let mut r = String::new();
    let mut i: usize = 0;
    while i < v.len()
        invariant
            i <= v.len(),
            v@ == s@,
            r@ == form_encode(v@.subrange(0, i as int)),
        decreases v.len() - i,
    {
        let c = v[i];
        let ghost before = r@;
        if c == '*' || c == '-' || c == '.' || c == '_' || ('0' <= c && c <= '9') || ('A' <= c && c <= 'Z')
            || ('a' <= c && c <= 'z') {
            r.push(c);
        } else if c == ' ' {
            r.push('+');
        } else {
            let bs = utf8_bytes(c);
            push_pct(&mut r, &bs);
        }
        proof {
            let t = v@.subrange(0, i + 1);
            assert(t.drop_last() =~= v@.subrange(0, i as int));
            assert(r@ =~= before + form_char(c));
        }
        i = i + 1;
    }
    assert(v@.subrange(0, v.len() as int) =~= s@);
    r
}

/// The UTF-8 bytes of `s`.
pub fn utf8_vec(s: &str) -> (r: Vec<u8>)
    ensures
        r@ == utf8_of(s@),
{
    let v = chars_of(s);
    let mut r: Vec<u8> = Vec::new();
    let mut i: usize = 0;
    while i < v.len()
        invariant
            i <= v.len(),
            v@ == s@,
            r@ == utf8_of(v@.subrange(0, i as int)),
        decreases v.len() - i,
    {
        let mut bs = utf8_bytes(v[i]);
        let ghost before = r@;
        let ghost added = bs@;
        r.append(&mut bs);
        proof {
            let t = v@.subrange(0, i + 1);
            assert(t.drop_last() =~= v@.subrange(0, i as int));
            assert(r@ =~= before + added);
        }
        i = i + 1;
    }
    assert(v@.subrange(0, v.len() as int) =~= s@);
    r
}

// ── Parameter normalisation ──────────────────────────────────────────

/// `(k, v)` placed into a name-sorted list: replacing the entry named `k`,
/// or inserted before the first larger name.
pub open spec fn insert_sorted(s: Seq<(Seq<char>, Seq<char>)>, k: Seq<char>, v: Seq<char>) -> Seq<
    (Seq<char>, Seq<char>),
>
    decreases s.len(),
{
    if s.len() == 0 {
        seq![(k, v)]
    } else if s[0].0 == k {
        s.update(0, (k, v))
    } else if str_le(k, s[0].0) {
        seq![(k, v)] + s
    } else {
        seq![s[0]] + insert_sorted(s.drop_first(), k, v)
    }
}

/// The parameters in signing order: each pair placed in turn.
pub open spec fn sorted_params(ps: Seq<(Seq<char>, Seq<char>)>) -> Seq<(Seq<char>, Seq<char>)>
    decreases ps.len(),
{
    if ps.len() == 0 {
        Seq::empty()
    } else {
        insert_sorted(sorted_params(ps.drop_last()), ps.last().0, ps.last().1)
    }
}

/// Some pair is named `k`.
pub open spec fn has_key(ps: Seq<(Seq<char>, Seq<char>)>, k: Seq<char>) -> bool {
    exists|i: int| 0 <= i < ps.len() && #[trigger] ps[i].0 == k
}

/// The value of the last pair named `k`.
pub open spec fn last_value(ps: Seq<(Seq<char>, Seq<char>)>, k: Seq<char>) -> Seq<char>
    decreases ps.len(),
{
    if ps.len() == 0 {
        Seq::empty()
    } else if ps.last().0 == k {
        ps.last().1
    } else {
        last_value(ps.drop_last(), k)
    }
}

/// Names strictly increase along the list.
pub open spec fn strictly_sorted(s: Seq<(Seq<char>, Seq<char>)>) -> bool {
    forall|i: int, j: int| 0 <= i < j < s.len() ==> str_le(#[trigger] s[i].0, #[trigger] s[j].0) && s[i].0 != s[j].0
}

/// `s` is `ps` as a name-sorted map: each name of `ps` once, in order,
/// with the last value `ps` gives it.
pub open spec fn normalises(s: Seq<(Seq<char>, Seq<char>)>, ps: Seq<(Seq<char>, Seq<char>)>) -> bool {
    &&& strictly_sorted(s)
    &&& forall|k: Seq<char>| has_key(s, k) <==> has_key(ps, k)
    &&& forall|i: int| 0 <= i < s.len() ==> (#[trigger] s[i]).1 == last_value(ps, s[i].0)
}

/// Placing a pair keeps a list strictly sorted, adds its name, and gives
/// that name the new value while every other entry stays.
proof fn lemma_insert_sorted(s: Seq<(Seq<char>, Seq<char>)>, k: Seq<char>, v: Seq<char>)
    requires
        strictly_sorted(s),
    ensures
        strictly_sorted(insert_sorted(s, k, v)),
        forall|q: Seq<char>| #[trigger] has_key(insert_sorted(s, k, v), q) <==> (has_key(s, q) || q == k),
        forall|i: int|
            0 <= i < insert_sorted(s, k, v).len() ==> (#[trigger] insert_sorted(s, k, v)[i]).1 == (if insert_sorted(
                s,
                k,
                v,
            )[i].0 == k {
                v
            } else {
                value_of(s, insert_sorted(s, k, v)[i].0)
            }),
    decreases s.len(),
{
    let r = insert_sorted(s, k, v);
    if s.len() == 0 {
        assert forall|q: Seq<char>| has_key(r, q) <==> (has_key(s, q) || q == k) by {
            if q == k {
                assert(r[0].0 == k);
            }
        }
    } else if s[0].0 == k {
        assert forall|q: Seq<char>| has_key(r, q) <==> (has_key(s, q) || q == k) by {
            if has_key(r, q) {
                let i = choose|i: int| 0 <= i < r.len() && #[trigger] r[i].0 == q;
                assert(s[i].0 == q);
            }
            if has_key(s, q) {
                let i = choose|i: int| 0 <= i < s.len() && #[trigger] s[i].0 == q;
                assert(r[i].0 == q);
            }
            if q == k {
                assert(r[0].0 == k);
            }
        }
        assert forall|i: int| 0 <= i < r.len() implies (#[trigger] r[i]).1 == (if r[i].0 == k {
            v
        } else {
            value_of(s, r[i].0)
        }) by {
            if i > 0 {
                assert(s[i].0 != k);
                lemma_value_of_at(s, i);
            }
        }
    } else if str_le(k, s[0].0) {
        assert forall|i: int, j: int| 0 <= i < j < r.len() implies str_le(#[trigger] r[i].0, #[trigger] r[j].0)
            && r[i].0 != r[j].0 by {
            if i == 0 {
                assert(r[j] == s[j - 1]);
                if j > 1 {
                    assert(str_le(s[0].0, s[j - 1].0) && s[0].0 != s[j - 1].0);
                    lemma_str_le_trans(k, s[0].0, s[j - 1].0);
                    if k == s[j - 1].0 {
                        lemma_str_le_antisym(k, s[0].0);
                    }
                }
            } else {
                assert(r[i] == s[i - 1] && r[j] == s[j - 1]);
            }
        }
        assert forall|q: Seq<char>| has_key(r, q) <==> (has_key(s, q) || q == k) by {
            if has_key(r, q) {
                let i = choose|i: int| 0 <= i < r.len() && #[trigger] r[i].0 == q;
                if i > 0 {
                    assert(s[i - 1].0 == q);
                }
            }
            if has_key(s, q) {
                let i = choose|i: int| 0 <= i < s.len() && #[trigger] s[i].0 == q;
                assert(r[i + 1].0 == q);
            }
            if q == k {
                assert(r[0].0 == k);
            }
        }
        assert forall|i: int| 0 <= i < r.len() implies (#[trigger] r[i]).1 == (if r[i].0 == k {
            v
        } else {
            value_of(s, r[i].0)
        }) by {
            if i > 0 {
                assert(r[i] == s[i - 1]);
                lemma_value_of_at(s, i - 1);
                if s[i - 1].0 == k {
                    if i - 1 > 0 {
                        assert(str_le(s[0].0, s[i - 1].0) && s[0].0 != s[i - 1].0);
                    }
                    lemma_str_le_antisym(k, s[0].0);
                }
            }
        }
    } else {
        let t = s.drop_first();
        assert(strictly_sorted(t)) by {
            assert forall|i: int, j: int| 0 <= i < j < t.len() implies str_le(#[trigger] t[i].0, #[trigger] t[j].0)
                && t[i].0 != t[j].0 by {
                assert(t[i] == s[i + 1] && t[j] == s[j + 1]);
            }
        }
        lemma_insert_sorted(t, k, v);
        let rt = insert_sorted(t, k, v);
        assert(r == seq![s[0]] + rt);
        lemma_str_le_total(k, s[0].0);
        assert forall|i: int, j: int| 0 <= i < j < r.len() implies str_le(#[trigger] r[i].0, #[trigger] r[j].0)
            && r[i].0 != r[j].0 by {
            if i == 0 {
                assert(r[j] == rt[j - 1]);
                let q = rt[j - 1].0;
                assert(has_key(rt, q));
                if q == k {
                } else {
                    assert(has_key(t, q));
                    let m = choose|m: int| 0 <= m < t.len() && #[trigger] t[m].0 == q;
                    assert(s[m + 1].0 == q);
                }
            } else {
                assert(r[i] == rt[i - 1] && r[j] == rt[j - 1]);
            }
        }
        assert forall|q: Seq<char>| has_key(r, q) <==> (has_key(s, q) || q == k) by {
            if has_key(r, q) {
                let i = choose|i: int| 0 <= i < r.len() && #[trigger] r[i].0 == q;
                if i > 0 {
                    assert(rt[i - 1].0 == q);
                    assert(has_key(rt, q));
                    if has_key(t, q) {
                        let m = choose|m: int| 0 <= m < t.len() && #[trigger] t[m].0 == q;
                        assert(s[m + 1].0 == q);
                    }
                } else {
                    assert(s[0].0 == q);
                }
            }
            if has_key(s, q) {
                let i = choose|i: int| 0 <= i < s.len() && #[trigger] s[i].0 == q;
                if i > 0 {
                    assert(t[i - 1].0 == q);
                    assert(has_key(t, q));
                    assert(has_key(rt, q));
                    let m = choose|m: int| 0 <= m < rt.len() && #[trigger] rt[m].0 == q;
                    assert(r[m + 1].0 == q);
                } else {
                    assert(r[0].0 == q);
                }
            }
            if q == k {
                assert(has_key(rt, k));
                let m = choose|m: int| 0 <= m < rt.len() && #[trigger] rt[m].0 == k;
                assert(r[m + 1].0 == k);
            }
        }
        assert forall|i: int| 0 <= i < r.len() implies (#[trigger] r[i]).1 == (if r[i].0 == k {
            v
        } else {
            value_of(s, r[i].0)
        }) by {
            if i == 0 {
                lemma_value_of_at(s, 0);
            } else {
                assert(r[i] == rt[i - 1]);
                let q = rt[i - 1].0;
                if q != k {
                    assert(has_key(rt, q));
                    assert(has_key(t, q));
                    let m = choose|m: int| 0 <= m < t.len() && #[trigger] t[m].0 == q;
                    lemma_value_of_at(t, m);
                    lemma_value_of_at(s, m + 1);
                    assert(s[m + 1] == t[m]);
                }
            }
        }
    }
}

/// The value of the first entry named `k` (`k`'s only entry in a strictly
/// sorted list).
pub open spec fn value_of(s: Seq<(Seq<char>, Seq<char>)>, k: Seq<char>) -> Seq<char>
    decreases s.len(),
{
    if s.len() == 0 {
        Seq::empty()
    } else if s[0].0 == k {
        s[0].1
    } else {
        value_of(s.drop_first(), k)
    }
}

/// In a strictly sorted list, an entry's value is the value of its name.
proof fn lemma_value_of_at(s: Seq<(Seq<char>, Seq<char>)>, i: int)
    requires
        strictly_sorted(s),
        0 <= i < s.len(),
    ensures
        value_of(s, s[i].0) == s[i].1,
    decreases i,
{
    if i > 0 {
        assert(s[0].0 != s[i].0);
        let t = s.drop_first();
        assert(strictly_sorted(t)) by {
            assert forall|a: int, b: int| 0 <= a < b < t.len() implies str_le(#[trigger] t[a].0, #[trigger] t[b].0)
                && t[a].0 != t[b].0 by {
                assert(t[a] == s[a + 1] && t[b] == s[b + 1]);
            }
        }
        lemma_value_of_at(t, i - 1);
    }
}

/// The signing order is the parameters as a name-sorted map, the last
/// value given for a name winning.
pub proof fn law_sorted_params_normalise(ps: Seq<(Seq<char>, Seq<char>)>)
    ensures
        normalises(sorted_params(ps), ps),
    decreases ps.len(),
{
    if ps.len() > 0 {
        let p = ps.drop_last();
        law_sorted_params_normalise(p);
        let s = sorted_params(p);
        let (k, v) = ps.last();
        lemma_insert_sorted(s, k, v);
        let r = sorted_params(ps);
        assert forall|q: Seq<char>| has_key(r, q) <==> has_key(ps, q) by {
            if has_key(p, q) {
                let i = choose|i: int| 0 <= i < p.len() && #[trigger] p[i].0 == q;
                assert(ps[i].0 == q);
            }
            if has_key(ps, q) {
                let i = choose|i: int| 0 <= i < ps.len() && #[trigger] ps[i].0 == q;
                if i < p.len() {
                    assert(p[i].0 == q);
                }
            }
            if q == k {
                assert(ps[ps.len() - 1].0 == q);
            }
        }
        assert forall|i: int| 0 <= i < r.len() implies (#[trigger] r[i]).1 == last_value(ps, r[i].0) by {
            let q = r[i].0;
            if q != k {
                assert(has_key(r, q));
                assert(has_key(s, q));
                let m = choose|m: int| 0 <= m < s.len() && #[trigger] s[m].0 == q;
                lemma_value_of_at(s, m);
            }
        }
    } else {
        assert forall|q: Seq<char>| has_key(sorted_params(ps), q) <==> has_key(ps, q) by {}
    }
}

/// `(k, _)` goes at or before an entry named `name`.
fn stops_at(name: &String, k: &String) -> (r: bool)
    ensures
        r == (name@ == k@ || str_le(k@, name@)),
{
    crate::text::str_eq(name.as_str(), k.as_str()) || str_le_exec(k.as_str(), name.as_str())
}

/// Places `(k, v)` into a name-sorted list.
fn insert_param(out: &mut Vec<(String, String)>, k: String, v: String)
    ensures
        pairs_view(final(out)@) == insert_sorted(pairs_view(old(out)@), k@, v@),
{
    let ghost s = pairs_view(out@);
    let mut i: usize = 0;
    proof {
        assert(s.subrange(0, 0) + insert_sorted(s.subrange(0, s.len() as int), k@, v@) =~= insert_sorted(s, k@, v@))
            by {
            assert(s.subrange(0, s.len() as int) =~= s);
        }
    }
    while i < out.len() && !stops_at(&out[i].0, &k)
        invariant
            i <= out.len(),
            s == pairs_view(out@),
            insert_sorted(s, k@, v@) == s.subrange(0, i as int) + insert_sorted(s.subrange(i as int, s.len() as int), k@, v@),
        decreases out.len() - i,
    {
        proof {
            let rest = s.subrange(i as int, s.len() as int);
            assert(rest[0] == s[i as int]);
            assert(rest.drop_first() =~= s.subrange(i + 1, s.len() as int));
            assert(s.subrange(0, i + 1) =~= s.subrange(0, i as int) + seq![s[i as int]]);
            assert(s.subrange(0, i as int) + insert_sorted(rest, k@, v@) =~= s.subrange(0, i + 1) + insert_sorted(
                s.subrange(i + 1, s.len() as int),
                k@,
                v@,
            ));
        }
        i = i + 1;
    }
    let ghost rest = s.subrange(i as int, s.len() as int);
    if i < out.len() && crate::text::str_eq(out[i].0.as_str(), k.as_str()) {
        out.set(i, (k, v));
        proof {
            assert(pairs_view(out@) =~= s.subrange(0, i as int) + insert_sorted(rest, k@, v@));
        }
    } else {
        out.insert(i, (k, v));
        proof {
            assert(pairs_view(out@) =~= s.subrange(0, i as int) + insert_sorted(rest, k@, v@));
        }
    }
}

/// The parameters in signing order.
pub fn normalize_params(ps: &Vec<(String, String)>) -> (r: Vec<(String, String)>)
    ensures
        pairs_view(r@) == sorted_params(pairs_view(ps@)),
{
    let mut out: Vec<(String, String)> = Vec::new();
    let mut i: usize = 0;
    proof {
        assert(pairs_view(out@) =~= Seq::<(Seq<char>, Seq<char>)>::empty());
        assert(pairs_view(ps@).subrange(0, 0) =~= Seq::<(Seq<char>, Seq<char>)>::empty());
    }
    while i < ps.len()
        invariant
            i <= ps.len(),
            pairs_view(out@) == sorted_params(pairs_view(ps@).subrange(0, i as int)),
        decreases ps.len() - i,
    {
        let k = ps[i].0.clone();
        let v = ps[i].1.clone();
        insert_param(&mut out, k, v);
        proof {
            let t = pairs_view(ps@).subrange(0, i + 1);
            assert(t.drop_last() =~= pairs_view(ps@).subrange(0, i as int));
        }
        i = i + 1;
    }
    proof {
        assert(pairs_view(ps@).subrange(0, i as int) =~= pairs_view(ps@));
    }
    out
}

// ── Signature and header ─────────────────────────────────────────────

/// `name=value`, both form-encoded, for each parameter.
pub open spec fn param_texts(ps: Seq<(Seq<char>, Seq<char>)>) -> Seq<Seq<char>> {
    Seq::new(ps.len(), |i: int| form_encode(ps[i].0) + "="@ + form_encode(ps[i].1))
}

/// The normalised parameter string.
pub open spec fn param_string(ps: Seq<(Seq<char>, Seq<char>)>) -> Seq<char> {
    join_with(param_texts(sorted_params(ps)), Seq::empty(), "&"@)
}

/// The port a scheme has when none is written (the special schemes of
/// the URL standard that carry one).
pub open spec fn scheme_default_port(scheme: Seq<char>) -> Option<u16> {
    if scheme == "http"@ || scheme == "ws"@ {
        Some(80u16)
    } else if scheme == "https"@ || scheme == "wss"@ {
        Some(443u16)
    } else if scheme == "ftp"@ {
        Some(21u16)
    } else {
        None
    }
}

/// `:` and the port in decimal, where it is not the scheme's default.
pub open spec fn port_part(scheme: Seq<char>, port: Option<u16>) -> Seq<char> {
    match port {
        Some(p) => if scheme_default_port(scheme) == Some(p) {
            Seq::empty()
        } else {
            ":"@ + decimal(p as nat)
        },
        None => Seq::empty(),
    }
}

/// The URL the signature covers: scheme, host, a port other than the
/// scheme's default, and path, without the query.
pub open spec fn signed_url(u: UrlV) -> Seq<char> {
    u.scheme + "://"@ + match u.host {
        Some(h) => h,
        None => Seq::empty(),
    } + port_part(u.scheme, u.port) + u.path
}

/// The signature base string.
pub open spec fn base_string(method: Seq<char>, url: Seq<char>, ps: Seq<(Seq<char>, Seq<char>)>) -> Seq<char> {
    unicode_upper(method) + "&"@ + form_encode(url) + "&"@ + form_encode(param_string(ps))
}

/// The signing key.
pub open spec fn signing_key(consumer_secret: Seq<char>, token_secret: Seq<char>) -> Seq<char> {
    form_encode(consumer_secret) + "&"@ + form_encode(token_secret)
}

/// The base64 HMAC-SHA1 signature.
pub open spec fn signature(
    method: Seq<char>,
    url: Seq<char>,
    ps: Seq<(Seq<char>, Seq<char>)>,
    consumer_secret: Seq<char>,
    token_secret: Seq<char>,
) -> Seq<char> {
    base64_standard(hmac_sha1(utf8_of(signing_key(consumer_secret, token_secret)), utf8_of(base_string(method, url, ps))))
}

/// Every parameter that is signed, in the order they are given.
pub open spec fn all_params(
    query: Seq<(Seq<char>, Seq<char>)>,
    extra: Seq<(Seq<char>, Seq<char>)>,
    consumer_key: Seq<char>,
    nonce: Seq<char>,
    timestamp: Seq<char>,
    access_token: Seq<char>,
) -> Seq<(Seq<char>, Seq<char>)> {
    query + extra + seq![
        ("oauth_consumer_key"@, consumer_key),
        ("oauth_nonce"@, nonce),
        ("oauth_signature_method"@, "HMAC-SHA1"@),
        ("oauth_timestamp"@, timestamp),
        ("oauth_token"@, access_token),
        ("oauth_version"@, "1.0"@),
    ]
}

/// `name="value"` with the value form-encoded.
pub open spec fn quoted(name: Seq<char>, value: Seq<char>) -> Seq<char> {
    name + "=\""@ + form_encode(value) + "\""@
}

/// The Authorization header.
pub open spec fn header_text(consumer_key: Seq<char>, nonce: Seq<char>, sig: Seq<char>, timestamp: Seq<char>, access_token: Seq<char>) -> Seq<char> {
    "OAuth "@ + join_with(
        seq![
            quoted("oauth_consumer_key"@, consumer_key),
            quoted("oauth_nonce"@, nonce),
            quoted("oauth_signature"@, sig),
            quoted("oauth_signature_method"@, "HMAC-SHA1"@),
            quoted("oauth_timestamp"@, timestamp),
            quoted("oauth_token"@, access_token),
            quoted("oauth_version"@, "1.0"@),
        ],
        Seq::empty(),
        ", "@,
    )
}

/// The header for a parsed URL and a given nonce and timestamp.
#[verifier::opaque]
pub open spec fn oauth1_header(
    method: Seq<char>,
    u: UrlV,
    token: crate::store::OAuth1TokenV,
    extra: Seq<(Seq<char>, Seq<char>)>,
    nonce: Seq<char>,
    timestamp: Seq<char>,
) -> Seq<char> {
    let ps = all_params(u.pairs, extra, token.consumer_key, nonce, timestamp, token.access_token);
    header_text(
        token.consumer_key,
        nonce,
        signature(method, signed_url(u), ps, token.consumer_secret, token.token_secret),
        timestamp,
        token.access_token,
    )
}

/// `name="value"` with the value form-encoded.
fn push_quoted(out: &mut String, name: &str, value: &str)
    ensures
        final(out)@ == old(out)@ + quoted(name@, value@),
{
    push_str(out, name);
    push_str(out, "=\"");
    let e = form_encode_string(value);
    push_str(out, e.as_str());
    push_str(out, "\"");
}

/// The normalised parameter string of already sorted parameters.
fn join_params(sorted: &Vec<(String, String)>) -> (r: String)
    ensures
        r@ == join_with(param_texts(pairs_view(sorted@)), Seq::empty(), "&"@),
{
    let mut texts: Vec<String> = Vec::new();
    let mut i: usize = 0;
    while i < sorted.len()
        invariant
            i <= sorted.len(),
            crate::error::texts(texts@) == param_texts(pairs_view(sorted@)).subrange(0, i as int),
        decreases sorted.len() - i,
    {
        let mut t = form_encode_string(sorted[i].0.as_str());
        push_str(&mut t, "=");
        let e = form_encode_string(sorted[i].1.as_str());
        push_str(&mut t, e.as_str());
        let ghost prev = texts@;
        texts.push(t);
        proof {
            assert(crate::error::texts(texts@) =~= crate::error::texts(prev).push(t@));
            assert(param_texts(pairs_view(sorted@)).subrange(0, i + 1) =~= param_texts(pairs_view(sorted@)).subrange(
                0,
                i as int,
            ).push(t@));
        }
        i = i + 1;
    }
    proof {
        assert(param_texts(pairs_view(sorted@)).subrange(0, i as int) =~= param_texts(pairs_view(sorted@)));
        reveal_strlit("");
        assert(""@ =~= Seq::<char>::empty());
    }
    crate::error::join_strings(&texts, "", "&")
}

/// Computes the base64 HMAC-SHA1 signature of a request.
pub fn generate_signature(
    method: &str,
    url: &str,
    params: &Vec<(String, String)>,
    consumer_secret: &str,
    token_secret: &str,
) -> (r: String)
    ensures
        r@ == signature(method@, url@, pairs_view(params@), consumer_secret@, token_secret@),
{
    let sorted = normalize_params(params);
    let ps = join_params(&sorted);
    let mut base = to_upper_unicode(method);
    push_str(&mut base, "&");
    let eu = form_encode_string(url);
    push_str(&mut base, eu.as_str());
    push_str(&mut base, "&");
    let ep = form_encode_string(ps.as_str());
    push_str(&mut base, ep.as_str());
    let mut key = form_encode_string(consumer_secret);
    push_str(&mut key, "&");
    let et = form_encode_string(token_secret);
    push_str(&mut key, et.as_str());
    let tag = hmac_sha1_tag(&utf8_vec(key.as_str()), &utf8_vec(base.as_str()));
    base64_standard_encode(&tag)
}

/// A pair of owned strings.
fn pair(k: &str, v: &str) -> (r: (String, String))
    ensures
        r.0@ == k@,
        r.1@ == v@,
{
    (owned(k), owned(v))
}

/// Copies the pairs of `src` onto the end of `dst`.
fn append_pairs(dst: &mut Vec<(String, String)>, src: &Vec<(String, String)>)
    ensures
        pairs_view(final(dst)@) == pairs_view(old(dst)@) + pairs_view(src@),
{
    let mut j: usize = 0;
    while j < src.len()
        invariant
            j <= src.len(),
            pairs_view(dst@) == pairs_view(old(dst)@) + pairs_view(src@).subrange(0, j as int),
        decreases src.len() - j,
    {
        let ghost prev = dst@;
        let e = (src[j].0.clone(), src[j].1.clone());
        dst.push(e);
        proof {
            assert(pairs_view(dst@) =~= pairs_view(prev).push((e.0@, e.1@)));
            assert(pairs_view(src@).subrange(0, j + 1) =~= pairs_view(src@).subrange(0, j as int).push((e.0@, e.1@)));
        }
        j = j + 1;
    }
    proof {
        assert(pairs_view(src@).subrange(0, j as int) =~= pairs_view(src@));
    }
}

/// The model of optional extra parameters.
pub open spec fn extra_view(extra: Option<&Vec<(String, String)>>) -> Seq<(Seq<char>, Seq<char>)> {
    match extra {
        Some(x) => pairs_view(x@),
        None => Seq::empty(),
    }
}

/// Every signed parameter of a request, in the order given.
fn collect_params(
    query: &Vec<(String, String)>,
    extra: Option<&Vec<(String, String)>>,
    token: &OAuth1Token,
    nonce: &str,
    timestamp: &str,
) -> (r: Vec<(String, String)>)
    ensures
        pairs_view(r@) == all_params(
            pairs_view(query@),
            extra_view(extra),
            token.consumer_key@,
            nonce@,
            timestamp@,
            token.access_token@,
        ),
{
    let mut params: Vec<(String, String)> = Vec::new();
    proof {
        assert(pairs_view(params@) =~= Seq::<(Seq<char>, Seq<char>)>::empty());
    }
    append_pairs(&mut params, query);
    if let Some(x) = extra {
        append_pairs(&mut params, x);
    }
    proof {
        assert(pairs_view(params@) =~= pairs_view(query@) + extra_view(extra));
    }
    params.push(pair("oauth_consumer_key", token.consumer_key.as_str()));
    params.push(pair("oauth_nonce", nonce));
    params.push(pair("oauth_signature_method", "HMAC-SHA1"));
    params.push(pair("oauth_timestamp", timestamp));
    params.push(pair("oauth_token", token.access_token.as_str()));
    params.push(pair("oauth_version", "1.0"));
    proof {
        assert(pairs_view(params@) =~= all_params(
            pairs_view(query@),
            extra_view(extra),
            token.consumer_key@,
            nonce@,
            timestamp@,
            token.access_token@,
        ));
    }
    params
}

/// The URL the signature covers.
fn signed_url_of(u: &crate::weburl::ParsedUrl) -> (r: String)
    ensures
        r@ == signed_url(u@),
{
    let mut url = u.scheme.clone();
    push_str(&mut url, "://");
    match &u.host {
        Some(h) => push_str(&mut url, h.as_str()),
        None => {},
    }
    let port = port_text(u.scheme.as_str(), u.port);
    push_str(&mut url, port.as_str());
    push_str(&mut url, u.path.as_str());
    proof {
        assert(url@ =~= signed_url(u@));
    }
    url
}

/// The port part of the signed URL.
fn port_text(scheme: &str, port: Option<u16>) -> (r: String)
    ensures
        r@ == port_part(scheme@, port),
{
    match port {
        Some(p) => {
            let default: Option<u16> = if str_eq(scheme, "http") || str_eq(scheme, "ws") {
                Some(80u16)
            } else if str_eq(scheme, "https") || str_eq(scheme, "wss") {
                Some(443u16)
            } else if str_eq(scheme, "ftp") {
                Some(21u16)
            } else {
                None
            };
            proof {
                assert(default == scheme_default_port(scheme@));
            }
            if default == Some(p) {
                String::new()
            } else {
                let mut r = String::new();
                r.push(':');
                let digits = u64_string(p as u64);
                push_str(&mut r, digits.as_str());
                proof {
                    reveal_strlit(":");
                    assert(r@ =~= ":"@ + decimal(p as nat));
                }
                r
            }
        },
        None => String::new(),
    }
}

/// Assembles the Authorization header.
fn assemble_header(consumer_key: &str, nonce: &str, sig: &str, timestamp: &str, access_token: &str) -> (h: String)
    ensures
        h@ == header_text(consumer_key@, nonce@, sig@, timestamp@, access_token@),
{
    let mut items: Vec<String> = Vec::new();
    items.push(quoted_string("oauth_consumer_key", consumer_key));
    items.push(quoted_string("oauth_nonce", nonce));
    items.push(quoted_string("oauth_signature", sig));
    items.push(quoted_string("oauth_signature_method", "HMAC-SHA1"));
    items.push(quoted_string("oauth_timestamp", timestamp));
    items.push(quoted_string("oauth_token", access_token));
    items.push(quoted_string("oauth_version", "1.0"));
    proof {
        assert(crate::error::texts(items@) =~= seq![
            quoted("oauth_consumer_key"@, consumer_key@),
            quoted("oauth_nonce"@, nonce@),
            quoted("oauth_signature"@, sig@),
            quoted("oauth_signature_method"@, "HMAC-SHA1"@),
            quoted("oauth_timestamp"@, timestamp@),
            quoted("oauth_token"@, access_token@),
            quoted("oauth_version"@, "1.0"@),
        ]);
        reveal_strlit("");
        assert(""@ =~= Seq::<char>::empty());
    }
    let joined = crate::error::join_strings(&items, "", ", ");
    let mut h = owned("OAuth ");
    push_str(&mut h, joined.as_str());
    h
}

/// `name="value"` with the value form-encoded.
fn quoted_string(name: &str, value: &str) -> (r: String)
    ensures
        r@ == quoted(name@, value@),
{
    let mut r = String::new();
    push_quoted(&mut r, name, value);
    r
}

/// Builds the OAuth1 Authorization header for a request with the given
/// nonce and timestamp.
pub fn build_oauth1_header_with(
    method: &str,
    url_str: &str,
    token: &OAuth1Token,
    additional_params: Option<&Vec<(String, String)>>,
    nonce: &str,
    timestamp: &str,
) -> (r: Result<String, Error>)
    ensures
        match url_parse(url_str@) {
            Ok(u) => r matches Ok(h) && h@ == oauth1_header(
                method@,
                u,
                token@,
                extra_view(additional_params),
                nonce@,
                timestamp@,
            ),
            Err(e) => r matches Err(Error::Auth(m)) && m@ == "InvalidURL: "@ + e,
        },
{
    let parsed = match parse_url(url_str) {
        Ok(u) => u,
        Err(e) => {
            let mut m = owned("InvalidURL: ");
            push_str(&mut m, e.as_str());
            return Err(Error::Auth(m));
        },
    };
    let params = collect_params(&parsed.pairs, additional_params, token, nonce, timestamp);
    let url = signed_url_of(&parsed);
    let sig = generate_signature(
        method,
        url.as_str(),
        &params,
        token.consumer_secret.as_str(),
        token.token_secret.as_str(),
    );
    let h = assemble_header(token.consumer_key.as_str(), nonce, sig.as_str(), timestamp, token.access_token.as_str());
    proof {
        reveal(oauth1_header);
    }
    Ok(h)
}

/// `h` is the header for some nonce below one billion and some timestamp.
pub open spec fn fresh_header(
    h: Seq<char>,
    method: Seq<char>,
    u: UrlV,
    token: crate::store::OAuth1TokenV,
    extra: Seq<(Seq<char>, Seq<char>)>,
) -> bool {
    exists|n: nat, t: u64| n < 1_000_000_000 && h == oauth1_header(method, u, token, extra, decimal(n), decimal(t as nat))
}

/// A random nonce: the decimal form of a number below one billion.
pub fn generate_nonce() -> (r: String)
    ensures
        exists|n: nat| n < 1_000_000_000 && r@ == decimal(n),
{
    let n = random_below_billion();
    u64_string(n)
}

/// The current Unix time in seconds, in decimal.
pub fn generate_timestamp() -> (r: String)
    ensures
        exists|n: u64| r@ == decimal(n as nat),
{
    u64_string(unix_now())
}

/// Builds the OAuth1 Authorization header for a request, with a fresh
/// nonce and the current time.
pub fn build_oauth1_header(
    method: &str,
    url_str: &str,
    token: &OAuth1Token,
    additional_params: Option<&Vec<(String, String)>>,
) -> (r: Result<String, Error>)
    ensures
        match url_parse(url_str@) {
            Ok(u) => r matches Ok(h) && fresh_header(h@, method@, u, token@, extra_view(additional_params)),
            Err(e) => r matches Err(Error::Auth(m)) && m@ == "InvalidURL: "@ + e,
        },
{
    let nonce = generate_nonce();
    let timestamp = generate_timestamp();
    build_oauth1_header_with(method, url_str, token, additional_params, nonce.as_str(), timestamp.as_str())
}

} // verus!
