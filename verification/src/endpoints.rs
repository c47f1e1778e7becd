//! Which endpoints are long-lived streams.

use vstd::prelude::*;

use crate::error::texts;
use crate::text::{chars_of, index_of, lower, owned, starts_with, string_of_range, vec_index_of};

verus! {

/// The endpoint paths that stream.
pub open spec fn streaming_paths() -> Seq<Seq<char>> {
    seq![
        "/2/tweets/search/stream"@,
        "/2/tweets/sample/stream"@,
        "/2/tweets/sample10/stream"@,
        "/2/tweets/firehose/stream"@,
        "/2/tweets/firehose/stream/lang/en"@,
        "/2/tweets/firehose/stream/lang/ja"@,
        "/2/tweets/firehose/stream/lang/ko"@,
        "/2/tweets/firehose/stream/lang/pt"@,
    ]
}

/// The endpoint paths that stream.
pub fn streaming_endpoints_init() -> (r: Vec<String>)
    ensures
        texts(r@) == streaming_paths(),
{
    let r = vec![
        owned("/2/tweets/search/stream"),
        owned("/2/tweets/sample/stream"),
        owned("/2/tweets/sample10/stream"),
        owned("/2/tweets/firehose/stream"),
        owned("/2/tweets/firehose/stream/lang/en"),
        owned("/2/tweets/firehose/stream/lang/ja"),
        owned("/2/tweets/firehose/stream/lang/ko"),
        owned("/2/tweets/firehose/stream/lang/pt"),
    ];
    proof {
        assert(texts(r@) =~= streaming_paths());
    }
    r
}

/// Index just after the third `/`, if there are three.
pub open spec fn after_third_slash(s: Seq<char>) -> int {
    let a = index_of(s, '/');
    if a < 0 {
        -1
    } else {
        let b = index_of(s.skip(a + 1), '/');
        if b < 0 {
            -1
        } else {
            let c = index_of(s.skip(a + 1 + b + 1), '/');
            if c < 0 {
                -1
            } else {
                a + 1 + b + 1 + c + 1
            }
        }
    }
}

/// `s` without trailing `/` characters.
pub open spec fn trim_slashes(s: Seq<char>) -> Seq<char>
    decreases s.len(),
{
    if s.len() > 0 && s.last() == '/' {
        trim_slashes(s.drop_last())
    } else {
        s
    }
}

/// The path an endpoint names: for `http...` URLs, `/` and what follows the
/// third `/`; then without the query and trailing `/`s.
pub open spec fn endpoint_path(e: Seq<char>) -> Seq<char> {
    let p = if starts_with(lower(e), "http"@) && after_third_slash(e) >= 0 {
        seq!['/'] + e.skip(after_third_slash(e))
    } else {
        e
    };
    let q = index_of(p, '?');
    trim_slashes(if q < 0 {
        p
    } else {
        p.take(q)
    })
}

/// An endpoint is streamed when its path is one of the streaming paths.
pub fn is_streaming_endpoint(endpoint: &str) -> (r: bool)
    ensures
        r == streaming_paths().contains(endpoint_path(endpoint@)),
{
    let v = chars_of(endpoint);
    let lv = chars_of(crate::text::ascii_lowercase(endpoint).as_str());
    let http = chars_of("http");
    proof {
        reveal_strlit("http");
    }
    let mut path: Vec<char> = Vec::new();
    let mut done = false;
    if crate::text::vec_starts_with(&lv, &http) {
        proof {
            assert(v@.skip(0) =~= v@);
            crate::text::lemma_index_of_props(v@, '/');
        }
        if let Some(a) = vec_index_of(&v, 0, '/') {
            proof {
                crate::text::lemma_index_of_props(v@.skip(a + 1), '/');
                assert(v@.skip(a + 1) =~= v@.skip(0).skip(a + 1));
            }
            if let Some(b) = vec_index_of(&v, a + 1, '/') {
                proof {
                    assert(v@.skip(a + 1).skip(b + 1) =~= v@.skip(a + 1 + b + 1));
                    crate::text::lemma_index_of_props(v@.skip(a + 1 + b + 1), '/');
                }
                if let Some(c) = vec_index_of(&v, a + 1 + b + 1, '/') {
                    path.push('/');
                    let mut i = a + 1 + b + 1 + c + 1;
                    while i < v.len()
                        invariant
                            a + 1 + b + 1 + c + 1 <= i <= v.len(),
                            path@ == seq!['/'] + v@.subrange(a + 1 + b + 1 + c + 1, i as int),
                        decreases v.len() - i,
                    {
                        path.push(v[i]);
                        i = i + 1;
                    }
                    proof {
                        assert(path@ =~= seq!['/'] + v@.skip(after_third_slash(v@)));
                    }
                    done = true;
                }
            }
        }
    }
    if !done {
        path = v;
    }
    proof {
        let p = if starts_with(lower(endpoint@), "http"@) && after_third_slash(endpoint@) >= 0 {
            seq!['/'] + endpoint@.skip(after_third_slash(endpoint@))
        } else {
            endpoint@
        };
        assert(path@ == p);
        assert(path@.skip(0) =~= path@);
        crate::text::lemma_index_of_props(path@, '?');
    }
    let end = match vec_index_of(&path, 0, '?') {
        Some(q) => q,
        None => path.len(),
    };
    let mut n = end;
    proof {
        assert(path@.take(end as int) =~= (if index_of(path@, '?') < 0 {
            path@
        } else {
            path@.take(index_of(path@, '?'))
        }));
    }
    while n > 0 && path[n - 1] == '/'
        invariant
            n <= end <= path.len(),
            trim_slashes(path@.take(end as int)) == trim_slashes(path@.take(n as int)),
        decreases n,
    {
        proof {
            assert(path@.take(n as int).drop_last() =~= path@.take(n - 1));
        }
        n = n - 1;
    }
    let norm = string_of_range(&path, 0, n);
    proof {
        assert(norm@ =~= path@.take(n as int));
    }
    let list = streaming_endpoints_init();
    proof {
        assert(norm@ == endpoint_path(endpoint@));
    }
    let mut k: usize = 0;
    while k < list.len()
        invariant
            k <= list.len(),
            texts(list@) == streaming_paths(),
            norm@ == endpoint_path(endpoint@),
            forall|j: int| 0 <= j < k ==> texts(list@)[j] != norm@,
        decreases list.len() - k,
    {
        if crate::text::str_eq(list[k].as_str(), norm.as_str()) {
            proof {
                assert(texts(list@)[k as int] == norm@);
                assert(streaming_paths()[k as int] == norm@);
            }
            return true;
        }
        k = k + 1;
    }
    false
}

} // verus!
