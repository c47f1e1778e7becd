//! Key search and lexicographic ordering of strings.

use vstd::prelude::*;

use crate::text::chars_of;

verus! {

broadcast use vstd::seq_lib::to_multiset_insert;

/// Index of the first key equal to `k`, or -1.
pub open spec fn key_pos(keys: Seq<Seq<char>>, k: Seq<char>) -> int
    decreases keys.len(),
{
    if keys.len() == 0 {
        -1
    } else if keys[0] == k {
        0
    } else {
        let r = key_pos(keys.drop_first(), k);
        if r < 0 {
            -1
        } else {
            r + 1
        }
    }
}

/// The keys of a list of keyed entries.
pub open spec fn keys_of<V>(v: Seq<(String, V)>) -> Seq<Seq<char>> {
    Seq::new(v.len(), |i: int| v[i].0@)
}

/// `key_pos` is -1 or the first index holding `k`.
pub proof fn lemma_key_pos(keys: Seq<Seq<char>>, k: Seq<char>)
    ensures
        -1 <= key_pos(keys, k) < keys.len(),
        key_pos(keys, k) >= 0 ==> keys[key_pos(keys, k)] == k,
        forall|j: int| 0 <= j < keys.len() && (key_pos(keys, k) < 0 || j < key_pos(keys, k)) ==> keys[j] != k,
    decreases keys.len(),
{
    if keys.len() > 0 && keys[0] != k {
        lemma_key_pos(keys.drop_first(), k);
        assert forall|j: int| 0 <= j < keys.len() && (key_pos(keys, k) < 0 || j < key_pos(keys, k)) implies keys[j] != k by {
            if j > 0 {
                assert(keys[j] == keys.drop_first()[j - 1]);
            }
        }
    }
}

/// A scan that stopped at `i` computes `key_pos`.
pub proof fn lemma_key_pos_at(keys: Seq<Seq<char>>, k: Seq<char>, i: int)
    requires
        0 <= i <= keys.len(),
        forall|j: int| 0 <= j < i ==> keys[j] != k,
        i == keys.len() || keys[i] == k,
    ensures
        key_pos(keys, k) == (if i == keys.len() { -1 } else { i }),
    decreases i,
{
    if i > 0 {
        lemma_key_pos_at(keys.drop_first(), k, i - 1);
    }
}

/// Keys that agree up to index `i` and differ elsewhere only off `k` keep `key_pos`.
pub proof fn lemma_key_pos_same(a: Seq<Seq<char>>, b: Seq<Seq<char>>, k: Seq<char>)
    requires
        a.len() == b.len(),
        forall|j: int| 0 <= j < a.len() ==> (a[j] == k) == (b[j] == k),
    ensures
        key_pos(a, k) == key_pos(b, k),
    decreases a.len(),
{
    if a.len() > 0 {
        lemma_key_pos_same(a.drop_first(), b.drop_first(), k);
    }
}

/// Position of the first entry keyed `k`.
pub fn find_key<V>(v: &Vec<(String, V)>, k: &str) -> (r: Option<usize>)
    ensures
        r matches Some(i) ==> i as int == key_pos(keys_of(v@), k@) && i < v.len(),
        r is None ==> key_pos(keys_of(v@), k@) == -1,
{
    let kk = crate::text::owned(k);
    let mut i: usize = 0;
    while i < v.len()
        invariant
            i <= v.len(),
            kk@ == k@,
            forall|j: int| 0 <= j < i ==> keys_of(v@)[j] != k@,
        decreases v.len() - i,
    {
        if v[i].0 == kk {
            proof {
                lemma_key_pos_at(keys_of(v@), k@, i as int);
            }
            return Some(i);
        }
        i = i + 1;
    }
    proof {
        lemma_key_pos_at(keys_of(v@), k@, i as int);
    }
    None
}

// ── Lexicographic order ──────────────────────────────────────────────

/// `a` sorts no later than `b`, comparing code points left to right.
pub open spec fn str_le(a: Seq<char>, b: Seq<char>) -> bool
    decreases a.len(),
{
    if a.len() == 0 {
        true
    } else if b.len() == 0 {
        false
    } else if a[0] != b[0] {
        (a[0] as u32) < (b[0] as u32)
    } else {
        str_le(a.drop_first(), b.drop_first())
    }
}

/// The character sequences of a list of strings.
pub open spec fn strings_view(v: Seq<String>) -> Seq<Seq<char>> {
    Seq::new(v.len(), |i: int| v[i]@)
}

/// Every element sorts no later than the next.
pub open spec fn sorted(s: Seq<Seq<char>>) -> bool {
    forall|i: int| 0 <= i < s.len() - 1 ==> str_le(s[i], #[trigger] s[i + 1])
}

/// Any two strings are ordered one way or the other.
pub proof fn lemma_str_le_total(a: Seq<char>, b: Seq<char>)
    ensures
        str_le(a, b) || str_le(b, a),
    decreases a.len(),
{
    if a.len() > 0 && b.len() > 0 {
        if a[0] == b[0] {
            lemma_str_le_total(a.drop_first(), b.drop_first());
        } else {
            let x = a[0] as u32;
            let y = b[0] as u32;
            if x == y {
                vstd::utf8::char_u32_cast(a[0], x);
                vstd::utf8::char_u32_cast(b[0], y);
            }
        }
    }
}

/// The order is transitive.
pub proof fn lemma_str_le_trans(a: Seq<char>, b: Seq<char>, c: Seq<char>)
    requires
        str_le(a, b),
        str_le(b, c),
    ensures
        str_le(a, c),
    decreases a.len(),
{
    if a.len() > 0 && b.len() > 0 && c.len() > 0 {
        if a[0] == b[0] && b[0] == c[0] {
            lemma_str_le_trans(a.drop_first(), b.drop_first(), c.drop_first());
        } else if a[0] == b[0] {
        } else if b[0] == c[0] {
        } else {
            let x = a[0] as u32;
            let z = c[0] as u32;
            if x == z {
                vstd::utf8::char_u32_cast(a[0], x);
                vstd::utf8::char_u32_cast(c[0], z);
            }
        }
    }
}

/// Strings ordered both ways are equal.
pub proof fn lemma_str_le_antisym(a: Seq<char>, b: Seq<char>)
    requires
        str_le(a, b),
        str_le(b, a),
    ensures
        a == b,
    decreases a.len(),
{
    if a.len() == 0 {
        assert(b.len() == 0);
        assert(a =~= b);
    } else {
        assert(b.len() > 0);
        if a[0] == b[0] {
            lemma_str_le_antisym(a.drop_first(), b.drop_first());
            assert(a =~= seq![a[0]] + a.drop_first());
            assert(b =~= seq![b[0]] + b.drop_first());
        }
    }
}

/// Compares two strings by code point.
pub fn str_le_exec(a: &str, b: &str) -> (r: bool)
    ensures
        r == str_le(a@, b@),
{
    let x = chars_of(a);
    let y = chars_of(b);
    let mut i: usize = 0;
    proof {
        assert(x@.skip(0) =~= x@);
        assert(y@.skip(0) =~= y@);
    }
    while i < x.len() && i < y.len() && x[i] == y[i]
        invariant
            i <= x.len(),
            i <= y.len(),
            str_le(a@, b@) == str_le(x@.skip(i as int), y@.skip(i as int)),
            x@ == a@,
            y@ == b@,
        decreases x.len() - i,
    {
        proof {
            assert(x@.skip(i as int).drop_first() =~= x@.skip(i + 1));
            assert(y@.skip(i as int).drop_first() =~= y@.skip(i + 1));
        }
        i = i + 1;
    }
    if i == x.len() {
        true
    } else if i == y.len() {
        false
    } else {
        let cx: u32 = x[i] as u32;
        let cy: u32 = y[i] as u32;
        cx < cy
    }
}

/// The strings of `v`, sorted by code point.
pub fn sort_strings(v: Vec<String>) -> (r: Vec<String>)
    ensures
        sorted(strings_view(r@)),
        r@.to_multiset() == v@.to_multiset(),
        strings_view(r@).to_multiset() == strings_view(v@).to_multiset(),
{
    let mut out: Vec<String> = Vec::new();
    let mut i: usize = 0;
    assert(v@.subrange(0, 0) =~= Seq::<String>::empty());
    assert(out@ =~= Seq::<String>::empty());
    assert(strings_view(v@.subrange(0, 0)) =~= Seq::<Seq<char>>::empty());
    assert(strings_view(out@) =~= Seq::<Seq<char>>::empty());
    while i < v.len()
        invariant
            i <= v.len(),
            sorted(strings_view(out@)),
            out@.to_multiset() == v@.subrange(0, i as int).to_multiset(),
            strings_view(out@).to_multiset() == strings_view(v@.subrange(0, i as int)).to_multiset(),
        decreases v.len() - i,
    {
        let x = v[i].clone();
        let mut p: usize = 0;
        while p < out.len() && !(str_le_exec(x.as_str(), out[p].as_str()) && !str_le_exec(
            out[p].as_str(),
            x.as_str(),
        ))
            invariant
                p <= out.len(),
                forall|k: int| 0 <= k < p ==> str_le(out@[k]@, x@),
            decreases out.len() - p,
        {
            proof {
                lemma_str_le_total(x@, out@[p as int]@);
            }
            p = p + 1;
        }
        let ghost before = out@;
        out.insert(p, x);
        proof {
            let s = strings_view(out@);
            let bv = strings_view(before);
            assert forall|k: int| 0 <= k < s.len() - 1 implies str_le(s[k], #[trigger] s[k + 1]) by {
                if k + 1 < p {
                    assert(s[k] == before[k]@ && s[k + 1] == before[k + 1]@);
                    assert(str_le(bv[k], bv[k + 1]));
                } else if k + 1 == p {
                    assert(s[k] == before[k]@);
                } else if k == p {
                    assert(s[k + 1] == before[k]@);
                } else {
                    assert(s[k] == before[k - 1]@ && s[k + 1] == before[k]@);
                    let j = k - 1;
                    assert(str_le(bv[j], bv[j + 1]));
                }
            }
            assert(v@.subrange(0, i + 1) =~= v@.subrange(0, i as int).push(v@[i as int]));
            vstd::seq_lib::to_multiset_build(v@.subrange(0, i as int), v@[i as int]);
            assert(strings_view(out@) =~= bv.insert(p as int, x@));
            assert(strings_view(v@.subrange(0, i + 1)) =~= strings_view(v@.subrange(0, i as int)).push(
                v@[i as int]@,
            ));
            vstd::seq_lib::to_multiset_build(strings_view(v@.subrange(0, i as int)), v@[i as int]@);
        }
        i = i + 1;
    }
    assert(v@.subrange(0, v.len() as int) =~= v@);
    out
}

} // verus!
