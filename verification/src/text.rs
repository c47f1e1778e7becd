//! Character-level string helpers shared by the URL, header and auth logic.
//!
//! Strings are modelled by their character sequences (`s@: Seq<char>`);
//! every helper states its result over that model.

use vstd::prelude::*;
use vstd::string::*;

verus! {

/// `String::push` appends one character.
pub assume_specification[ String::push ](s: &mut String, ch: char)
    ensures
        final(s)@ == old(s)@.push(ch),
;

/// What `{:?}` prints for a string: the text quoted, with quotes,
/// backslashes, control and non-printable characters escaped.
pub uninterp spec fn debug_str(s: Seq<char>) -> Seq<char>;

/// `format!("{:?}", s)`: a string's `Debug` text. The contract names it.
#[verifier::external_body]
pub(crate) fn debug_quoted(s: &str) -> (r: String)
    ensures
        r@ == debug_str(s@),
{
    format!("{:?}", s)
}

/// `str::to_uppercase`: the Unicode upper-case form of a string.
pub uninterp spec fn unicode_upper(s: Seq<char>) -> Seq<char>;

/// `str::to_lowercase`: the Unicode lower-case form of a string.
pub uninterp spec fn unicode_lower(s: Seq<char>) -> Seq<char>;

/// `s.to_uppercase()`. The contract names the outcome.
#[verifier::external_body]
pub(crate) fn to_upper_unicode(s: &str) -> (r: String)
    ensures
        r@ == unicode_upper(s@),
{
    s.to_uppercase()
}

/// `s.to_lowercase()`. The contract names the outcome.
#[verifier::external_body]
pub(crate) fn to_lower_unicode(s: &str) -> (r: String)
    ensures
        r@ == unicode_lower(s@),
{
    s.to_lowercase()
}

// ── Character classes ────────────────────────────────────────────────

/// ASCII letters are shifted to lower case; every other character is kept.
pub open spec fn lower_char(c: char) -> char {
    if 'A' <= c && c <= 'Z' {
        ((c as u32) + 32) as char
    } else {
        c
    }
}

/// ASCII letters are shifted to upper case; every other character is kept.
pub open spec fn upper_char(c: char) -> char {
    if 'a' <= c && c <= 'z' {
        ((c as u32) - 32) as char
    } else {
        c
    }
}

/// The sequence with every ASCII letter in lower case.
pub open spec fn lower(s: Seq<char>) -> Seq<char> {
    Seq::new(s.len(), |i: int| lower_char(s[i]))
}

/// The sequence with every ASCII letter in upper case.
pub open spec fn upper(s: Seq<char>) -> Seq<char> {
    Seq::new(s.len(), |i: int| upper_char(s[i]))
}

/// Unicode `White_Space` characters, the set `str::trim` removes.
pub open spec fn is_white(c: char) -> bool {
    ||| ('\t' <= c && c <= '\r')
    ||| c == ' '
    ||| c == '\u{85}'
    ||| c == '\u{a0}'
    ||| c == '\u{1680}'
    ||| ('\u{2000}' <= c && c <= '\u{200a}')
    ||| c == '\u{2028}'
    ||| c == '\u{2029}'
    ||| c == '\u{202f}'
    ||| c == '\u{205f}'
    ||| c == '\u{3000}'
}

/// Is `c` an ASCII character?
pub open spec fn is_ascii_char(c: char) -> bool {
    (c as u32) < 128
}

// ── Sequence predicates ──────────────────────────────────────────────

/// `s` begins with `p`.
pub open spec fn starts_with(s: Seq<char>, p: Seq<char>) -> bool {
    p.len() <= s.len() && s.subrange(0, p.len() as int) == p
}

/// `s` ends with `p`.
pub open spec fn ends_with(s: Seq<char>, p: Seq<char>) -> bool {
    p.len() <= s.len() && s.subrange(s.len() - p.len(), s.len() as int) == p
}

/// `p` occurs in `s` starting at index `i`.
pub open spec fn occurs_at(s: Seq<char>, p: Seq<char>, i: int) -> bool {
    0 <= i && i + p.len() <= s.len() && s.subrange(i, i + p.len()) == p
}

/// `p` occurs somewhere in `s`.
pub open spec fn contains(s: Seq<char>, p: Seq<char>) -> bool {
    exists|i: int| occurs_at(s, p, i)
}

/// Index of the first occurrence of `p` in `s`, if any.
#[verifier::opaque]
pub open spec fn find(s: Seq<char>, p: Seq<char>) -> Option<int> {
    if contains(s, p) {
        Some(choose|i: int| occurs_at(s, p, i) && forall|j: int| 0 <= j < i ==> !occurs_at(s, p, j))
    } else {
        None
    }
}

/// `s` holds the character `c`.
pub open spec fn has_char(s: Seq<char>, c: char) -> bool {
    exists|i: int| 0 <= i < s.len() && s[i] == c
}

/// Index of the first `c` in `s`, or -1.
pub open spec fn index_of(s: Seq<char>, c: char) -> int
    decreases s.len(),
{
    if s.len() == 0 {
        -1
    } else if s[0] == c {
        0
    } else {
        let r = index_of(s.drop_first(), c);
        if r < 0 {
            -1
        } else {
            r + 1
        }
    }
}

/// Number of leading whitespace characters of `s`.
pub open spec fn lead_white(s: Seq<char>) -> nat
    decreases s.len(),
{
    if s.len() > 0 && is_white(s[0]) {
        1 + lead_white(s.drop_first())
    } else {
        0
    }
}

/// Number of trailing whitespace characters of `s`.
pub open spec fn trail_white(s: Seq<char>) -> nat
    decreases s.len(),
{
    if s.len() > 0 && is_white(s.last()) {
        1 + trail_white(s.drop_last())
    } else {
        0
    }
}

/// `s` without leading whitespace.
pub open spec fn trim_start(s: Seq<char>) -> Seq<char> {
    s.skip(lead_white(s) as int)
}

/// `s` without trailing whitespace.
pub open spec fn trim_end(s: Seq<char>) -> Seq<char> {
    s.take(s.len() - trail_white(s))
}

/// `s` without leading or trailing whitespace.
pub open spec fn trim(s: Seq<char>) -> Seq<char> {
    trim_end(trim_start(s))
}

// ── Lemmas ───────────────────────────────────────────────────────────

/// The first-character search agrees with a scan that stopped at `i`.
pub proof fn lemma_index_of_found(s: Seq<char>, c: char, i: int)
    requires
        0 <= i < s.len(),
        s[i] == c,
        forall|k: int| 0 <= k < i ==> s[k] != c,
    ensures
        index_of(s, c) == i,
    decreases i,
{
    if i > 0 {
        lemma_index_of_found(s.drop_first(), c, i - 1);
    }
}

/// A sequence without `c` has no index for it.
pub proof fn lemma_index_of_absent(s: Seq<char>, c: char)
    requires
        forall|k: int| 0 <= k < s.len() ==> s[k] != c,
    ensures
        index_of(s, c) == -1,
    decreases s.len(),
{
    if s.len() > 0 {
        lemma_index_of_absent(s.drop_first(), c);
    }
}

/// `index_of` is -1 or a valid index holding `c`, with no earlier `c`.
pub proof fn lemma_index_of_props(s: Seq<char>, c: char)
    ensures
        index_of(s, c) == -1 || (0 <= index_of(s, c) < s.len() && s[index_of(s, c)] == c),
        forall|k: int| 0 <= k < s.len() && (index_of(s, c) == -1 || k < index_of(s, c)) ==> s[k] != c,
    decreases s.len(),
{
    if s.len() > 0 && s[0] != c {
        lemma_index_of_props(s.drop_first(), c);
        assert forall|k: int| 0 <= k < s.len() && (index_of(s, c) == -1 || k < index_of(s, c)) implies s[k] != c by {
            if k > 0 {
                assert(s[k] == s.drop_first()[k - 1]);
            }
        }
    }
}

/// The leading-whitespace count is bounded by the length and stops at a non-space.
pub proof fn lemma_lead_white(s: Seq<char>)
    ensures
        lead_white(s) <= s.len(),
        forall|k: int| 0 <= k < lead_white(s) ==> is_white(s[k]),
        lead_white(s) < s.len() ==> !is_white(s[lead_white(s) as int]),
    decreases s.len(),
{
    if s.len() > 0 && is_white(s[0]) {
        lemma_lead_white(s.drop_first());
        assert forall|k: int| 0 <= k < lead_white(s) implies is_white(s[k]) by {
            if k > 0 {
                assert(s[k] == s.drop_first()[k - 1]);
            }
        }
    }
}

/// A scan that found `i` leading spaces then a non-space computes `lead_white`.
pub proof fn lemma_lead_white_at(s: Seq<char>, i: int)
    requires
        0 <= i <= s.len(),
        forall|k: int| 0 <= k < i ==> is_white(s[k]),
        i == s.len() || !is_white(s[i]),
    ensures
        lead_white(s) == i,
    decreases i,
{
    if i > 0 {
        lemma_lead_white_at(s.drop_first(), i - 1);
    }
}

/// A scan that found `n` trailing spaces then a non-space computes `trail_white`.
pub proof fn lemma_trail_white_at(s: Seq<char>, n: int)
    requires
        0 <= n <= s.len(),
        forall|k: int| s.len() - n <= k < s.len() ==> is_white(s[k]),
        n == s.len() || !is_white(s[s.len() - n - 1]),
    ensures
        trail_white(s) == n,
    decreases n,
{
    if n > 0 {
        let t = s.drop_last();
        assert forall|k: int| t.len() - (n - 1) <= k < t.len() implies is_white(t[k]) by {
            assert(t[k] == s[k]);
        }
        if n - 1 < t.len() {
            assert(t[t.len() - (n - 1) - 1] == s[s.len() - n - 1]);
        }
        lemma_trail_white_at(t, n - 1);
    }
}

/// Some occurrence is the first.
proof fn lemma_first_occurrence(s: Seq<char>, p: Seq<char>, w: int)
    requires
        occurs_at(s, p, w),
    ensures
        exists|k: int| occurs_at(s, p, k) && forall|j: int| 0 <= j < k ==> !occurs_at(s, p, j),
    decreases w,
{
    if exists|j: int| 0 <= j < w && occurs_at(s, p, j) {
        let j = choose|j: int| 0 <= j < w && occurs_at(s, p, j);
        lemma_first_occurrence(s, p, j);
    } else {
        assert(occurs_at(s, p, w) && forall|j: int| 0 <= j < w ==> !occurs_at(s, p, j));
    }
}

/// `find` gives the first occurrence, or none when there is none.
pub proof fn lemma_find(s: Seq<char>, p: Seq<char>)
    ensures
        find(s, p) matches Some(i) ==> occurs_at(s, p, i) && forall|j: int| 0 <= j < i ==> !occurs_at(s, p, j),
        find(s, p) is None <==> !contains(s, p),
{
    reveal(find);
    if contains(s, p) {
        let w = choose|i: int| occurs_at(s, p, i);
        lemma_first_occurrence(s, p, w);
    }
}

// ── Executable helpers ───────────────────────────────────────────────

/// Collects the characters of `s` into a vector.
pub fn chars_of(s: &str) -> (out: Vec<char>)
    ensures
        out@ == s@,
{
    let mut out: Vec<char> = Vec::new();
    for c in it: s.chars()
        invariant
            out@ == it.seq().subrange(0, it.index() as int),
    {
        out.push(c);
    }
    assert(out@ == s@);
    out
}

/// Builds a string from the characters `v[from..to]`.
pub fn string_of_range(v: &Vec<char>, from: usize, to: usize) -> (s: String)
    requires
        from <= to <= v.len(),
    ensures
        s@ == v@.subrange(from as int, to as int),
{
    let mut s = String::new();
    let mut i = from;
    while i < to
        invariant
            from <= i <= to <= v.len(),
            s@ == v@.subrange(from as int, i as int),
        decreases to - i,
    {
        s.push(v[i]);
        i = i + 1;
    }
    s
}

/// Builds a string from all the characters of `v`.
pub fn string_of(v: &Vec<char>) -> (s: String)
    ensures
        s@ == v@,
{
    let s = string_of_range(v, 0, v.len());
    assert(v@.subrange(0, v@.len() as int) == v@);
    s
}

/// Copies a string slice into an owned string.
pub fn owned(s: &str) -> (r: String)
    ensures
        r@ == s@,
{
    String::from_str(s)
}

/// Appends a string slice to `s`.
pub fn push_str(s: &mut String, t: &str)
    ensures
        final(s)@ == old(s)@ + t@,
{
    s.append(t);
}

/// Lower-cases one ASCII letter.
pub fn to_lower_char(c: char) -> (r: char)
    ensures
        r == lower_char(c),
{
    if c >= 'A' && c <= 'Z' {
        let v: u32 = c as u32;
        let d: u8 = (v + 32) as u8;
        d as char
    } else {
        c
    }
}

/// Upper-cases one ASCII letter.
pub fn to_upper_char(c: char) -> (r: char)
    ensures
        r == upper_char(c),
{
    if c >= 'a' && c <= 'z' {
        let v: u32 = c as u32;
        let d: u8 = (v - 32) as u8;
        d as char
    } else {
        c
    }
}

/// `s` with its ASCII letters in lower case.
pub fn ascii_lowercase(s: &str) -> (r: String)
    ensures
        r@ == lower(s@),
{
    let v = chars_of(s);
    let mut r = String::new();
    let mut i: usize = 0;
    while i < v.len()
        invariant
            i <= v.len(),
            v@ == s@,
            r@ == lower(s@).subrange(0, i as int),
        decreases v.len() - i,
    {
        r.push(to_lower_char(v[i]));
        i = i + 1;
    }
    assert(lower(s@).subrange(0, v.len() as int) == lower(s@));
    r
}

/// `s` with its ASCII letters in upper case.
pub fn ascii_uppercase(s: &str) -> (r: String)
    ensures
        r@ == upper(s@),
{
    let v = chars_of(s);
    let mut r = String::new();
    let mut i: usize = 0;
    while i < v.len()
        invariant
            i <= v.len(),
            v@ == s@,
            r@ == upper(s@).subrange(0, i as int),
        decreases v.len() - i,
    {
        r.push(to_upper_char(v[i]));
        i = i + 1;
    }
    assert(upper(s@).subrange(0, v.len() as int) == upper(s@));
    r
}

/// Compares two strings, ignoring the case of ASCII letters.
pub fn eq_ignore_ascii_case(a: &str, b: &str) -> (r: bool)
    ensures
        r == (lower(a@) == lower(b@)),
{
    let x = ascii_lowercase(a);
    let y = ascii_lowercase(b);
    x == y
}

/// Exact comparison of two string slices.
pub fn str_eq(a: &str, b: &str) -> (r: bool)
    ensures
        r == (a@ == b@),
{
    let x = owned(a);
    let y = owned(b);
    x == y
}

/// Is `c` a Unicode whitespace character?
pub fn is_white_char(c: char) -> (r: bool)
    ensures
        r == is_white(c),
{
    (c >= '\t' && c <= '\r') || c == ' ' || c == '\u{85}' || c == '\u{a0}' || c == '\u{1680}'
        || (c >= '\u{2000}' && c <= '\u{200a}') || c == '\u{2028}' || c == '\u{2029}'
        || c == '\u{202f}' || c == '\u{205f}' || c == '\u{3000}'
}

/// Number of leading whitespace characters of `v`.
pub fn count_lead_white(v: &Vec<char>) -> (n: usize)
    ensures
        n == lead_white(v@),
{
    let mut i: usize = 0;
    while i < v.len() && is_white_char(v[i])
        invariant
            i <= v.len(),
            forall|k: int| 0 <= k < i ==> is_white(v@[k]),
        decreases v.len() - i,
    {
        i = i + 1;
    }
    proof {
        lemma_lead_white_at(v@, i as int);
    }
    i
}

/// Number of trailing whitespace characters of `v`.
pub fn count_trail_white(v: &Vec<char>) -> (n: usize)
    ensures
        n == trail_white(v@),
        n <= v.len(),
{
    let mut n: usize = 0;
    while n < v.len() && is_white_char(v[v.len() - n - 1])
        invariant
            n <= v.len(),
            forall|k: int| v.len() - n <= k < v.len() ==> is_white(v@[k]),
        decreases v.len() - n,
    {
        n = n + 1;
    }
    proof {
        lemma_trail_white_at(v@, n as int);
    }
    n
}

/// `s` without leading and trailing whitespace.
pub fn trim_str(s: &str) -> (r: String)
    ensures
        r@ == trim(s@),
{
    let v = chars_of(s);
    let a = count_lead_white(&v);
    proof {
        lemma_lead_white(v@);
    }
    let w = string_of_range(&v, a, v.len());
    let u = chars_of(w.as_str());
    let b = count_trail_white(&u);
    let r = string_of_range(&u, 0, u.len() - b);
    r
}

/// `s` without leading whitespace.
pub fn trim_start_str(s: &str) -> (r: String)
    ensures
        r@ == trim_start(s@),
{
    let v = chars_of(s);
    let a = count_lead_white(&v);
    proof {
        lemma_lead_white(v@);
    }
    string_of_range(&v, a, v.len())
}

/// The trailing-whitespace count is bounded by the length.
pub proof fn lemma_trail_bound(s: Seq<char>)
    ensures
        trail_white(s) <= s.len(),
    decreases s.len(),
{
    if s.len() > 0 && is_white(s.last()) {
        lemma_trail_bound(s.drop_last());
    }
}

/// Does `v` start with `p`?
pub fn vec_starts_with(v: &Vec<char>, p: &Vec<char>) -> (r: bool)
    ensures
        r == starts_with(v@, p@),
{
    if p.len() > v.len() {
        return false;
    }
    let mut i: usize = 0;
    while i < p.len()
        invariant
            i <= p.len() <= v.len(),
            forall|k: int| 0 <= k < i ==> v@[k] == p@[k],
        decreases p.len() - i,
    {
        if v[i] != p[i] {
            assert(v@.subrange(0, p.len() as int)[i as int] != p@[i as int]);
            return false;
        }
        i = i + 1;
    }
    assert(v@.subrange(0, p.len() as int) =~= p@);
    true
}

/// Does `v` hold `p` at index `at`?
pub fn vec_occurs_at(v: &Vec<char>, p: &Vec<char>, at: usize) -> (r: bool)
    ensures
        r == occurs_at(v@, p@, at as int),
{
    if at > v.len() || p.len() > v.len() - at {
        return false;
    }
    let mut i: usize = 0;
    while i < p.len()
        invariant
            at + p.len() <= v.len(),
            i <= p.len(),
            forall|k: int| 0 <= k < i ==> v@[at + k] == p@[k],
        decreases p.len() - i,
    {
        if v[at + i] != p[i] {
            assert(v@.subrange(at as int, at + p.len())[i as int] != p@[i as int]);
            return false;
        }
        i = i + 1;
    }
    assert(v@.subrange(at as int, at + p.len()) =~= p@);
    true
}

/// Does `v` end with `p`?
pub fn vec_ends_with(v: &Vec<char>, p: &Vec<char>) -> (r: bool)
    ensures
        r == ends_with(v@, p@),
{
    if p.len() > v.len() {
        return false;
    }
    vec_occurs_at(v, p, v.len() - p.len())
}

/// Index of the first occurrence of `p` in `v`.
pub fn vec_find(v: &Vec<char>, p: &Vec<char>) -> (r: Option<usize>)
    ensures
        r matches Some(i) ==> find(v@, p@) == Some(i as int) && occurs_at(v@, p@, i as int),
        r is None ==> find(v@, p@) is None,
{
    let mut i: usize = 0;
    loop
        invariant
            i <= v.len(),
            forall|j: int| 0 <= j < i ==> !occurs_at(v@, p@, j),
        decreases v.len() - i,
    {
        if vec_occurs_at(v, p, i) {
            proof {
                reveal(find);
                let c = choose|k: int| occurs_at(v@, p@, k) && forall|j: int| 0 <= j < k ==> !occurs_at(v@, p@, j);
                assert(occurs_at(v@, p@, i as int));
                assert(c == i) by {
                    if c < i {
                    } else if c > i {
                    }
                }
            }
            return Some(i);
        }
        if i == v.len() {
            proof {
                reveal(find);
                assert forall|j: int| !occurs_at(v@, p@, j) by {
                    if 0 <= j && j <= i {
                    }
                }
            }
            return None;
        }
        i = i + 1;
    }
}

/// Does `v` hold `p` anywhere?
pub fn vec_contains(v: &Vec<char>, p: &Vec<char>) -> (r: bool)
    ensures
        r == contains(v@, p@),
{
    proof {
        lemma_find(v@, p@);
    }
    vec_find(v, p).is_some()
}

/// Index of the first `c` in `v[from..]`, relative to `from`.
pub fn vec_index_of(v: &Vec<char>, from: usize, c: char) -> (r: Option<usize>)
    requires
        from <= v.len(),
    ensures
        r matches Some(k) ==> index_of(v@.skip(from as int), c) == k as int,
        r is None ==> index_of(v@.skip(from as int), c) == -1,
{
    let mut i: usize = from;
    while i < v.len()
        invariant
            from <= i <= v.len(),
            forall|k: int| from <= k < i ==> v@[k] != c,
        decreases v.len() - i,
    {
        if v[i] == c {
            proof {
                lemma_index_of_found(v@.skip(from as int), c, (i - from) as int);
            }
            return Some(i - from);
        }
        i = i + 1;
    }
    proof {
        lemma_index_of_absent(v@.skip(from as int), c);
    }
    None
}

/// Does `s` start with `p`?
pub fn str_starts_with(s: &str, p: &str) -> (r: bool)
    ensures
        r == starts_with(s@, p@),
{
    vec_starts_with(&chars_of(s), &chars_of(p))
}

/// Does `s` end with `p`?
pub fn str_ends_with(s: &str, p: &str) -> (r: bool)
    ensures
        r == ends_with(s@, p@),
{
    vec_ends_with(&chars_of(s), &chars_of(p))
}

/// Does `p` occur in `s`?
pub fn str_contains(s: &str, p: &str) -> (r: bool)
    ensures
        r == contains(s@, p@),
{
    vec_contains(&chars_of(s), &chars_of(p))
}

/// Does `s` hold the character `c`?
pub fn str_has_char(s: &str, c: char) -> (r: bool)
    ensures
        r == has_char(s@, c),
{
    let v = chars_of(s);
    let mut i: usize = 0;
    while i < v.len()
        invariant
            i <= v.len(),
            v@ == s@,
            forall|k: int| 0 <= k < i ==> v@[k] != c,
        decreases v.len() - i,
    {
        if v[i] == c {
            return true;
        }
        i = i + 1;
    }
    false
}

// ── Decimal numbers ──────────────────────────────────────────────────

/// The decimal digit for `0 <= d < 10`.
pub open spec fn digit_char(d: nat) -> char {
    (d + 48) as char
}

/// The decimal form of `n`, without leading zeros (`0` for zero).
pub open spec fn decimal(n: nat) -> Seq<char>
    decreases n,
{
    if n < 10 {
        seq![digit_char(n)]
    } else {
        decimal(n / 10).push(digit_char(n % 10))
    }
}

/// The decimal form of `n`.
pub fn u64_string(n: u64) -> (r: String)
    ensures
        r@ == decimal(n as nat),
{
    if n == 0 {
        let mut z = String::new();
        z.push('0');
        proof {
            assert(z@ =~= decimal(0));
        }
        return z;
    }
    let mut digits: Vec<char> = Vec::new();
    let mut m = n;
    proof {
        assert(decimal(m as nat) + digits@.reverse() =~= decimal(m as nat));
    }
    // Collect digits least significant first.
    while m > 0
        invariant
            m > 0 ==> decimal(n as nat) == decimal(m as nat) + digits@.reverse(),
            m == 0 ==> decimal(n as nat) == digits@.reverse(),
        decreases m,
    {
        let d = m % 10;
        let c: char = match d {
            0 => '0',
            1 => '1',
            2 => '2',
            3 => '3',
            4 => '4',
            5 => '5',
            6 => '6',
            7 => '7',
            8 => '8',
            _ => '9',
        };
        proof {
            assert(c == digit_char(d as nat));
        }
        let ghost before = digits@;
        digits.push(c);
        let next = m / 10;
        proof {
            assert(digits@.reverse() =~= seq![c] + before.reverse());
            if m < 10 {
                assert(decimal(m as nat) == seq![c]);
            } else {
                assert(decimal(m as nat) == decimal(next as nat).push(c));
                assert(decimal(next as nat).push(c) + before.reverse() =~= decimal(next as nat) + (seq![c]
                    + before.reverse()));
            }
        }
        m = next;
    }
    let mut r = String::new();
    let mut i = digits.len();
    while i > 0
        invariant
            i <= digits.len(),
            r@ == digits@.reverse().subrange(0, (digits.len() - i) as int),
        decreases i,
    {
        i = i - 1;
        r.push(digits[i]);
        proof {
            assert(digits@.reverse().subrange(0, (digits.len() - i) as int) =~= digits@.reverse().subrange(
                0,
                (digits.len() - i - 1) as int,
            ).push(digits@[i as int]));
        }
    }
    proof {
        assert(digits@.reverse().subrange(0, digits.len() as int) =~= digits@.reverse());
    }
    r
}

/// The `c`-separated pieces of `s` (one empty piece for empty `s`).
pub open spec fn pieces(s: Seq<char>, c: char) -> Seq<Seq<char>>
    decreases s.len(),
{
    let i = index_of(s, c);
    if i < 0 {
        seq![s]
    } else {
        proof {
            lemma_index_of_props(s, c);
        }
        seq![s.take(i)] + pieces(s.skip(i + 1), c)
    }
}

/// The `c`-separated pieces of `q`.
pub fn split_on(q: &Vec<char>, c: char) -> (r: Vec<String>)
    ensures
        crate::error::texts(r@) == pieces(q@, c),
{
    let mut out: Vec<String> = Vec::new();
    let mut start: usize = 0;
    proof {
        assert(q@.skip(0) =~= q@);
        assert(crate::error::texts(out@) + pieces(q@.skip(0), c) =~= pieces(q@, c));
    }
    loop
        invariant
            start <= q.len(),
            crate::error::texts(out@) + pieces(q@.skip(start as int), c) == pieces(q@, c),
        decreases q.len() - start,
    {
        let ghost rest = q@.skip(start as int);
        match vec_index_of(q, start, c) {
            None => {
                let seg = string_of_range(q, start, q.len());
                let ghost prev = out@;
                out.push(seg);
                proof {
                    assert(seg@ =~= rest);
                    assert(pieces(rest, c) == seq![rest]);
                    assert(crate::error::texts(out@) =~= crate::error::texts(prev) + seq![rest]);
                }
                return out;
            },
            Some(k) => {
                proof {
                    crate::text::lemma_index_of_props(rest, c);
                }
                let seg = string_of_range(q, start, start + k);
                let ghost prev = out@;
                out.push(seg);
                proof {
                    assert(seg@ =~= rest.take(k as int));
                    assert(rest.skip(k + 1) =~= q@.skip(start + k + 1));
                    assert(crate::error::texts(out@) =~= crate::error::texts(prev) + seq![rest.take(k as int)]);
                    assert(crate::error::texts(out@) + pieces(q@.skip(start + k + 1), c) =~= crate::error::texts(prev) + pieces(rest, c));
                }
                start = start + k + 1;
            },
        }
    }
}

} // verus!
