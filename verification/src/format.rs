//! Syntax highlighting of pretty-printed JSON, line by line: which part
//! of each line gets which colour. Writing the coloured text is the
//! caller's.

use vstd::prelude::*;

use crate::text::{
    chars_of, ends_with, index_of, owned, pieces, split_on, starts_with, string_of_range, trim, trim_str,
    vec_index_of,
};

verus! {

/// The colours of the highlighting.
#[derive(Debug, Clone, Copy, PartialEq, Eq, Structural)]
pub enum Color {
    /// Uncoloured text.
    Plain,
    /// Structure: braces, brackets, separators.
    WhiteBold,
    /// Object keys.
    CyanBold,
    /// Strings.
    Green,
    /// Booleans.
    Magenta,
    /// `null`.
    Red,
    /// Numbers and anything else.
    Yellow,
}

/// A run of text in one colour.
pub type Span = (String, Color);

/// The model of spans.
pub open spec fn spans_view(v: Seq<Span>) -> Seq<(Seq<char>, Color)> {
    Seq::new(v.len(), |i: int| (v[i].0@, v[i].1))
}

/// A line that is only structure.
pub open spec fn is_structure(t: Seq<char>) -> bool {
    t == "{"@ || t == "}"@ || t == "["@ || t == "]"@ || t == ","@ || t == "},"@ || t == "],"@
}

/// The colour of a value by its JSON type.
pub open spec fn value_color(v: Seq<char>) -> Color {
    let t = trim(v);
    if starts_with(t, "\""@) && (ends_with(t, "\""@) || ends_with(t, "\","@)) {
        Color::Green
    } else if t == "true"@ || t == "false"@ || t == "true,"@ || t == "false,"@ {
        Color::Magenta
    } else if t == "null"@ || t == "null,"@ {
        Color::Red
    } else if starts_with(t, "{"@) || starts_with(t, "["@) {
        Color::WhiteBold
    } else {
        Color::Yellow
    }
}

/// `s` without trailing `{` and `[` characters.
pub open spec fn strip_open(s: Seq<char>) -> Seq<char>
    decreases s.len(),
{
    if s.len() > 0 && (s.last() == '{' || s.last() == '[') {
        strip_open(s.drop_last())
    } else {
        s
    }
}

/// Index of the last `}` or `]` in `s`, or -1.
pub open spec fn last_close(s: Seq<char>) -> int
    decreases s.len(),
{
    if s.len() == 0 {
        -1
    } else if s.last() == '}' || s.last() == ']' {
        s.len() - 1
    } else {
        last_close(s.drop_last())
    }
}

/// The spans of a value after a key.
pub open spec fn after_key(value: Seq<char>) -> Seq<(Seq<char>, Color)> {
    if ends_with(value, "{"@) || ends_with(value, "["@) {
        let w = strip_open(value);
        (if w.len() > 0 {
            seq![(w, Color::Plain)]
        } else {
            Seq::empty()
        }) + seq![(value.skip(w.len() as int), Color::WhiteBold)]
    } else if ends_with(value, "}"@) || ends_with(value, "]"@) || ends_with(value, "},"@) || ends_with(value, "],"@) {
        let l = last_close(value);
        if l > 0 {
            seq![(value.take(l), value_color(value.take(l))), (value.skip(l), Color::WhiteBold)]
        } else {
            seq![(value, Color::WhiteBold)]
        }
    } else {
        seq![(value, value_color(value))]
    }
}

/// The spans of one line.
pub open spec fn line_spans(line: Seq<char>) -> Seq<(Seq<char>, Color)> {
    if is_structure(trim(line)) {
        seq![(line, Color::WhiteBold)]
    } else {
        let c = index_of(line, ':');
        if c >= 0 {
            seq![(line.take(c), Color::CyanBold), (":"@, Color::Plain)] + after_key(trim(line.skip(c + 1)))
        } else {
            seq![(line, value_color(line))]
        }
    }
}

/// `s` without one trailing `\r`.
pub open spec fn strip_cr(s: Seq<char>) -> Seq<char> {
    if s.len() > 0 && s.last() == '\r' {
        s.drop_last()
    } else {
        s
    }
}

/// The lines of a text: split at `\n`, a `\r` before a `\n` removed, no
/// line after a final `\n`.
pub open spec fn text_lines(s: Seq<char>) -> Seq<Seq<char>> {
    let ps = pieces(s, '\n');
    let n = ps.len() as int;
    Seq::new((n - 1) as nat, |i: int| strip_cr(ps[i])) + if ps[n - 1].len() > 0 {
        seq![ps[n - 1]]
    } else {
        Seq::empty()
    }
}

/// The colour of a value by its JSON type.
pub fn color_of_value(v: &str) -> (r: Color)
    ensures
        r == value_color(v@),
{
    let t = trim_str(v);
    let ts = t.as_str();
    if crate::text::str_starts_with(ts, "\"") && (crate::text::str_ends_with(ts, "\"") || crate::text::str_ends_with(
        ts,
        "\",",
    )) {
        Color::Green
    } else if crate::text::str_eq(ts, "true") || crate::text::str_eq(ts, "false") || crate::text::str_eq(ts, "true,")
        || crate::text::str_eq(ts, "false,") {
        Color::Magenta
    } else if crate::text::str_eq(ts, "null") || crate::text::str_eq(ts, "null,") {
        Color::Red
    } else if crate::text::str_starts_with(ts, "{") || crate::text::str_starts_with(ts, "[") {
        Color::WhiteBold
    } else {
        Color::Yellow
    }
}

/// The spans of a value after a key.
fn after_key_spans(value: &str) -> (r: Vec<Span>)
    ensures
        spans_view(r@) == after_key(value@),
{
    let v = chars_of(value);
    if crate::text::str_ends_with(value, "{") || crate::text::str_ends_with(value, "[") {
        let mut n = v.len();
        proof {
            assert(v@.take(v@.len() as int) =~= v@);
        }
        while n > 0 && (v[n - 1] == '{' || v[n - 1] == '[')
            invariant
                n <= v.len(),
                v@ == value@,
                strip_open(value@) == strip_open(v@.take(n as int)),
            decreases n,
        {
            proof {
                assert(v@.take(n as int).drop_last() =~= v@.take(n - 1));
            }
            n = n - 1;
        }
        proof {
            assert(v@.take(v@.len() as int) =~= v@);
            assert(strip_open(v@.take(n as int)) == v@.take(n as int));
        }
        let w = string_of_range(&v, 0, n);
        let b = string_of_range(&v, n, v.len());
        let mut r: Vec<Span> = Vec::new();
        if n > 0 {
            r.push((w, Color::Plain));
        }
        r.push((b, Color::WhiteBold));
        proof {
            assert(b@ =~= value@.skip(n as int));
            assert(spans_view(r@) =~= after_key(value@));
        }
        return r;
    }
    if crate::text::str_ends_with(value, "}") || crate::text::str_ends_with(value, "]") || crate::text::str_ends_with(
        value,
        "},",
    ) || crate::text::str_ends_with(value, "],") {
        let mut k = v.len();
        proof {
            assert(v@.take(v@.len() as int) =~= v@);
        }
        while k > 0 && !(v[k - 1] == '}' || v[k - 1] == ']')
            invariant
                k <= v.len(),
                v@ == value@,
                last_close(value@) == last_close(v@.take(k as int)),
            decreases k,
        {
            proof {
                assert(v@.take(k as int).drop_last() =~= v@.take(k - 1));
            }
            k = k - 1;
        }
        proof {
            if k > 0 {
                assert(last_close(v@.take(k as int)) == k - 1);
            }
        }
        let mut r: Vec<Span> = Vec::new();
        if k > 1 {
            let before = string_of_range(&v, 0, k - 1);
            let bracket = string_of_range(&v, k - 1, v.len());
            let c = color_of_value(before.as_str());
            r.push((before, c));
            r.push((bracket, Color::WhiteBold));
            proof {
                assert(before@ =~= value@.take(k - 1));
                assert(bracket@ =~= value@.skip(k - 1));
            }
        } else {
            r.push((owned(value), Color::WhiteBold));
        }
        proof {
            assert(spans_view(r@) =~= after_key(value@));
        }
        return r;
    }
    let c = color_of_value(value);
    let r = vec![(owned(value), c)];
    proof {
        assert(spans_view(r@) =~= after_key(value@));
    }
    r
}

/// The spans of one line of pretty-printed JSON.
pub fn colorize_line(line: &str) -> (r: Vec<Span>)
    ensures
        spans_view(r@) == line_spans(line@),
{
    let t = trim_str(line);
    let ts = t.as_str();
    if crate::text::str_eq(ts, "{") || crate::text::str_eq(ts, "}") || crate::text::str_eq(ts, "[")
        || crate::text::str_eq(ts, "]") || crate::text::str_eq(ts, ",") || crate::text::str_eq(ts, "},")
        || crate::text::str_eq(ts, "],") {
        let r = vec![(owned(line), Color::WhiteBold)];
        proof {
            assert(spans_view(r@) =~= line_spans(line@));
        }
        return r;
    }
    let v = chars_of(line);
    proof {
        assert(v@.skip(0) =~= v@);
        crate::text::lemma_index_of_props(v@, ':');
    }
    match vec_index_of(&v, 0, ':') {
        Some(c) => {
            let vl = v.len();
            let key = string_of_range(&v, 0, c);
            let rest = string_of_range(&v, c + 1, v.len());
            let value = trim_str(rest.as_str());
            let tail = after_key_spans(value.as_str());
            let mut r: Vec<Span> = Vec::new();
            r.push((key, Color::CyanBold));
            r.push((owned(":"), Color::Plain));
            let mut i: usize = 0;
            let ghost head = spans_view(r@);
            while i < tail.len()
                invariant
                    i <= tail.len(),
                    spans_view(r@) == head + spans_view(tail@).subrange(0, i as int),
                decreases tail.len() - i,
            {
                let e = (tail[i].0.clone(), tail[i].1);
                let ghost prev = r@;
                r.push(e);
                proof {
                    assert(spans_view(r@) =~= spans_view(prev).push((e.0@, e.1)));
                    assert(spans_view(tail@).subrange(0, i + 1) =~= spans_view(tail@).subrange(0, i as int).push(
                        (e.0@, e.1),
                    ));
                }
                i = i + 1;
            }
            proof {
                assert(spans_view(tail@).subrange(0, i as int) =~= spans_view(tail@));
                assert(key@ =~= line@.take(c as int));
                assert(rest@ =~= line@.skip(c + 1));
                assert(spans_view(r@) =~= line_spans(line@));
            }
            r
        },
        None => {
            let col = color_of_value(line);
            let r = vec![(owned(line), col)];
            proof {
                assert(spans_view(r@) =~= line_spans(line@));
            }
            r
        },
    }
}

/// The model of lines of spans.
pub open spec fn lines_view(v: Seq<Vec<Span>>) -> Seq<Seq<(Seq<char>, Color)>> {
    Seq::new(v.len(), |i: int| spans_view(v[i]@))
}

/// The spans of every line of pretty-printed JSON.
pub fn colorize_json(json: &str) -> (r: Vec<Vec<Span>>)
    ensures
        lines_view(r@) == text_lines(json@).map_values(|l: Seq<char>| line_spans(l)),
{
    let parts = split_on(&chars_of(json), '\n');
    let ghost ps = pieces(json@, '\n');
    proof {
        assert(crate::error::texts(parts@) == ps);
        assert(ps.len() >= 1) by {
            crate::text::lemma_index_of_props(json@, '\n');
        }
    }
    let n = parts.len();
    let mut r: Vec<Vec<Span>> = Vec::new();
    let mut i: usize = 0;
    while i < n - 1
        invariant
            n == parts.len(),
            n >= 1,
            i < n,
            r.len() == i,
            crate::error::texts(parts@) == ps,
            lines_view(r@) == Seq::new(i as nat, |k: int| line_spans(strip_cr(ps[k]))),
        decreases n - i,
    {
        let pv = chars_of(parts[i].as_str());
        let line = if pv.len() > 0 && pv[pv.len() - 1] == '\r' {
            string_of_range(&pv, 0, pv.len() - 1)
        } else {
            string_of_range(&pv, 0, pv.len())
        };
        proof {
            assert(line@ =~= strip_cr(ps[i as int]));
        }
        let spans = colorize_line(line.as_str());
        let ghost prev = r@;
        r.push(spans);
        proof {
            assert forall|k: int| 0 <= k < i + 1 implies #[trigger] lines_view(r@)[k] == line_spans(strip_cr(ps[k])) by {
                if k < i {
                    assert(r@[k] == prev[k]);
                    assert(lines_view(prev)[k] == line_spans(strip_cr(ps[k])));
                }
            }
            assert(lines_view(r@) =~= Seq::new((i + 1) as nat, |k: int| line_spans(strip_cr(ps[k]))));
        }
        i = i + 1;
    }
    let last = parts[n - 1].as_str();
    let ghost before = r@;
    proof {
        assert(last@ == ps[n - 1]);
    }
    if !last.is_empty() {
        let spans = colorize_line(last);
        r.push(spans);
        proof {
            assert(r@[i as int] == spans);
        }
    }
    proof {
        let tl = text_lines(json@);
        let expected = tl.map_values(|l: Seq<char>| line_spans(l));
        assert(tl.len() == expected.len());
        assert forall|k: int| 0 <= k < expected.len() implies #[trigger] lines_view(r@)[k] == expected[k] by {
            if k < i {
                assert(r@[k] == before[k]);
                assert(lines_view(before)[k] == line_spans(strip_cr(ps[k])));
                assert(tl[k] == strip_cr(ps[k]));
            } else {
                assert(tl[k] == ps[n - 1]);
            }
        }
        assert(lines_view(r@) =~= expected);
    }
    r
}

} // verus!
