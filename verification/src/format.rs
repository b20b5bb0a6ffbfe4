//! Syntax highlighting for display: a line is partitioned into plain spans
//! and keyword spans. A keyword span is a whole-word occurrence of one of
//! the fixed reserved words — a maximal run of word characters whose text
//! equals a keyword, case-sensitively. Plain spans are maximal too: two
//! never sit side by side, so the partition is uniquely determined.

use vstd::prelude::*;

verus! {

/// Word characters: letters, digits and the underscore.
pub open spec fn is_word_char(c: char) -> bool {
    ||| c == '_'
    ||| (c as u32) >= ('a' as u32) && (c as u32) <= ('z' as u32)
    ||| (c as u32) >= ('A' as u32) && (c as u32) <= ('Z' as u32)
    ||| (c as u32) >= ('0' as u32) && (c as u32) <= ('9' as u32)
}

/// The fixed list of reserved words that are highlighted.
pub open spec fn keyword_texts() -> Seq<Seq<char>> {
    seq![
        seq!['f', 'u', 'n', 'c'],
        seq!['v', 'a', 'r'],
        seq!['s', 't', 'r', 'u', 'c', 't'],
        seq!['i', 'f'],
        seq!['e', 'l', 's', 'e', 'i', 'f'],
        seq!['e', 'l', 's', 'e'],
        seq!['s', 't', 'a', 't', 'i', 'c'],
        seq!['r', 'e', 't', 'u', 'r', 'n'],
        seq!['t', 'r', 'u', 'e'],
        seq!['f', 'a', 'l', 's', 'e'],
        seq!['n', 'u', 'l', 'l'],
    ]
}

pub open spec fn is_keyword(w: Seq<char>) -> bool {
    keyword_texts().contains(w)
}

/// `[i, j)` is a maximal run of word characters in `l`.
pub open spec fn word_run_at(l: Seq<char>, i: int, j: int) -> bool {
    &&& 0 <= i < j <= l.len()
    &&& forall|t: int| i <= t < j ==> is_word_char(#[trigger] l[t])
    &&& (i == 0 || !is_word_char(l[i - 1]))
    &&& (j == l.len() || !is_word_char(l[j]))
}

/// `[i, j)` holds a whole-word occurrence of a keyword.
pub open spec fn keyword_at(l: Seq<char>, i: int, j: int) -> bool {
    word_run_at(l, i, j) && is_keyword(l.subrange(i, j))
}

/// One piece of a highlighted line: the half-open character range it covers
/// and whether it is rendered as a keyword.
#[derive(Clone, Copy, Debug, PartialEq, Eq, Structural)]
pub struct Span {
    pub start: usize,
    pub end: usize,
    pub keyword: bool,
}

/// The spans are non-empty, consecutive, and cover exactly `[0, upto)`.
pub open spec fn spans_tile(spans: Seq<Span>, upto: int) -> bool {
    &&& (spans.len() == 0 ==> upto == 0)
    &&& (spans.len() > 0 ==> spans[0].start == 0 && spans[spans.len() - 1].end == upto)
    &&& forall|k: int| 0 <= k < spans.len() ==> (#[trigger] spans[k]).start < spans[k].end
    &&& forall|k: int| 0 < k < spans.len() ==> (#[trigger] spans[k]).start == spans[k - 1].end
    &&& forall|k: int| 0 <= k < spans.len() ==> (#[trigger] spans[k]).end <= upto
}

/// A span is flagged as a keyword exactly when it covers a whole-word
/// keyword occurrence.
pub open spec fn spans_flagged(l: Seq<char>, spans: Seq<Span>) -> bool {
    forall|k: int| 0 <= k < spans.len() ==> ((#[trigger] spans[k]).keyword <==> keyword_at(
        l,
        spans[k].start as int,
        spans[k].end as int,
    ))
}

/// Some span covers exactly `[i0, j0)`.
pub open spec fn span_in(spans: Seq<Span>, i0: int, j0: int) -> bool {
    exists|k: int| 0 <= k < spans.len() && (#[trigger] spans[k]).start == i0 && spans[k].end == j0
}

/// Every keyword occurrence starting before `upto` has a span of its own.
pub open spec fn spans_complete(l: Seq<char>, spans: Seq<Span>, upto: int) -> bool {
    forall|i0: int, j0: int| #[trigger] keyword_at(l, i0, j0) && i0 < upto ==> span_in(
        spans,
        i0,
        j0,
    )
}

/// Plain spans are maximal: no two sit side by side.
pub open spec fn no_adjacent_plain(spans: Seq<Span>) -> bool {
    forall|k: int| 0 < k < spans.len() ==> ((#[trigger] spans[k]).keyword || spans[k - 1].keyword)
}

/// A covered range keeps its covering span when more spans are appended.
proof fn lemma_span_in_push(spans: Seq<Span>, s: Span, i0: int, j0: int)
    requires
        span_in(spans, i0, j0),
    ensures
        span_in(spans.push(s), i0, j0),
{
    let k = choose|k: int|
        0 <= k < spans.len() && (#[trigger] spans[k]).start == i0 && spans[k].end == j0;
    assert(spans.push(s)[k].start == i0 && spans.push(s)[k].end == j0);
}

/// Two maximal word runs that overlap are the same run.
proof fn lemma_word_run_unique(l: Seq<char>, i: int, j: int, i0: int, j0: int)
    requires
        word_run_at(l, i, j),
        word_run_at(l, i0, j0),
        i <= i0 < j,
    ensures
        i0 == i && j0 == j,
{
    if i0 > i {
        assert(is_word_char(l[i0 - 1]));
    }
    if j0 < j {
        assert(is_word_char(l[j0]));
    }
    if j0 > j {
        assert(is_word_char(l[j]));
    }
}

fn is_word_char_exec(c: char) -> (r: bool)
    ensures
        r == is_word_char(c),
{
    c == '_' || (c as u32 >= 'a' as u32 && c as u32 <= 'z' as u32) || (c as u32 >= 'A' as u32 && c
        as u32 <= 'Z' as u32) || (c as u32 >= '0' as u32 && c as u32 <= '9' as u32)
}

fn chars_eq(a: &Vec<char>, b: &Vec<char>) -> (r: bool)
    ensures
        r == (a@ == b@),
{
    if a.len() != b.len() {
        return false;
    }
    let mut t: usize = 0;
    while t < a.len()
        invariant
            t <= a@.len(),
            a@.len() == b@.len(),
            forall|u: int| 0 <= u < t ==> a@[u] == b@[u],
        decreases a@.len() - t,
    {
        if a[t] != b[t] {
            return false;
        }
        t += 1;
    }
    proof {
        assert(a@ =~= b@);
    }
    true
}

/// The fixed keyword list as executable data; its view is `keyword_texts`.
fn keyword_table() -> (r: Vec<Vec<char>>)
    ensures
        r.deep_view() == keyword_texts(),
{
    let mut t: Vec<Vec<char>> = Vec::new();
    let mut w: Vec<char> = Vec::new();
    w.push('f');
    w.push('u');
    w.push('n');
    w.push('c');
    t.push(w);
    let mut w: Vec<char> = Vec::new();
    w.push('v');
    w.push('a');
    w.push('r');
    t.push(w);
    let mut w: Vec<char> = Vec::new();
    w.push('s');
    w.push('t');
    w.push('r');
    w.push('u');
    w.push('c');
    w.push('t');
    t.push(w);
    let mut w: Vec<char> = Vec::new();
    w.push('i');
    w.push('f');
    t.push(w);
    let mut w: Vec<char> = Vec::new();
    w.push('e');
    w.push('l');
    w.push('s');
    w.push('e');
    w.push('i');
    w.push('f');
    t.push(w);
    let mut w: Vec<char> = Vec::new();
    w.push('e');
    w.push('l');
    w.push('s');
    w.push('e');
    t.push(w);
    let mut w: Vec<char> = Vec::new();
    w.push('s');
    w.push('t');
    w.push('a');
    w.push('t');
    w.push('i');
    w.push('c');
    t.push(w);
    let mut w: Vec<char> = Vec::new();
    w.push('r');
    w.push('e');
    w.push('t');
    w.push('u');
    w.push('r');
    w.push('n');
    t.push(w);
    let mut w: Vec<char> = Vec::new();
    w.push('t');
    w.push('r');
    w.push('u');
    w.push('e');
    t.push(w);
    let mut w: Vec<char> = Vec::new();
    w.push('f');
    w.push('a');
    w.push('l');
    w.push('s');
    w.push('e');
    t.push(w);
    let mut w: Vec<char> = Vec::new();
    w.push('n');
    w.push('u');
    w.push('l');
    w.push('l');
    t.push(w);
    proof {
        assert(t.deep_view() =~~= keyword_texts());
    }
    t
}

/// Whether the characters `[i, j)` of `line` spell one of the keywords.
fn segment_is_keyword(line: &Vec<char>, i: usize, j: usize) -> (r: bool)
    requires
        i <= j,
        j <= line@.len(),
    ensures
        r == is_keyword(line@.subrange(i as int, j as int)),
{
    let ghost seg = line@.subrange(i as int, j as int);
    let mut w: Vec<char> = Vec::new();
    let mut t = i;
    while t < j
        invariant
            i <= t <= j <= line@.len(),
            w@ == line@.subrange(i as int, t as int),
        decreases j - t,
    {
        w.push(line[t]);
        t += 1;
        proof {
            assert(w@ =~= line@.subrange(i as int, t as int));
        }
    }
    let table = keyword_table();
    let mut k: usize = 0;
    while k < table.len()
        invariant
            k <= table@.len(),
            table.deep_view() == keyword_texts(),
            table@.len() == keyword_texts().len(),
            w@ == seg,
            seg == line@.subrange(i as int, j as int),
            forall|u: int| 0 <= u < k ==> keyword_texts()[u] != seg,
        decreases table@.len() - k,
    {
        proof {
            assert(table@[k as int]@ == table.deep_view()[k as int]);
        }
        if chars_eq(&w, &table[k]) {
            proof {
                assert(keyword_texts()[k as int] == seg);
                assert(is_keyword(seg));
            }
            return true;
        }
        k += 1;
    }
    proof {
        if is_keyword(seg) {
            let u = choose|u: int| 0 <= u < keyword_texts().len() && keyword_texts()[u] == seg;
            assert(false);
        }
    }
    false
}

/// Splits a line into display spans: the keyword spans are exactly the
/// whole-word keyword occurrences, every character is covered exactly once,
/// and plain spans are maximal — which pins the partition down uniquely.
pub fn format(line: &Vec<char>) -> (r: Vec<Span>)
    ensures
        spans_tile(r@, line@.len() as int),
        spans_flagged(line@, r@),
        spans_complete(line@, r@, line@.len() as int),
        no_adjacent_plain(r@),
{
    let ghost l = line@;
    let n = line.len();
    let mut spans: Vec<Span> = Vec::new();
    let mut i: usize = 0;
    let mut plain_start: usize = 0;
    while i < n
        invariant
            n == l.len(),
            l == line@,
            plain_start <= i <= n,
            spans_tile(spans@, plain_start as int),
            spans_flagged(l, spans@),
            spans_complete(l, spans@, i as int),
            no_adjacent_plain(spans@),
            spans@.len() > 0 ==> spans@[spans@.len() - 1].keyword,
            !(0 < i < n && is_word_char(l[i - 1]) && is_word_char(l[i as int])),
        decreases n - i,
    {
        if is_word_char_exec(line[i]) {
            let mut j = i + 1;
            while j < n && is_word_char_exec(line[j])
                invariant
                    n == l.len(),
                    l == line@,
                    i < j <= n,
                    forall|t: int| i <= t < j ==> is_word_char(#[trigger] l[t]),
                decreases n - j,
            {
                j += 1;
            }
            proof {
                assert(word_run_at(l, i as int, j as int));
            }
            if segment_is_keyword(line, i, j) {
                let ghost spans0 = spans@;
                if plain_start < i {
                    proof {
                        // the plain gap cannot itself be a keyword occurrence:
                        // its right edge sits on a word character
                        assert(!keyword_at(l, plain_start as int, i as int));
                    }
                    spans.push(Span { start: plain_start, end: i, keyword: false });
                }
                let ghost spans1 = spans@;
                spans.push(Span { start: i, end: j, keyword: true });
                proof {
                    assert(keyword_at(l, i as int, j as int));
                    assert forall|i0: int, j0: int|
                        #[trigger] keyword_at(l, i0, j0) && i0 < j as int implies span_in(
                        spans@,
                        i0,
                        j0,
                    ) by {
                        if i0 < i as int {
                            lemma_span_in_push(spans0, spans1[spans1.len() - 1], i0, j0);
                            if spans1 != spans0 {
                                lemma_span_in_push(spans1, spans@[spans@.len() - 1], i0, j0);
                            } else {
                                lemma_span_in_push(spans0, spans@[spans@.len() - 1], i0, j0);
                            }
                        } else {
                            lemma_word_run_unique(l, i as int, j as int, i0, j0);
                            assert(spans@[spans@.len() - 1].start == i0);
                        }
                    }
                }
                plain_start = j;
            } else {
                proof {
                    assert forall|i0: int, j0: int|
                        #[trigger] keyword_at(l, i0, j0) && i0 < j as int implies span_in(
                        spans@,
                        i0,
                        j0,
                    ) by {
                        if i0 >= i as int {
                            lemma_word_run_unique(l, i as int, j as int, i0, j0);
                            assert(l.subrange(i0, j0) == l.subrange(i as int, j as int));
                        }
                    }
                }
            }
            i = j;
        } else {
            proof {
                assert forall|i0: int, j0: int|
                    #[trigger] keyword_at(l, i0, j0) && i0 < i + 1 implies span_in(
                    spans@,
                    i0,
                    j0,
                ) by {
                    if i0 == i as int {
                        assert(is_word_char(l[i0]));
                    }
                }
            }
            i += 1;
        }
    }
    if plain_start < n {
        proof {
            if keyword_at(l, plain_start as int, n as int) {
                assert(span_in(spans@, plain_start as int, n as int));
                let k = choose|k: int|
                    0 <= k < spans@.len() && (#[trigger] spans@[k]).start == plain_start as int
                        && spans@[k].end == n as int;
                assert(spans@[k].end <= plain_start as int);
            }
        }
        let ghost spans0 = spans@;
        spans.push(Span { start: plain_start, end: n, keyword: false });
        proof {
            assert forall|i0: int, j0: int|
                #[trigger] keyword_at(l, i0, j0) && i0 < n as int implies span_in(
                spans@,
                i0,
                j0,
            ) by {
                lemma_span_in_push(spans0, spans@[spans@.len() - 1], i0, j0);
            }
        }
    }
    spans
}

} // verus!
