//! Character-level text helpers: the characters of a string, equality and
//! prefix tests on character slices, and the model of how a listing is cut
//! into lines.

use vstd::prelude::*;
use vstd::slice::{slice_subrange, slice_to_vec};

verus! {

/// Offset of the first line feed in `s`, or `s.len()` when `s` holds none.
pub open spec fn first_line_feed(s: Seq<char>) -> int
    decreases s.len(),
{
    if s.len() == 0 || s[0] == '\n' {
        0
    } else {
        1 + first_line_feed(s.drop_first())
    }
}

/// The content of a terminated line: one carriage return directly before the
/// line feed belongs to the terminator, not to the line.
pub open spec fn without_trailing_cr(line: Seq<char>) -> Seq<char> {
    if line.len() > 0 && line.last() == '\r' {
        line.drop_last()
    } else {
        line
    }
}

/// The lines of `s`, in order.
///
/// A line ends at a line feed, or at a carriage return directly followed by
/// one; the terminator is not part of the line. The last line needs no
/// terminator, and text that ends with a terminator has no empty line after
/// it. A carriage return at the end of an unterminated last line stays.
pub open spec fn lines(s: Seq<char>) -> Seq<Seq<char>>
    decreases s.len(),
{
    let n = first_line_feed(s);
    if s.len() == 0 {
        Seq::empty()
    } else if 0 <= n < s.len() {
        seq![without_trailing_cr(s.take(n))] + lines(s.skip(n + 1))
    } else {
        seq![s]
    }
}

/// `first_line_feed(s)` is in range, nothing before it is a line feed, and
/// it is a line feed unless it is the end of `s`.
pub proof fn lemma_first_line_feed(s: Seq<char>)
    ensures
        0 <= first_line_feed(s) <= s.len(),
        forall|k: int| 0 <= k < first_line_feed(s) ==> s[k] != '\n',
        first_line_feed(s) < s.len() ==> s[first_line_feed(s)] == '\n',
    decreases s.len(),
{
    if s.len() == 0 || s[0] == '\n' {
    } else {
        let rest = s.drop_first();
        lemma_first_line_feed(rest);
        assert forall|k: int| 0 <= k < first_line_feed(s) implies s[k] != '\n' by {
            if k > 0 {
                assert(s[k] == rest[k - 1]);
            }
        }
    }
}

/// An offset with the properties of `lemma_first_line_feed` is the first
/// line feed.
pub proof fn lemma_first_line_feed_is(s: Seq<char>, n: int)
    requires
        0 <= n <= s.len(),
        forall|k: int| 0 <= k < n ==> s[k] != '\n',
        n < s.len() ==> s[n] == '\n',
    ensures
        first_line_feed(s) == n,
    decreases s.len(),
{
    if s.len() == 0 || s[0] == '\n' {
    } else {
        let rest = s.drop_first();
        assert(forall|k: int| 0 <= k < n - 1 ==> rest[k] != '\n');
        lemma_first_line_feed_is(rest, n - 1);
    }
}

/// No line holds a line feed.
pub proof fn lemma_lines_hold_no_line_feed(s: Seq<char>)
    ensures
        forall|i: int| 0 <= i < lines(s).len() ==> !(#[trigger] lines(s)[i]).contains('\n'),
    decreases s.len(),
{
    let n = first_line_feed(s);
    lemma_first_line_feed(s);
    if 0 < s.len() && n < s.len() {
        let head = without_trailing_cr(s.take(n));
        let tail = lines(s.skip(n + 1));
        lemma_lines_hold_no_line_feed(s.skip(n + 1));
        assert forall|i: int| 0 <= i < lines(s).len() implies !(#[trigger] lines(s)[i]).contains(
            '\n',
        ) by {
            if i == 0 {
                assert(forall|k: int| 0 <= k < head.len() ==> head[k] == s[k]);
            } else {
                assert(lines(s)[i] == tail[i - 1]);
            }
        }
    }
}

/// Text without a line feed is one line, itself, unless it is empty.
pub proof fn lemma_lines_of_one_line(s: Seq<char>)
    requires
        s.len() > 0,
        !s.contains('\n'),
    ensures
        lines(s) == seq![s],
{
    assert(forall|k: int| 0 <= k < s.len() ==> s[k] != '\n');
    lemma_first_line_feed_is(s, s.len() as int);
}

/// A first line that ends with a line feed is followed by the lines of the
/// rest.
pub proof fn lemma_lines_after_line_feed(first: Seq<char>, rest: Seq<char>)
    requires
        !first.contains('\n'),
    ensures
        lines(first + seq!['\n'] + rest) == seq![without_trailing_cr(first)] + lines(rest),
{
    let s = first + seq!['\n'] + rest;
    let n = first.len() as int;
    assert(forall|k: int| 0 <= k < n ==> s[k] == first[k]);
    lemma_first_line_feed_is(s, n);
    assert(s.take(n) =~= first);
    assert(s.skip(n + 1) =~= rest);
}

/// `start` and `end` bound a line of `s`: the line begins at the beginning
/// of `s` or directly after a line feed, holds no line feed, and ends
/// directly before a line feed or, not being empty, at the end of `s`.
pub open spec fn is_line_span(s: Seq<char>, start: int, end: int) -> bool {
    &&& 0 <= start <= end <= s.len()
    &&& start == 0 || s[start - 1] == '\n'
    &&& forall|k: int| start <= k < end ==> s[k] != '\n'
    &&& if end < s.len() {
        s[end] == '\n'
    } else {
        start < end
    }
}

/// The line of `s` between `start` and `end`: where a line feed follows, a
/// carriage return directly before it is left out.
pub open spec fn span_text(s: Seq<char>, start: int, end: int) -> Seq<char> {
    if end < s.len() {
        without_trailing_cr(s.subrange(start, end))
    } else {
        s.subrange(start, end)
    }
}

/// The lines of `s` are the texts of its line spans, and nothing else: a
/// token is found among them only as one whole line.
pub proof fn lemma_lines_are_the_line_spans(s: Seq<char>, line: Seq<char>)
    ensures
        lines(s).contains(line) <==> exists|start: int, end: int|
            is_line_span(s, start, end) && span_text(s, start, end) == line,
    decreases s.len(),
{
    let n = first_line_feed(s);
    lemma_first_line_feed(s);
    if s.len() == 0 {
    } else if n < s.len() {
        let rest = s.skip(n + 1);
        lemma_lines_are_the_line_spans(rest, line);
        if lines(s).contains(line) {
            let i = choose|i: int| 0 <= i < lines(s).len() && lines(s)[i] == line;
            if i == 0 {
                assert(span_text(s, 0, n) == line);
            } else {
                let (a, b) = choose|a: int, b: int|
                    is_line_span(rest, a, b) && span_text(rest, a, b) == line;
                assert forall|k: int| a + n + 1 <= k < b + n + 1 implies s[k] != '\n' by {
                    assert(s[k] == rest[k - n - 1]);
                }
                assert(span_text(s, a + n + 1, b + n + 1) == line);
            }
        }
        if exists|start: int, end: int|
            is_line_span(s, start, end) && span_text(s, start, end) == line {
            let (start, end) = choose|start: int, end: int|
                is_line_span(s, start, end) && span_text(s, start, end) == line;
            if start == 0 {
                lemma_first_line_feed_is(s, end);
                assert(lines(s)[0] == line);
            } else {
                let a = start - n - 1;
                let b = end - n - 1;
                assert(rest.subrange(a, b) =~= s.subrange(start, end));
                assert(span_text(rest, a, b) == line);
                let i = choose|i: int| 0 <= i < lines(rest).len() && lines(rest)[i] == line;
                assert(lines(s)[i + 1] == line);
            }
        }
    } else {
        if lines(s).contains(line) {
            assert(span_text(s, 0, s.len() as int) == line);
        }
        if exists|start: int, end: int|
            is_line_span(s, start, end) && span_text(s, start, end) == line {
            let (start, end) = choose|start: int, end: int|
                is_line_span(s, start, end) && span_text(s, start, end) == line;
            assert(lines(s)[0] == line);
        }
    }
}

/// The listing that holds each of `entries` on a line of its own, each line
/// ended by a line feed.
pub open spec fn listing_of(entries: Seq<Seq<char>>) -> Seq<char>
    decreases entries.len(),
{
    if entries.len() == 0 {
        Seq::empty()
    } else {
        entries[0] + seq!['\n'] + listing_of(entries.drop_first())
    }
}

/// Whether `entry` can stand on a line of its own and be read back: it
/// holds no line feed and does not end with a carriage return.
pub open spec fn fits_on_a_line(entry: Seq<char>) -> bool {
    !entry.contains('\n') && without_trailing_cr(entry) == entry
}

/// Entries written one on each line are read back as they were.
pub proof fn lemma_lines_of_listing(entries: Seq<Seq<char>>)
    requires
        forall|i: int| 0 <= i < entries.len() ==> fits_on_a_line(#[trigger] entries[i]),
    ensures
        lines(listing_of(entries)) == entries,
    decreases entries.len(),
{
    if entries.len() > 0 {
        let rest = entries.drop_first();
        assert(forall|i: int| 0 <= i < rest.len() ==> fits_on_a_line(#[trigger] rest[i]));
        lemma_lines_of_listing(rest);
        lemma_lines_after_line_feed(entries[0], listing_of(rest));
    }
}

/// A token that holds a line feed is on no line of any listing.
pub proof fn lemma_no_line_has_a_line_feed(listing: Seq<char>, token: Seq<char>)
    requires
        token.contains('\n'),
    ensures
        !lines(listing).contains(token),
{
    lemma_lines_hold_no_line_feed(listing);
}

/// What a vector of character vectors holds: the view of each, in order.
pub open spec fn views_of(v: Seq<Vec<char>>) -> Seq<Seq<char>> {
    v.map_values(|line: Vec<char>| line@)
}

/// The characters of a string, in order.
pub fn chars_of(s: &str) -> (v: Vec<char>)
    ensures
        v@ == s@,
{
    let mut v: Vec<char> = Vec::new();
    for c in it: s.chars()
        invariant
            v@ == it.seq().take(it.index() as int),
            it.seq() == s@,
    {
        v.push(c);
    }
    v
}

/// Whether two character slices hold the same characters.
pub fn chars_eq(a: &[char], b: &[char]) -> (same: bool)
    ensures
        same == (a@ == b@),
{
    if a.len() != b.len() {
        return false;
    }
    let mut i: usize = 0;
    while i < a.len()
        invariant
            a@.len() == b@.len(),
            i <= a@.len(),
            forall|k: int| 0 <= k < i ==> a@[k] == b@[k],
        decreases a@.len() - i,
    {
        if a[i] != b[i] {
            return false;
        }
        i += 1;
    }
    assert(a@ =~= b@);
    true
}

/// Whether `text` begins with `prefix`.
pub fn chars_start_with(text: &[char], prefix: &[char]) -> (starts: bool)
    ensures
        starts == prefix@.is_prefix_of(text@),
{
    if prefix.len() > text.len() {
        return false;
    }
    chars_eq(slice_subrange(text, 0, prefix.len()), prefix)
}

/// Index of the first line feed of `chars` at or after `from`, or the length
/// of `chars` when there is none.
fn find_line_feed(chars: &[char], from: usize) -> (at: usize)
    requires
        from <= chars@.len(),
    ensures
        from <= at <= chars@.len(),
        at - from == first_line_feed(chars@.skip(from as int)),
{
    let mut at: usize = from;
    while at < chars.len() && chars[at] != '\n'
        invariant
            from <= at <= chars@.len(),
            forall|k: int| from <= k < at ==> chars@[k] != '\n',
        decreases chars@.len() - at,
    {
        at += 1;
    }
    proof {
        lemma_first_line_feed_is(chars@.skip(from as int), at - from);
    }
    at
}

/// The lines of `chars`, each as a vector of its own.
pub fn split_lines(chars: &[char]) -> (out: Vec<Vec<char>>)
    ensures
        views_of(out@) == lines(chars@),
{
    let mut out: Vec<Vec<char>> = Vec::new();
    let mut start: usize = 0;
    assert(chars@.skip(0) =~= chars@);
    while start < chars.len()
        invariant
            start <= chars@.len(),
            lines(chars@) == views_of(out@) + lines(chars@.skip(start as int)),
        decreases chars@.len() - start,
    {
        let ghost rest = chars@.skip(start as int);
        let ghost before = views_of(out@);
        let end = find_line_feed(chars, start);
        let terminated = end < chars.len();
        let stop = if terminated && end > start && chars[end - 1] == '\r' {
            end - 1
        } else {
            end
        };
        let line = slice_to_vec(slice_subrange(chars, start, stop));
        proof {
            let n = end - start;
            if terminated {
                assert(rest.skip(n + 1) =~= chars@.skip(end + 1));
                assert(line@ =~= without_trailing_cr(rest.take(n)));
            }
        }
        out.push(line);
        start = if terminated {
            end + 1
        } else {
            end
        };
        proof {
            assert(before + (seq![line@] + lines(chars@.skip(start as int))) =~= before.push(
                line@,
            ) + lines(chars@.skip(start as int)));
        }
    }
    out
}

} // verus!
