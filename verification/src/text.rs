//! Map texts: how a text falls into lines of characters.
//!
//! A line ends at a line feed, which may be preceded by a carriage return;
//! neither belongs to the line. The last line needs no line feed, so a text
//! that ends in one has no empty line after it.

use vstd::prelude::*;

verus! {

/// The views of a vector of rows, row by row.
pub open spec fn row_views<T>(rows: Seq<Vec<T>>) -> Seq<Seq<T>> {
    Seq::new(rows.len(), |y: int| rows[y]@)
}

/// How many characters stand before the first line feed of `text`: all of
/// them if it holds none.
pub open spec fn first_line_len(text: Seq<char>) -> nat
    decreases text.len(),
{
    if text.len() == 0 || text[0] == '\n' {
        0
    } else {
        1 + first_line_len(text.skip(1))
    }
}

/// A line without the carriage return that may end it.
pub open spec fn without_cr(line: Seq<char>) -> Seq<char> {
    if line.len() > 0 && line.last() == '\r' {
        line.drop_last()
    } else {
        line
    }
}

/// The lines of a text, from the first to the last.
pub open spec fn lines(text: Seq<char>) -> Seq<Seq<char>>
    decreases text.len(),
{
    let n = first_line_len(text) as int;
    if text.len() == 0 {
        Seq::empty()
    } else if n >= text.len() {
        seq![text]
    } else {
        seq![without_cr(text.take(n))] + lines(text.skip(n + 1))
    }
}

/// `first_line_len` is the place of the first line feed: it is `k` when no
/// line feed stands before `k` and one stands at `k`, or the text ends there.
pub proof fn lemma_first_line_len(text: Seq<char>, k: int)
    requires
        0 <= k <= text.len(),
        forall|i: int| 0 <= i < k ==> text[i] != '\n',
        k == text.len() || text[k] == '\n',
    ensures
        first_line_len(text) == k,
    decreases k,
{
    if k > 0 {
        lemma_first_line_len(text.skip(1), k - 1);
    }
}

/// What `first_line_len` finds: a place in the text before which no line
/// feed stands, and at which one stands unless the text ends there.
pub proof fn lemma_first_line(text: Seq<char>)
    ensures
        first_line_len(text) <= text.len(),
        forall|i: int| 0 <= i < first_line_len(text) ==> text[i] != '\n',
        first_line_len(text) < text.len() ==> text[first_line_len(text) as int] == '\n',
    decreases text.len(),
{
    if text.len() > 0 && text[0] != '\n' {
        let rest = text.skip(1);
        lemma_first_line(rest);
        assert forall|i: int| 0 <= i < first_line_len(text) implies text[i] != '\n' by {
            if i > 0 {
                assert(rest[i - 1] == text[i]);
            }
        }
    }
}

/// No line holds a line feed: each line feed of a text ends a line.
pub proof fn lemma_lines_hold_no_line_feed(text: Seq<char>, i: int, j: int)
    requires
        0 <= i < lines(text).len(),
        0 <= j < lines(text)[i].len(),
    ensures
        lines(text)[i][j] != '\n',
    decreases text.len(),
{
    lemma_first_line(text);
    let n = first_line_len(text) as int;
    if n < text.len() && i > 0 {
        lemma_lines_hold_no_line_feed(text.skip(n + 1), i - 1, j);
    }
}

/// The characters of a text, in order.
pub(crate) fn characters(text: &str) -> (chars: Vec<char>)
    ensures
        chars@ == text@,
{
    let mut chars: Vec<char> = Vec::new();
    for c in it: text.chars()
        invariant
            it.seq() == text@,
            chars@ == it.seq().take(it.index()),
    {
        chars.push(c);
    }
    chars
}

/// Splits a text into its lines.
pub(crate) fn split_lines(chars: &Vec<char>) -> (rows: Vec<Vec<char>>)
    ensures
        row_views(rows@) == lines(chars@),
{
    let n: usize = chars.len();
    let mut rows: Vec<Vec<char>> = Vec::new();
    let mut start: usize = 0;
    assert(chars@.skip(0) == chars@);
    while start < n
        invariant
            n == chars.len(),
            start <= n,
            lines(chars@) == row_views(rows@) + lines(chars@.skip(start as int)),
        decreases n - start,
    {
        let mut row: Vec<char> = Vec::new();
        let mut end: usize = start;
        while end < n && chars[end] != '\n'
            invariant
                n == chars.len(),
                start <= end <= n,
                row@ == chars@.subrange(start as int, end as int),
                forall|i: int| start <= i < end ==> chars[i] != '\n',
            decreases n - end,
        {
            row.push(chars[end]);
            end += 1;
        }
        let ghost rest = chars@.skip(start as int);
        proof {
            lemma_first_line_len(rest, end - start);
            assert(rest.take(end - start) == row@);
        }
        if end < n {
            if row.len() > 0 && row[row.len() - 1] == '\r' {
                row.pop();
            }
            assert(rest.skip(end - start + 1) == chars@.skip(end + 1));
            start = end + 1;
        } else {
            start = n;
        }
        rows.push(row);
    }
    rows
}

} // verus!
