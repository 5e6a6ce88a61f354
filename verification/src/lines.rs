//! Lines of a text and their widths.
//!
//! A line ends at a line feed, or at the end of the text if characters follow
//! the last line feed. A carriage return directly before the line feed belongs
//! to the line ending; elsewhere it is a character of the line.

use vstd::prelude::*;
use crate::text::lemma_encode_len;

verus! {

/// Number of characters before the first line feed of `s`; the length of `s`
/// if it holds none.
pub open spec fn first_newline(s: Seq<char>) -> nat
    decreases s.len(),
{
    if s.len() == 0 || s[0] == '\n' {
        0
    } else {
        1 + first_newline(s.drop_first())
    }
}

/// `line` without the carriage return at its end, if it has one.
pub open spec fn strip_carriage_return(line: Seq<char>) -> Seq<char> {
    if line.len() > 0 && line.last() == '\r' {
        line.drop_last()
    } else {
        line
    }
}

/// The lines of `s`, in order and without their line endings. The empty text
/// has no line; a text that ends in a line feed has no empty line after it.
pub open spec fn lines(s: Seq<char>) -> Seq<Seq<char>>
    decreases s.len(),
{
    if s.len() == 0 {
        Seq::empty()
    } else {
        let end = first_newline(s);
        if end >= s.len() {
            seq![s]
        } else {
            seq![strip_carriage_return(s.subrange(0, end as int))] + lines(
                s.subrange(end as int + 1, s.len() as int),
            )
        }
    }
}

/// Length of the longest of `ls`; zero if there is none.
pub open spec fn widest(ls: Seq<Seq<char>>) -> nat
    decreases ls.len(),
{
    if ls.len() == 0 {
        0
    } else {
        let before = widest(ls.drop_last());
        if ls.last().len() > before {
            ls.last().len()
        } else {
            before
        }
    }
}

/// Number of lines of `s`.
pub open spec fn line_count(s: Seq<char>) -> nat {
    lines(s).len()
}

/// Number of characters of the longest line of `s`; zero if `s` is empty.
pub open spec fn max_line_width(s: Seq<char>) -> nat {
    widest(lines(s))
}

/// Where the first line feed stands: after `k` characters that are none.
pub proof fn lemma_first_newline_at(s: Seq<char>, k: int)
    requires
        0 <= k <= s.len(),
        forall|j: int| 0 <= j < k ==> s[j] != '\n',
        k == s.len() || s[k] == '\n',
    ensures
        first_newline(s) == k,
    decreases k,
{
    if k > 0 {
        let rest = s.drop_first();
        assert forall|j: int| 0 <= j < k - 1 implies rest[j] != '\n' by {
            assert(rest[j] == s[j + 1]);
        }
        lemma_first_newline_at(rest, k - 1);
    }
}

/// A line added at the end widens the widest line to its own length at most.
pub proof fn lemma_widest_push(ls: Seq<Seq<char>>, line: Seq<char>)
    ensures
        widest(ls.push(line)) == if line.len() > widest(ls) {
            line.len()
        } else {
            widest(ls)
        },
{
    assert(ls.push(line).drop_last() =~= ls);
}

/// Counts the lines of `s` and measures the longest of them, in one pass over
/// the characters.
pub fn measure_lines(s: &str) -> (extent: (usize, usize))
    ensures
        extent.0 == line_count(s@),
        extent.1 == max_line_width(s@),
{
    let total: usize = s.as_bytes().len();
    let mut count: usize = 0;
    let mut best: usize = 0;
    let mut width: usize = 0;
    let mut after_return: bool = false;
    let ghost text = s@;
    let ghost mut start: int = 0;
    let ghost mut done: Seq<Seq<char>> = Seq::empty();
    proof {
        lemma_encode_len(text);
        assert(text.subrange(0, text.len() as int) =~= text);
        assert(done + lines(text) =~= lines(text));
    }
    for c in it: s.chars()
        invariant
            it.seq() == text,
            text.len() <= total,
            0 <= start <= it.index(),
            width == it.index() - start,
            forall|j: int| start <= j < it.index() ==> text[j] != '\n',
            after_return == (it.index() > start && text[it.index() - 1] == '\r'),
            lines(text) == done + lines(text.subrange(start, text.len() as int)),
            count == done.len(),
            count <= start,
            best == widest(done),
            best <= it.index(),
    {
        let ghost at = it.index() as int;
        if c == '\n' {
            let line_width: usize = if after_return {
                width - 1
            } else {
                width
            };
            proof {
                let rest = text.subrange(start, text.len() as int);
                assert forall|j: int| 0 <= j < at - start implies rest[j] != '\n' by {
                    assert(rest[j] == text[start + j]);
                }
                lemma_first_newline_at(rest, at - start);
                let line = strip_carriage_return(rest.subrange(0, at - start));
                assert(rest.subrange(0, at - start) =~= text.subrange(start, at));
                assert(rest.subrange(at - start + 1, rest.len() as int) =~= text.subrange(
                    at + 1,
                    text.len() as int,
                ));
                assert(line.len() == line_width);
                lemma_widest_push(done, line);
                assert(done + (seq![line] + lines(text.subrange(at + 1, text.len() as int)))
                    =~= done.push(line) + lines(text.subrange(at + 1, text.len() as int)));
                done = done.push(line);
                start = at + 1;
            }
            count = count + 1;
            if line_width > best {
                best = line_width;
            }
            width = 0;
            after_return = false;
        } else {
            width = width + 1;
            after_return = c == '\r';
        }
    }
    if width > 0 {
        proof {
            let rest = text.subrange(start, text.len() as int);
            assert forall|j: int| 0 <= j < rest.len() implies rest[j] != '\n' by {
                assert(rest[j] == text[start + j]);
            }
            lemma_first_newline_at(rest, rest.len() as int);
            lemma_widest_push(done, rest);
            assert(done + seq![rest] =~= done.push(rest));
        }
        count = count + 1;
        if width > best {
            best = width;
        }
    } else {
        proof {
            assert(done + Seq::<Seq<char>>::empty() =~= done);
        }
    }
    (count, best)
}

} // verus!
