//! Splitting character sequences into lines and into words.

use vstd::prelude::*;
use crate::text::{char_is_space, is_space, lemma_chars_deep_view, slice_of};

verus! {

broadcast use lemma_chars_deep_view;

/// The number of characters before the first line feed of `s`, or the length of
/// `s` where it holds none.
pub open spec fn line_end(s: Seq<char>) -> int
    decreases s.len(),
{
    if s.len() == 0 || s[0] == '\n' {
        0
    } else {
        1 + line_end(s.drop_first())
    }
}

/// `s` without one carriage return at its end.
pub open spec fn without_return(s: Seq<char>) -> Seq<char> {
    if s.len() > 0 && s.last() == '\r' {
        s.drop_last()
    } else {
        s
    }
}

/// The lines of `s`. A line ends with a line feed, or with a carriage return and
/// a line feed; neither belongs to the line. What follows the last line feed is a
/// line of its own, unless it is empty, and keeps a carriage return at its end.
pub open spec fn lines(s: Seq<char>) -> Seq<Seq<char>>
    decreases s.len(),
{
    let n = line_end(s);
    if s.len() == 0 {
        Seq::empty()
    } else if 0 <= n < s.len() {
        seq![without_return(s.subrange(0, n))] + lines(s.subrange(n + 1, s.len() as int))
    } else {
        seq![s]
    }
}

/// The first line feed of a text is where no line feed stands before it.
pub proof fn lemma_line_end(s: Seq<char>, n: int)
    requires
        0 <= n <= s.len(),
        forall|j: int| 0 <= j < n ==> s[j] != '\n',
        n < s.len() ==> s[n] == '\n',
    ensures
        line_end(s) == n,
    decreases s.len(),
{
    if n > 0 {
        lemma_line_end(s.drop_first(), n - 1);
    }
}

/// The lines of a text.
pub fn split_lines(s: &Vec<char>) -> (r: Vec<Vec<char>>)
    ensures
        r.deep_view() == lines(s@),
{
    let mut out: Vec<Vec<char>> = Vec::new();
    let mut start: usize = 0;
    assert(s@.subrange(0, s.len() as int) == s@);
    assert(out.deep_view() =~= Seq::<Seq<char>>::empty());
    assert(Seq::<Seq<char>>::empty() + lines(s@) == lines(s@));
    while start < s.len()
        invariant
            start <= s.len(),
            out.deep_view() + lines(s@.subrange(start as int, s.len() as int)) == lines(s@),
        decreases s.len() - start,
    {
        let ghost rest = s@.subrange(start as int, s.len() as int);
        let mut end: usize = start;
        while end < s.len() && s[end] != '\n'
            invariant
                start <= end <= s.len(),
                forall|j: int| start <= j < end ==> s@[j] != '\n',
            decreases s.len() - end,
        {
            end += 1;
        }
        proof {
            lemma_line_end(rest, end - start);
        }
        let ghost before = out.deep_view();
        if end == s.len() {
            let line = slice_of(s, start, end);
            out.push(line);
            proof {
                assert(out.deep_view() =~= before.push(rest));
                assert(lines(rest) == seq![rest]);
                assert(before + seq![rest] == before.push(rest));
                assert(s@.subrange(s.len() as int, s.len() as int) == Seq::<char>::empty());
                assert(lines(Seq::<char>::empty()) == Seq::<Seq<char>>::empty());
                assert(before.push(rest) + Seq::<Seq<char>>::empty() == before.push(rest));
            }
            start = end;
        } else {
            let cut: usize = if end > start && s[end - 1] == '\r' {
                end - 1
            } else {
                end
            };
            let line = slice_of(s, start, cut);
            proof {
                let whole = rest.subrange(0, end - start);
                assert(whole == s@.subrange(start as int, end as int));
                if end > start && s@[end - 1] == '\r' {
                    assert(whole.drop_last() == s@.subrange(start as int, end - 1));
                }
                assert(line@ == without_return(whole));
                assert(rest.subrange(end - start + 1, rest.len() as int) == s@.subrange(
                    end + 1,
                    s.len() as int,
                ));
                assert(before + (seq![line@] + lines(s@.subrange(end + 1, s.len() as int)))
                    == before.push(line@) + lines(s@.subrange(end + 1, s.len() as int)));
            }
            out.push(line);
            assert(out.deep_view() =~= before.push(line@));
            start = end + 1;
        }
    }
    proof {
        assert(s@.subrange(s.len() as int, s.len() as int) == Seq::<char>::empty());
        assert(out.deep_view() + Seq::<Seq<char>>::empty() == out.deep_view());
    }
    out
}

/// The number of characters before the first white space of `s`, or the length
/// of `s` where it holds none.
pub open spec fn word_end(s: Seq<char>) -> int
    decreases s.len(),
{
    if s.len() == 0 || is_space(s[0]) {
        0
    } else {
        1 + word_end(s.drop_first())
    }
}

/// The first white space of a text is where no white space stands before it.
pub proof fn lemma_word_end(s: Seq<char>, n: int)
    requires
        0 <= n <= s.len(),
        forall|j: int| 0 <= j < n ==> !is_space(s[j]),
        n < s.len() ==> is_space(s[n]),
    ensures
        word_end(s) == n,
    decreases s.len(),
{
    if n > 0 {
        lemma_word_end(s.drop_first(), n - 1);
    }
}

/// A word ends within the text, and is not empty where the text starts with it.
pub proof fn lemma_word_end_bounds(s: Seq<char>)
    ensures
        0 <= word_end(s) <= s.len(),
        s.len() > 0 && !is_space(s[0]) ==> word_end(s) >= 1,
    decreases s.len(),
{
    if s.len() > 0 && !is_space(s[0]) {
        lemma_word_end_bounds(s.drop_first());
    }
}

/// The words of `s`: the longest runs of characters that are not white space,
/// in order. None is empty.
pub open spec fn words(s: Seq<char>) -> Seq<Seq<char>>
    decreases s.len(),
    via words_decreases
{
    if s.len() == 0 {
        Seq::empty()
    } else if is_space(s[0]) {
        words(s.drop_first())
    } else {
        let n = word_end(s);
        seq![s.subrange(0, n)] + words(s.subrange(n, s.len() as int))
    }
}

#[via_fn]
proof fn words_decreases(s: Seq<char>) {
    lemma_word_end_bounds(s);
}

/// The words of a text.
pub fn split_words(s: &Vec<char>) -> (r: Vec<Vec<char>>)
    ensures
        r.deep_view() == words(s@),
{
    let mut out: Vec<Vec<char>> = Vec::new();
    let mut start: usize = 0;
    assert(s@.subrange(0, s.len() as int) == s@);
    assert(out.deep_view() =~= Seq::<Seq<char>>::empty());
    assert(Seq::<Seq<char>>::empty() + words(s@) == words(s@));
    while start < s.len()
        invariant
            start <= s.len(),
            out.deep_view() + words(s@.subrange(start as int, s.len() as int)) == words(s@),
        decreases s.len() - start,
    {
        let ghost rest = s@.subrange(start as int, s.len() as int);
        if char_is_space(s[start]) {
            assert(rest.drop_first() == s@.subrange(start + 1, s.len() as int));
            start += 1;
        } else {
            let mut end: usize = start;
            while end < s.len() && !char_is_space(s[end])
                invariant
                    start <= end <= s.len(),
                    forall|j: int| start <= j < end ==> !is_space(s@[j]),
                decreases s.len() - end,
            {
                end += 1;
            }
            let word = slice_of(s, start, end);
            let ghost before = out.deep_view();
            proof {
                lemma_word_end(rest, end - start);
                assert(rest.subrange(0, end - start) == s@.subrange(start as int, end as int));
                assert(rest.subrange(end - start, rest.len() as int) == s@.subrange(
                    end as int,
                    s.len() as int,
                ));
                assert(before + (seq![word@] + words(s@.subrange(end as int, s.len() as int)))
                    == before.push(word@) + words(s@.subrange(end as int, s.len() as int)));
            }
            out.push(word);
            assert(out.deep_view() =~= before.push(word@));
            start = end;
        }
    }
    proof {
        assert(s@.subrange(s.len() as int, s.len() as int) == Seq::<char>::empty());
        assert(out.deep_view() + Seq::<Seq<char>>::empty() == out.deep_view());
    }
    out
}

} // verus!
