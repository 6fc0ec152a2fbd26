//! Rewriting character sequences: replacing every occurrence of a pattern,
//! and trimming white space or a repeated suffix.

use vstd::prelude::*;
use crate::text::{append_chars, char_is_space, contains, ends_with, has_at, is_space, occurs_at, slice_of, starts_with};

verus! {

/// `to` put before every character of `s` and behind the last one.
pub open spec fn interleaved(s: Seq<char>, to: Seq<char>) -> Seq<char>
    decreases s.len(),
{
    if s.len() == 0 {
        to
    } else {
        to + seq![s[0]] + interleaved(s.drop_first(), to)
    }
}

/// `s` with every occurrence of `from` replaced by `to`, reading left to right;
/// an occurrence that overlaps one already replaced is not seen. The empty
/// pattern occurs before every character and at the end.
pub open spec fn replaced(s: Seq<char>, from: Seq<char>, to: Seq<char>) -> Seq<char>
    decreases s.len(),
{
    if from.len() == 0 {
        interleaved(s, to)
    } else if s.len() < from.len() {
        s
    } else if starts_with(s, from) {
        to + replaced(s.subrange(from.len() as int, s.len() as int), from, to)
    } else {
        seq![s[0]] + replaced(s.subrange(1, s.len() as int), from, to)
    }
}

/// Puts `to` before every character of `s` and behind the last one.
pub fn interleave(s: &Vec<char>, to: &Vec<char>) -> (r: Vec<char>)
    ensures
        r@ == interleaved(s@, to@),
{
    let mut out: Vec<char> = Vec::new();
    let mut i: usize = 0;
    assert(s@.subrange(0, s.len() as int) == s@);
    assert(out@ + interleaved(s@, to@) == interleaved(s@, to@));
    while i < s.len()
        invariant
            i <= s.len(),
            out@ + interleaved(s@.subrange(i as int, s.len() as int), to@) == interleaved(s@, to@),
        decreases s.len() - i,
    {
        proof {
            let rest = s@.subrange(i as int, s.len() as int);
            let after = s@.subrange(i + 1, s.len() as int);
            assert(rest.drop_first() == after);
            assert(out@ + (to@ + seq![rest[0]] + interleaved(after, to@)) == (out@ + to@).push(
                s@[i as int],
            ) + interleaved(after, to@));
        }
        append_chars(&mut out, to);
        out.push(s[i]);
        i += 1;
    }
    assert(s@.subrange(s.len() as int, s.len() as int) == Seq::<char>::empty());
    append_chars(&mut out, to);
    out
}

/// Replaces every occurrence of a pattern.
pub fn replace_all(s: &Vec<char>, from: &Vec<char>, to: &Vec<char>) -> (r: Vec<char>)
    ensures
        r@ == replaced(s@, from@, to@),
{
    if from.len() == 0 {
        return interleave(s, to);
    }
    let mut out: Vec<char> = Vec::new();
    let mut i: usize = 0;
    assert(s@.subrange(0, s.len() as int) == s@);
    assert(out@ + replaced(s@, from@, to@) == replaced(s@, from@, to@));
    while i < s.len()
        invariant
            i <= s.len(),
            from@.len() > 0,
            out@ + replaced(s@.subrange(i as int, s.len() as int), from@, to@) == replaced(
                s@,
                from@,
                to@,
            ),
        decreases s.len() - i,
    {
        let ghost rest = s@.subrange(i as int, s.len() as int);
        if has_at(s, from, i) {
            proof {
                assert(rest.subrange(0, from@.len() as int) == s@.subrange(
                    i as int,
                    i + from@.len(),
                ));
                assert(rest.subrange(from@.len() as int, rest.len() as int) == s@.subrange(
                    i + from@.len(),
                    s.len() as int,
                ));
                assert(out@ + (to@ + replaced(
                    s@.subrange(i + from@.len(), s.len() as int),
                    from@,
                    to@,
                )) == (out@ + to@) + replaced(
                    s@.subrange(i + from@.len(), s.len() as int),
                    from@,
                    to@,
                ));
            }
            append_chars(&mut out, to);
            i += from.len();
        } else {
            proof {
                if rest.len() >= from@.len() {
                    assert(rest.subrange(0, from@.len() as int) == s@.subrange(
                        i as int,
                        i + from@.len(),
                    ));
                    assert(rest.subrange(1, rest.len() as int) == s@.subrange(
                        i + 1,
                        s.len() as int,
                    ));
                    assert(out@ + (seq![rest[0]] + replaced(
                        s@.subrange(i + 1, s.len() as int),
                        from@,
                        to@,
                    )) == out@.push(s@[i as int]) + replaced(
                        s@.subrange(i + 1, s.len() as int),
                        from@,
                        to@,
                    ));
                } else {
                    lemma_replaced_short(s@.subrange(i + 1, s.len() as int), from@, to@);
                    assert(rest == seq![rest[0]] + s@.subrange(i + 1, s.len() as int));
                    assert(out@ + (seq![rest[0]] + s@.subrange(i + 1, s.len() as int))
                        == out@.push(s@[i as int]) + s@.subrange(i + 1, s.len() as int));
                }
            }
            out.push(s[i]);
            i += 1;
        }
    }
    assert(s@.subrange(s.len() as int, s.len() as int) == Seq::<char>::empty());
    assert(out@ + Seq::<char>::empty() == out@);
    out
}

/// A sequence shorter than the pattern holds no occurrence and stays as it is.
pub proof fn lemma_replaced_short(s: Seq<char>, from: Seq<char>, to: Seq<char>)
    requires
        s.len() < from.len(),
        from.len() > 0,
    ensures
        replaced(s, from, to) == s,
{
}

/// Where the pattern does not occur, replacing changes nothing.
pub proof fn lemma_replaced_absent(s: Seq<char>, from: Seq<char>, to: Seq<char>)
    requires
        from.len() > 0,
        !contains(s, from),
    ensures
        replaced(s, from, to) == s,
    decreases s.len(),
{
    if s.len() >= from.len() {
        assert(!occurs_at(s, from, 0));
        let rest = s.subrange(1, s.len() as int);
        assert forall|i: int| !occurs_at(rest, from, i) by {
            if occurs_at(rest, from, i) {
                assert(rest.subrange(i, i + from.len()) == s.subrange(i + 1, i + 1 + from.len()));
                assert(occurs_at(s, from, i + 1));
            }
        }
        lemma_replaced_absent(rest, from, to);
        assert(seq![s[0]] + rest == s);
    }
}

/// `s` without the white space at its start.
pub open spec fn trimmed_start(s: Seq<char>) -> Seq<char>
    decreases s.len(),
{
    if s.len() > 0 && is_space(s[0]) {
        trimmed_start(s.drop_first())
    } else {
        s
    }
}

/// `s` without the white space at its end.
pub open spec fn trimmed_end(s: Seq<char>) -> Seq<char>
    decreases s.len(),
{
    if s.len() > 0 && is_space(s.last()) {
        trimmed_end(s.drop_last())
    } else {
        s
    }
}

/// `s` without the white space at either end.
pub open spec fn trimmed(s: Seq<char>) -> Seq<char> {
    trimmed_end(trimmed_start(s))
}

/// The number of white-space characters at the start of `s`.
pub fn leading_space(s: &Vec<char>) -> (n: usize)
    ensures
        n <= s.len(),
        trimmed_start(s@) == s@.subrange(n as int, s.len() as int),
        forall|j: int| 0 <= j < n ==> is_space(s@[j]),
        n < s.len() ==> !is_space(s@[n as int]),
{
    let mut n: usize = 0;
    assert(s@.subrange(0, s.len() as int) == s@);
    while n < s.len() && char_is_space(s[n])
        invariant
            n <= s.len(),
            trimmed_start(s@) == trimmed_start(s@.subrange(n as int, s.len() as int)),
            forall|j: int| 0 <= j < n ==> is_space(s@[j]),
        decreases s.len() - n,
    {
        assert(s@.subrange(n as int, s.len() as int).drop_first() == s@.subrange(
            n + 1,
            s.len() as int,
        ));
        n += 1;
    }
    n
}

/// The length of `s` up to `bound` once the white space before `bound` is cut.
pub fn trailing_cut(s: &Vec<char>, from: usize) -> (n: usize)
    requires
        from <= s.len(),
    ensures
        from <= n <= s.len(),
        trimmed_end(s@.subrange(from as int, s.len() as int)) == s@.subrange(
            from as int,
            n as int,
        ),
{
    let mut n: usize = s.len();
    while n > from && char_is_space(s[n - 1])
        invariant
            from <= n <= s.len(),
            trimmed_end(s@.subrange(from as int, s.len() as int)) == trimmed_end(
                s@.subrange(from as int, n as int),
            ),
        decreases n,
    {
        assert(s@.subrange(from as int, n as int).drop_last() == s@.subrange(
            from as int,
            n - 1,
        ));
        n -= 1;
    }
    n
}

/// Cuts the white space at either end.
pub fn trim(s: &Vec<char>) -> (r: Vec<char>)
    ensures
        r@ == trimmed(s@),
{
    let a = leading_space(s);
    let b = trailing_cut(s, a);
    slice_of(s, a, b)
}

/// Cuts the white space at the end.
pub fn trim_end(s: &Vec<char>) -> (r: Vec<char>)
    ensures
        r@ == trimmed_end(s@),
{
    let b = trailing_cut(s, 0);
    assert(s@.subrange(0, s.len() as int) == s@);
    slice_of(s, 0, b)
}

/// `s` with the suffix `pat` cut off as often as it stands at the end; the
/// empty suffix is not cut.
pub open spec fn without_trailing(s: Seq<char>, pat: Seq<char>) -> Seq<char>
    decreases s.len(),
{
    if pat.len() > 0 && ends_with(s, pat) {
        without_trailing(s.subrange(0, s.len() - pat.len()), pat)
    } else {
        s
    }
}

/// Cuts a suffix as often as it stands at the end.
pub fn trim_end_matches(s: &Vec<char>, pat: &Vec<char>) -> (r: Vec<char>)
    ensures
        r@ == without_trailing(s@, pat@),
{
    if pat.len() == 0 {
        assert(s@.subrange(0, s.len() as int) == s@);
        return slice_of(s, 0, s.len());
    }
    let mut n: usize = s.len();
    assert(s@.subrange(0, s.len() as int) == s@);
    while n >= pat.len() && has_at(s, pat, n - pat.len())
        invariant
            n <= s.len(),
            pat@.len() > 0,
            without_trailing(s@, pat@) == without_trailing(s@.subrange(0, n as int), pat@),
        decreases n,
    {
        proof {
            let cur = s@.subrange(0, n as int);
            assert(cur.subrange(n - pat@.len(), n as int) == s@.subrange(
                n - pat@.len(),
                n as int,
            ));
            assert(cur.subrange(0, cur.len() - pat@.len()) == s@.subrange(0, n - pat@.len()));
        }
        n -= pat.len();
    }
    proof {
        assert(s@.subrange(0, s.len() as int) == s@);
        let cur = s@.subrange(0, n as int);
        if n >= pat@.len() {
            assert(cur.subrange(n - pat@.len(), n as int) == s@.subrange(
                n - pat@.len(),
                n as int,
            ));
        }
    }
    slice_of(s, 0, n)
}

/// What follows the prefix `pat` in `s`, where `s` starts with it.
pub open spec fn after_prefix(s: Seq<char>, pat: Seq<char>) -> Option<Seq<char>> {
    if starts_with(s, pat) {
        Some(s.subrange(pat.len() as int, s.len() as int))
    } else {
        None
    }
}

/// What follows a prefix, where the sequence starts with it.
pub fn strip_prefix(s: &Vec<char>, pat: &Vec<char>) -> (r: Option<Vec<char>>)
    ensures
        r.is_some() == after_prefix(s@, pat@).is_some(),
        r.is_some() ==> r.unwrap()@ == after_prefix(s@, pat@).unwrap(),
{
    if has_at(s, pat, 0) {
        Some(slice_of(s, pat.len(), s.len()))
    } else {
        None
    }
}

} // verus!
