//! Upper and lower case of text, as Unicode defines them, and the order of
//! strings.

use vstd::prelude::*;

verus! {

/// The upper-case form that `str::to_uppercase` gives to a text.
pub uninterp spec fn uppercase(s: Seq<char>) -> Seq<char>;

/// The lower-case form that `str::to_lowercase` gives to a text.
pub uninterp spec fn lowercase(s: Seq<char>) -> Seq<char>;

/// `str::to_uppercase`: the text with each character replaced by its upper-case
/// form under Unicode's rules, which may be longer than one character.
#[verifier::external_body]
pub(crate) fn to_uppercase(s: &str) -> (r: String)
    ensures
        r@ == uppercase(s@),
{
    s.to_uppercase()
}

/// `str::to_lowercase`: the text with each character replaced by its lower-case
/// form under Unicode's rules.
#[verifier::external_body]
pub(crate) fn to_lowercase(s: &str) -> (r: String)
    ensures
        r@ == lowercase(s@),
{
    s.to_lowercase()
}

/// The order of strings: by the first character in which they differ, a string
/// coming before every longer one that starts with it. Characters are ordered
/// by their code points.
pub open spec fn text_less(a: Seq<char>, b: Seq<char>) -> bool
    decreases a.len(),
{
    if b.len() == 0 {
        false
    } else if a.len() == 0 {
        true
    } else if a[0] != b[0] {
        a[0] < b[0]
    } else {
        text_less(a.drop_first(), b.drop_first())
    }
}

/// Whether one sequence of characters comes before another in the order of
/// strings.
pub fn chars_less(a: &Vec<char>, b: &Vec<char>) -> (r: bool)
    ensures
        r == text_less(a@, b@),
{
    let mut i: usize = 0;
    assert(a@.subrange(0, a.len() as int) == a@);
    assert(b@.subrange(0, b.len() as int) == b@);
    while i < a.len() && i < b.len()
        invariant
            i <= a.len(),
            i <= b.len(),
            text_less(a@, b@) == text_less(
                a@.subrange(i as int, a.len() as int),
                b@.subrange(i as int, b.len() as int),
            ),
        decreases a.len() - i,
    {
        let x = a[i];
        let y = b[i];
        if x != y {
            return x < y;
        }
        assert(a@.subrange(i as int, a.len() as int).drop_first() == a@.subrange(
            i + 1,
            a.len() as int,
        ));
        assert(b@.subrange(i as int, b.len() as int).drop_first() == b@.subrange(
            i + 1,
            b.len() as int,
        ));
        i += 1;
    }
    i < b.len()
}

/// No text comes before itself.
pub proof fn lemma_text_less_irreflexive(a: Seq<char>)
    ensures
        !text_less(a, a),
    decreases a.len(),
{
    if a.len() > 0 {
        lemma_text_less_irreflexive(a.drop_first());
    }
}

/// Of two texts, one at most comes before the other.
pub proof fn lemma_text_less_asymmetric(a: Seq<char>, b: Seq<char>)
    requires
        text_less(a, b),
    ensures
        !text_less(b, a),
    decreases a.len(),
{
    if a.len() > 0 && b.len() > 0 && a[0] == b[0] {
        lemma_text_less_asymmetric(a.drop_first(), b.drop_first());
    }
}

/// Where `a` is not before `b` and `b` not before `c`, `a` is not before `c`.
pub proof fn lemma_text_less_chain(a: Seq<char>, b: Seq<char>, c: Seq<char>)
    requires
        !text_less(a, b),
        !text_less(b, c),
    ensures
        !text_less(a, c),
    decreases a.len(),
{
    if c.len() == 0 {
    } else if b.len() == 0 {
        assert(text_less(b, c));
    } else if a.len() == 0 {
        assert(text_less(a, b));
    } else if a[0] == b[0] && b[0] == c[0] {
        lemma_text_less_chain(a.drop_first(), b.drop_first(), c.drop_first());
    } else if a[0] == b[0] {
        assert(text_less(a, c) == (a[0] < c[0]));
    } else if b[0] == c[0] {
        assert(text_less(a, c) == (a[0] < c[0]));
    } else {
        assert(a[0] > b[0]);
        assert(b[0] > c[0]);
    }
}

} // verus!
