//! Stable sorting: what it means, and a sort of vectors that meets it.
//!
//! The order is given by a relation `before(a, b)`: `a` has to stand before `b`.
//! Elements of which neither has to stand before the other keep the order in
//! which they came.

use vstd::prelude::*;

verus! {

/// `s`, taken as sorted, with `x` put behind the last element that `x` does not
/// have to stand before.
pub open spec fn insert_stable<T>(s: Seq<T>, x: T, before: spec_fn(T, T) -> bool) -> Seq<T>
    decreases s.len(),
{
    if s.len() > 0 && before(x, s.last()) {
        insert_stable(s.drop_last(), x, before).push(s.last())
    } else {
        s.push(x)
    }
}

/// The stable sort of `s`: its elements put in one after the other, each behind
/// the last one that it does not have to stand before.
pub open spec fn stable_sort<T>(s: Seq<T>, before: spec_fn(T, T) -> bool) -> Seq<T>
    decreases s.len(),
{
    if s.len() == 0 {
        s
    } else {
        insert_stable(stable_sort(s.drop_last(), before), s.last(), before)
    }
}

/// No element of `s` has to stand before an earlier one.
pub open spec fn is_ordered<T>(s: Seq<T>, before: spec_fn(T, T) -> bool) -> bool {
    forall|i: int, j: int| 0 <= i < j < s.len() ==> !before(s[j], s[i])
}

/// `before` never holds both ways, and where it holds neither from `a` to `b`
/// nor from `b` to `c`, it does not hold from `a` to `c`.
pub open spec fn is_strict_weak_order<T>(before: spec_fn(T, T) -> bool) -> bool {
    &&& forall|a: T, b: T| #[trigger] before(a, b) ==> !before(b, a)
    &&& forall|a: T, b: T, c: T|
        !#[trigger] before(a, b) && !#[trigger] before(b, c) ==> !before(a, c)
}

/// Where `x` has to stand before every element of `s` from position `j` on, and
/// not before the one in front of `j`, it is put in at `j`.
pub proof fn lemma_insert_at<T>(s: Seq<T>, x: T, before: spec_fn(T, T) -> bool, j: int)
    requires
        0 <= j <= s.len(),
        forall|k: int| j <= k < s.len() ==> before(x, s[k]),
        j > 0 ==> !before(x, s[j - 1]),
    ensures
        insert_stable(s, x, before) == s.subrange(0, j).push(x) + s.subrange(j, s.len() as int),
    decreases s.len() - j,
{
    if j == s.len() {
        assert(s.subrange(0, j) == s);
        assert(s.push(x) + s.subrange(j, s.len() as int) == s.push(x));
    } else {
        let t = s.drop_last();
        lemma_insert_at(t, x, before, j);
        assert(t.subrange(0, j) == s.subrange(0, j));
        assert((t.subrange(0, j).push(x) + t.subrange(j, t.len() as int)).push(s.last())
            == s.subrange(0, j).push(x) + s.subrange(j, s.len() as int));
    }
}

/// Putting an element in makes the sequence longer by one.
pub proof fn lemma_insert_len<T>(s: Seq<T>, x: T, before: spec_fn(T, T) -> bool)
    ensures
        insert_stable(s, x, before).len() == s.len() + 1,
    decreases s.len(),
{
    if s.len() > 0 && before(x, s.last()) {
        lemma_insert_len(s.drop_last(), x, before);
    }
}

/// Sorting keeps the number of elements.
pub proof fn lemma_sort_len<T>(s: Seq<T>, before: spec_fn(T, T) -> bool)
    ensures
        stable_sort(s, before).len() == s.len(),
    decreases s.len(),
{
    if s.len() > 0 {
        lemma_sort_len(s.drop_last(), before);
        lemma_insert_len(stable_sort(s.drop_last(), before), s.last(), before);
    }
}

/// Putting an element in adds that element and nothing else.
pub proof fn lemma_insert_multiset<T>(s: Seq<T>, x: T, before: spec_fn(T, T) -> bool)
    ensures
        insert_stable(s, x, before).to_multiset() == s.to_multiset().insert(x),
    decreases s.len(),
{
    broadcast use vstd::seq_lib::group_to_multiset_ensures;

    if s.len() > 0 && before(x, s.last()) {
        let t = s.drop_last();
        lemma_insert_multiset(t, x, before);
        assert(t.push(s.last()) == s);
        assert(insert_stable(s, x, before).to_multiset() =~= s.to_multiset().insert(x));
    }
}

/// Sorting keeps every element, as often as it occurs.
pub proof fn lemma_sort_multiset<T>(s: Seq<T>, before: spec_fn(T, T) -> bool)
    ensures
        stable_sort(s, before).to_multiset() == s.to_multiset(),
    decreases s.len(),
{
    broadcast use vstd::seq_lib::group_to_multiset_ensures;

    if s.len() > 0 {
        let t = s.drop_last();
        lemma_sort_multiset(t, before);
        lemma_insert_multiset(stable_sort(t, before), s.last(), before);
        assert(t.push(s.last()) == s);
    }
}

/// Under a strict weak order, putting an element into a sequence that is in
/// order leaves it in order.
pub proof fn lemma_insert_ordered<T>(s: Seq<T>, x: T, before: spec_fn(T, T) -> bool)
    requires
        is_strict_weak_order(before),
        is_ordered(s, before),
    ensures
        is_ordered(insert_stable(s, x, before), before),
    decreases s.len(),
{
    let r = insert_stable(s, x, before);
    if s.len() > 0 && before(x, s.last()) {
        let t = s.drop_last();
        assert(is_ordered(t, before)) by {
            assert forall|i: int, j: int| 0 <= i < j < t.len() implies !before(t[j], t[i]) by {
                assert(t[j] == s[j] && t[i] == s[i]);
            }
        }
        lemma_insert_ordered(t, x, before);
        lemma_insert_len(t, x, before);
        lemma_insert_multiset(t, x, before);
        let u = insert_stable(t, x, before);
        assert forall|i: int, j: int| 0 <= i < j < r.len() implies !before(r[j], r[i]) by {
            if j < u.len() {
                assert(r[j] == u[j] && r[i] == u[i]);
            } else {
                // r[j] is the last element of s; r[i] is x or an element of t
                broadcast use vstd::seq_lib::group_to_multiset_ensures;

                assert(u.to_multiset().count(u[i]) > 0);
                if u[i] == x {
                } else {
                    assert(t.to_multiset().count(u[i]) > 0);
                    assert(t.contains(u[i]));
                    let k = choose|k: int| 0 <= k < t.len() && t[k] == u[i];
                    assert(s[k] == u[i]);
                    assert(!before(s[s.len() - 1], s[k]));
                }
            }
        }
    } else {
        assert forall|i: int, j: int| 0 <= i < j < r.len() implies !before(r[j], r[i]) by {
            if j < s.len() {
                assert(r[j] == s[j] && r[i] == s[i]);
            } else {
                assert(r[j] == x);
                assert(r[i] == s[i]);
                assert(!before(x, s.last()));
                if i < s.len() - 1 {
                    assert(!before(s[s.len() - 1], s[i]));
                }
            }
        }
    }
}

/// Under a strict weak order, the sorted sequence is in order.
pub proof fn lemma_sort_ordered<T>(s: Seq<T>, before: spec_fn(T, T) -> bool)
    requires
        is_strict_weak_order(before),
    ensures
        is_ordered(stable_sort(s, before), before),
    decreases s.len(),
{
    if s.len() > 0 {
        lemma_sort_ordered(s.drop_last(), before);
        lemma_insert_ordered(stable_sort(s.drop_last(), before), s.last(), before);
    }
}

/// Putting in and then taking images gives what taking images and then putting
/// in gives.
pub proof fn lemma_insert_map<A, B>(
    s: Seq<A>,
    x: A,
    f: spec_fn(A) -> B,
    before_a: spec_fn(A, A) -> bool,
    before_b: spec_fn(B, B) -> bool,
)
    requires
        forall|p: A, q: A| #[trigger] before_a(p, q) == before_b(f(p), f(q)),
    ensures
        insert_stable(s, x, before_a).map_values(f) == insert_stable(
            s.map_values(f),
            f(x),
            before_b,
        ),
    decreases s.len(),
{
    let m = s.map_values(f);
    if s.len() > 0 && before_a(x, s.last()) {
        assert(before_b(f(x), f(s.last())));
        assert(m.last() == f(s.last()));
        lemma_insert_map(s.drop_last(), x, f, before_a, before_b);
        assert(s.drop_last().map_values(f) == m.drop_last());
        assert(insert_stable(s.drop_last(), x, before_a).push(s.last()).map_values(f)
            == insert_stable(s.drop_last(), x, before_a).map_values(f).push(f(s.last())));
    } else {
        if s.len() > 0 {
            assert(m.last() == f(s.last()));
            assert(!before_b(f(x), f(s.last())));
        }
        assert(s.push(x).map_values(f) == m.push(f(x)));
    }
}

/// Sorting and then taking an image of every element gives what taking the
/// images and then sorting gives, where the two orders agree through the image.
pub proof fn lemma_sort_map<A, B>(
    s: Seq<A>,
    f: spec_fn(A) -> B,
    before_a: spec_fn(A, A) -> bool,
    before_b: spec_fn(B, B) -> bool,
)
    requires
        forall|p: A, q: A| #[trigger] before_a(p, q) == before_b(f(p), f(q)),
    ensures
        stable_sort(s, before_a).map_values(f) == stable_sort(s.map_values(f), before_b),
    decreases s.len(),
{
    if s.len() == 0 {
        assert(s.map_values(f) == Seq::<B>::empty());
        assert(stable_sort(s, before_a).map_values(f) == Seq::<B>::empty());
    } else {
        let t = s.drop_last();
        lemma_sort_map(t, f, before_a, before_b);
        lemma_insert_map(stable_sort(t, before_a), s.last(), f, before_a, before_b);
        assert(s.map_values(f).drop_last() == t.map_values(f));
        assert(s.map_values(f).last() == f(s.last()));
    }
}

/// A type whose values have an order in which they are sorted.
pub trait Ranked: Sized {
    /// `self` has to stand before `other`.
    spec fn ranks_before(&self, other: &Self) -> bool;

    fn goes_before(&self, other: &Self) -> (r: bool)
        ensures
            r == self.ranks_before(other),
    ;
}

/// The order of a ranked type, as a relation.
pub open spec fn rank_order<T: Ranked>() -> spec_fn(T, T) -> bool {
    |a: T, b: T| a.ranks_before(&b)
}

/// Sorts the vector by the order of its element type. The sort is stable.
pub fn sort_stable<T: Ranked>(v: &mut Vec<T>)
    ensures
        final(v)@ == stable_sort(old(v)@, rank_order::<T>()),
{
    let n = v.len();
    let ghost before = rank_order::<T>();
    let mut i: usize = 0;
    assert(v@.subrange(0, 0int) == Seq::<T>::empty());
    while i < n
        invariant
            i <= n,
            v.len() == n,
            old(v).len() == n,
            before == rank_order::<T>(),
            v@.subrange(0, i as int) == stable_sort(old(v)@.subrange(0, i as int), before),
            v@.subrange(i as int, n as int) == old(v)@.subrange(i as int, n as int),
        decreases n - i,
    {
        let ghost prefix = v@.subrange(0, i as int);
        let ghost whole = v@;
        let x = v.remove(i);
        assert(x == old(v)@[i as int]) by {
            assert(whole.subrange(i as int, n as int)[0] == old(v)@.subrange(i as int, n as int)[0]);
        }
        let mut j: usize = i;
        while j > 0 && x.goes_before(&v[j - 1])
            invariant
                j <= i,
                i < n,
                v.len() == n - 1,
                v@.subrange(0, i as int) == prefix,
                before == rank_order::<T>(),
                forall|k: int| j <= k < i ==> before(x, prefix[k]),
            decreases j,
        {
            assert(v@.subrange(0, i as int)[j - 1] == v@[j - 1]);
            j -= 1;
        }
        proof {
            if j > 0 {
                assert(v@.subrange(0, i as int)[j - 1] == v@[j - 1]);
            }
            lemma_insert_at(prefix, x, before, j as int);
            assert(old(v)@.subrange(0, i + 1).drop_last() == old(v)@.subrange(0, i as int));
            assert(old(v)@.subrange(0, i + 1).last() == x);
        }
        let ghost after_remove = v@;
        v.insert(j, x);
        proof {
            assert(v@.subrange(0, i + 1) == prefix.subrange(0, j as int).push(x) + prefix.subrange(
                j as int,
                i as int,
            )) by {
                assert(after_remove.subrange(0, i as int) == prefix);
                let head = v@.subrange(0, i + 1);
                let want = prefix.subrange(0, j as int).push(x) + prefix.subrange(
                    j as int,
                    i as int,
                );
                assert forall|k: int| 0 <= k < head.len() implies #[trigger] head[k] == want[k] by {
                    if k < j {
                        assert(v@[k] == after_remove[k]);
                        assert(after_remove.subrange(0, i as int)[k] == after_remove[k]);
                    } else if k == j {
                    } else {
                        assert(v@[k] == after_remove[k - 1]);
                        assert(after_remove.subrange(0, i as int)[k - 1] == after_remove[k - 1]);
                    }
                }
                assert(v@.subrange(0, i + 1) =~= prefix.subrange(0, j as int).push(x)
                    + prefix.subrange(j as int, i as int));
            }
            let tail = v@.subrange(i + 1, n as int);
            let tail0 = old(v)@.subrange(i + 1, n as int);
            assert forall|k: int| 0 <= k < tail.len() implies #[trigger] tail[k] == tail0[k] by {
                assert(v@[i + 1 + k] == after_remove[i + k]);
                assert(after_remove[i + k] == whole[i + k + 1]);
                assert(whole.subrange(i as int, n as int)[k + 1] == old(v)@.subrange(
                    i as int,
                    n as int,
                )[k + 1]);
            }
            assert(tail =~= tail0);
        }
        i += 1;
    }
    proof {
        assert(v@.subrange(0, n as int) == v@);
        assert(old(v)@.subrange(0, n as int) == old(v)@);
    }
}

/// Every element of the sorted sequence is an element of the sequence.
pub proof fn lemma_sort_member<T>(s: Seq<T>, before: spec_fn(T, T) -> bool, k: int)
    requires
        0 <= k < stable_sort(s, before).len(),
    ensures
        exists|j: int| 0 <= j < s.len() && s[j] == stable_sort(s, before)[k],
{
    broadcast use vstd::seq_lib::group_to_multiset_ensures;

    let r = stable_sort(s, before);
    lemma_sort_multiset(s, before);
    assert(r.to_multiset().count(r[k]) > 0);
    assert(s.to_multiset().count(r[k]) > 0);
    assert(s.contains(r[k]));
}

} // verus!
