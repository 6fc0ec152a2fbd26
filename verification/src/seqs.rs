//! Sequences: the image of a sequence under a partial function, the deep view
//! of a sequence, and a few facts about both.

use vstd::prelude::*;
use crate::sorting::{insert_stable, lemma_sort_map, rank_order, stable_sort, Ranked};

verus! {

/// The images `f(x)` of the elements `x` of `s` for which `f` gives one, in the
/// order of `s`.
pub open spec fn collect<A, B>(s: Seq<A>, f: spec_fn(A) -> Option<B>) -> Seq<B>
    decreases s.len(),
{
    if s.len() == 0 {
        Seq::empty()
    } else {
        match f(s.last()) {
            Some(b) => collect(s.drop_last(), f).push(b),
            None => collect(s.drop_last(), f),
        }
    }
}

/// What one more element adds to the images of a front part of `s`.
pub proof fn lemma_collect_step<A, B>(s: Seq<A>, f: spec_fn(A) -> Option<B>, i: int)
    requires
        0 <= i < s.len(),
    ensures
        collect(s.take(i + 1), f) == match f(s[i]) {
            Some(b) => collect(s.take(i), f).push(b),
            None => collect(s.take(i), f),
        },
{
    assert(s.take(i + 1).drop_last() == s.take(i));
}

/// Where no element has an image, there are no images.
pub proof fn lemma_collect_none<A, B>(s: Seq<A>, f: spec_fn(A) -> Option<B>)
    requires
        forall|i: int| 0 <= i < s.len() ==> f(#[trigger] s[i]) is None,
    ensures
        collect(s, f).len() == 0,
    decreases s.len(),
{
    if s.len() > 0 {
        let t = s.drop_last();
        assert forall|i: int| 0 <= i < t.len() implies f(#[trigger] t[i]) is None by {
            assert(t[i] == s[i]);
        }
        lemma_collect_none(t, f);
        assert(f(s[s.len() - 1]) is None);
    }
}

/// Every image comes from an element.
pub proof fn lemma_collect_origin<A, B>(s: Seq<A>, f: spec_fn(A) -> Option<B>, k: int)
    requires
        0 <= k < collect(s, f).len(),
    ensures
        exists|i: int| 0 <= i < s.len() && f(#[trigger] s[i]) == Some(collect(s, f)[k]),
    decreases s.len(),
{
    if s.len() > 0 {
        let t = s.drop_last();
        if k < collect(t, f).len() {
            lemma_collect_origin(t, f, k);
            let i = choose|i: int| 0 <= i < t.len() && f(#[trigger] t[i]) == Some(collect(t, f)[k]);
            assert(s[i] == t[i]);
        } else {
            assert(f(s[s.len() - 1]) == Some(collect(s, f)[k]));
        }
    }
}

/// Every element with an image has it among the images.
pub proof fn lemma_collect_holds<A, B>(s: Seq<A>, f: spec_fn(A) -> Option<B>, i: int)
    requires
        0 <= i < s.len(),
        f(s[i]) is Some,
    ensures
        collect(s, f).contains(f(s[i]).unwrap()),
    decreases s.len(),
{
    let t = s.drop_last();
    if i < s.len() - 1 {
        lemma_collect_holds(t, f, i);
        let k = choose|k: int| 0 <= k < collect(t, f).len() && collect(t, f)[k] == f(t[i]).unwrap();
        assert(collect(s, f)[k] == f(s[i]).unwrap());
    } else {
        assert(collect(s, f)[collect(s, f).len() - 1] == f(s[i]).unwrap());
    }
}

/// The deep views of the elements of a sequence.
pub open spec fn deep<T: DeepView>(s: Seq<T>) -> Seq<T::V> {
    s.map_values(|x: T| x.deep_view())
}

/// The deep view of a vector holds the deep views of its elements.
pub broadcast proof fn lemma_deep_vec<T: DeepView>(v: Vec<T>)
    ensures
        #[trigger] v.deep_view() == deep(v@),
{
    assert(v.deep_view() =~= deep(v@));
}

/// A vector sorted by the order of its elements has, as its deep view, the
/// stable sort of what its deep view was, under an order on deep views that
/// agrees with that of the elements.
pub proof fn lemma_sorted_deep<T: Ranked + DeepView>(
    before: Seq<T>,
    after: Seq<T>,
    order: spec_fn(T::V, T::V) -> bool,
)
    requires
        after == stable_sort(before, rank_order::<T>()),
        forall|p: T, q: T| #[trigger] p.ranks_before(&q) == order(p.deep_view(), q.deep_view()),
    ensures
        deep(after) == stable_sort(deep(before), order),
{
    let f = |x: T| x.deep_view();
    assert forall|p: T, q: T| #[trigger] rank_order::<T>()(p, q) == order(f(p), f(q)) by {
        assert(p.ranks_before(&q) == order(p.deep_view(), q.deep_view()));
    }
    lemma_sort_map(before, f, rank_order::<T>(), order);
}

/// No two elements of `s` have the same key.
pub open spec fn distinct_by<T, K>(s: Seq<T>, key: spec_fn(T) -> K) -> bool {
    forall|i: int, j: int| 0 <= i < j < s.len() ==> key(s[i]) != key(s[j])
}

/// Every element of a sequence into which one was put is that one or an
/// element of the sequence.
pub proof fn lemma_insert_member<T>(s: Seq<T>, x: T, before: spec_fn(T, T) -> bool, k: int)
    requires
        0 <= k < insert_stable(s, x, before).len(),
    ensures
        insert_stable(s, x, before)[k] == x || exists|j: int|
            0 <= j < s.len() && s[j] == insert_stable(s, x, before)[k],
    decreases s.len(),
{
    let r = insert_stable(s, x, before);
    if s.len() > 0 && before(x, s.last()) {
        let u = insert_stable(s.drop_last(), x, before);
        if k < u.len() {
            lemma_insert_member(s.drop_last(), x, before, k);
            if u[k] != x {
                let j = choose|j: int| 0 <= j < s.drop_last().len() && s.drop_last()[j] == u[k];
                assert(s[j] == r[k]);
            }
        } else {
            assert(s[s.len() - 1] == r[k]);
        }
    } else {
        if k < s.len() {
            assert(s[k] == r[k]);
        }
    }
}

/// Putting in an element whose key no element has keeps the keys distinct.
pub proof fn lemma_insert_distinct<T, K>(
    s: Seq<T>,
    x: T,
    before: spec_fn(T, T) -> bool,
    key: spec_fn(T) -> K,
)
    requires
        distinct_by(s, key),
        forall|i: int| 0 <= i < s.len() ==> key(s[i]) != key(x),
    ensures
        distinct_by(insert_stable(s, x, before), key),
    decreases s.len(),
{
    let r = insert_stable(s, x, before);
    if s.len() > 0 && before(x, s.last()) {
        let front = s.drop_last();
        let u = insert_stable(front, x, before);
        assert(distinct_by(front, key)) by {
            assert forall|i: int, j: int| 0 <= i < j < front.len() implies key(front[i]) != key(
                front[j],
            ) by {
                assert(front[i] == s[i] && front[j] == s[j]);
            }
        }
        assert forall|i: int| 0 <= i < front.len() implies key(front[i]) != key(x) by {
            assert(front[i] == s[i]);
        }
        lemma_insert_distinct(front, x, before, key);
        assert forall|i: int, j: int| 0 <= i < j < r.len() implies key(r[i]) != key(r[j]) by {
            if j < u.len() {
                assert(r[i] == u[i] && r[j] == u[j]);
            } else {
                assert(r[j] == s.last());
                assert(r[i] == u[i]);
                lemma_insert_member(front, x, before, i);
                if u[i] == x {
                    assert(key(s[s.len() - 1]) != key(x));
                } else {
                    let m = choose|m: int| 0 <= m < front.len() && front[m] == u[i];
                    assert(s[m] == u[i]);
                    assert(key(s[m]) != key(s[s.len() - 1]));
                }
            }
        }
    } else {
        assert forall|i: int, j: int| 0 <= i < j < r.len() implies key(r[i]) != key(r[j]) by {
            if j < s.len() {
                assert(r[i] == s[i] && r[j] == s[j]);
            } else {
                assert(r[i] == s[i]);
            }
        }
    }
}

/// Sorting keeps the keys distinct.
pub proof fn lemma_sort_distinct<T, K>(
    s: Seq<T>,
    before: spec_fn(T, T) -> bool,
    key: spec_fn(T) -> K,
)
    requires
        distinct_by(s, key),
    ensures
        distinct_by(stable_sort(s, before), key),
    decreases s.len(),
{
    if s.len() > 0 {
        let front = s.drop_last();
        let t = stable_sort(front, before);
        assert(distinct_by(front, key)) by {
            assert forall|i: int, j: int| 0 <= i < j < front.len() implies key(front[i]) != key(
                front[j],
            ) by {
                assert(front[i] == s[i] && front[j] == s[j]);
            }
        }
        lemma_sort_distinct(front, before, key);
        assert forall|i: int| 0 <= i < t.len() implies key(t[i]) != key(s.last()) by {
            crate::sorting::lemma_sort_member(front, before, i);
            let j = choose|j: int| 0 <= j < front.len() && front[j] == t[i];
            assert(s[j] == t[i]);
            assert(key(s[j]) != key(s[s.len() - 1]));
        }
        lemma_insert_distinct(t, s.last(), before, key);
    }
}

/// Where the images of different elements have different keys, the images
/// have distinct keys.
pub proof fn lemma_collect_distinct<A, B, K>(
    s: Seq<A>,
    f: spec_fn(A) -> Option<B>,
    key: spec_fn(B) -> K,
)
    requires
        forall|i: int, j: int|
            0 <= i < j < s.len() && f(s[i]) is Some && f(s[j]) is Some ==> key(
                f(s[i]).unwrap(),
            ) != key(f(s[j]).unwrap()),
    ensures
        distinct_by(collect(s, f), key),
    decreases s.len(),
{
    if s.len() > 0 {
        let front = s.drop_last();
        assert forall|i: int, j: int|
            0 <= i < j < front.len() && f(front[i]) is Some && f(front[j]) is Some implies key(
            f(front[i]).unwrap(),
        ) != key(f(front[j]).unwrap()) by {
            assert(front[i] == s[i] && front[j] == s[j]);
        }
        lemma_collect_distinct(front, f, key);
        let c = collect(front, f);
        match f(s.last()) {
            Some(b) => {
                let r = collect(s, f);
                assert forall|i: int, j: int| 0 <= i < j < r.len() implies key(r[i]) != key(
                    r[j],
                ) by {
                    if j < c.len() {
                        assert(r[i] == c[i] && r[j] == c[j]);
                    } else {
                        assert(r[j] == b);
                        assert(r[i] == c[i]);
                        lemma_collect_origin(front, f, i);
                        let m = choose|m: int|
                            0 <= m < front.len() && f(#[trigger] front[m]) == Some(c[i]);
                        assert(s[m] == front[m]);
                        assert(key(f(s[m]).unwrap()) != key(f(s[s.len() - 1]).unwrap()));
                    }
                }
            },
            None => {},
        }
    }
}

} // verus!
