//! Grouping by a key: the distinct keys of a list in the order in which they
//! first occur, and for each key the values that came with it.

use vstd::prelude::*;
use crate::seqs::{collect, lemma_collect_step, lemma_deep_vec};
use crate::text::same_text;

verus! {

broadcast use lemma_deep_vec;

/// The texts of `s` without repetitions, each where it first occurs.
pub open spec fn distinct(s: Seq<Seq<char>>) -> Seq<Seq<char>>
    decreases s.len(),
{
    if s.len() == 0 {
        Seq::empty()
    } else {
        let d = distinct(s.drop_last());
        if d.contains(s.last()) {
            d
        } else {
            d.push(s.last())
        }
    }
}

/// The distinct texts of a list are the texts of the list.
pub proof fn lemma_distinct_holds(s: Seq<Seq<char>>, x: Seq<char>)
    ensures
        distinct(s).contains(x) == s.contains(x),
    decreases s.len(),
{
    if s.len() > 0 {
        let t = s.drop_last();
        lemma_distinct_holds(t, x);
        let d = distinct(t);
        if s.contains(x) {
            let i = choose|i: int| 0 <= i < s.len() && s[i] == x;
            if i < t.len() {
                assert(t[i] == x);
                assert(t.contains(x));
                let k = choose|k: int| 0 <= k < d.len() && d[k] == x;
                if !d.contains(s.last()) {
                    assert(d.push(s.last())[k] == x);
                }
            } else {
                if !d.contains(s.last()) {
                    assert(d.push(s.last())[d.len() as int] == x);
                }
            }
        }
        if distinct(s).contains(x) {
            let k = choose|k: int| 0 <= k < distinct(s).len() && distinct(s)[k] == x;
            if k < d.len() {
                assert(d[k] == x);
                assert(d.contains(x));
                let i = choose|i: int| 0 <= i < t.len() && t[i] == x;
                assert(s[i] == x);
            } else {
                assert(s[s.len() - 1] == x);
            }
        }
    }
}

/// No text stands twice among the distinct texts.
pub proof fn lemma_distinct_no_repeat(s: Seq<Seq<char>>)
    ensures
        forall|i: int, j: int|
            0 <= i < j < distinct(s).len() ==> distinct(s)[i] != distinct(s)[j],
    decreases s.len(),
{
    if s.len() > 0 {
        lemma_distinct_no_repeat(s.drop_last());
        let d = distinct(s.drop_last());
        let r = distinct(s);
        assert forall|i: int, j: int| 0 <= i < j < r.len() implies r[i] != r[j] by {
            if j < d.len() {
                assert(r[i] == d[i] && r[j] == d[j]);
            } else {
                assert(!d.contains(s.last()));
                assert(r[i] == d[i]);
            }
        }
    }
}

/// A list whose texts are all the same has one distinct text at most.
pub proof fn lemma_distinct_of_equal(s: Seq<Seq<char>>)
    requires
        forall|i: int, j: int| 0 <= i < s.len() && 0 <= j < s.len() ==> s[i] == s[j],
    ensures
        distinct(s).len() <= 1,
        s.len() > 0 ==> distinct(s) == seq![s[0]],
    decreases s.len(),
{
    if s.len() > 0 {
        let t = s.drop_last();
        assert forall|i: int, j: int| 0 <= i < t.len() && 0 <= j < t.len() implies t[i] == t[j] by {
            assert(t[i] == s[i] && t[j] == s[j]);
        }
        lemma_distinct_of_equal(t);
        if t.len() > 0 {
            assert(t[0] == s[0]);
            assert(distinct(t)[0] == s.last());
        }
    }
}

/// A list that holds two different texts has two distinct texts at least.
pub proof fn lemma_distinct_of_different(s: Seq<Seq<char>>, i: int, j: int)
    requires
        0 <= i < s.len(),
        0 <= j < s.len(),
        s[i] != s[j],
    ensures
        distinct(s).len() >= 2,
{
    lemma_distinct_holds(s, s[i]);
    lemma_distinct_holds(s, s[j]);
    assert(s.contains(s[i]));
    assert(s.contains(s[j]));
    let d = distinct(s);
    let a = choose|a: int| 0 <= a < d.len() && d[a] == s[i];
    let b = choose|b: int| 0 <= b < d.len() && d[b] == s[j];
    assert(a != b);
}

/// Whether a list of texts holds a given one.
pub fn holds_text(list: &Vec<String>, item: &str) -> (r: bool)
    ensures
        r == list.deep_view().contains(item@),
{
    let mut i: usize = 0;
    while i < list.len()
        invariant
            i <= list.len(),
            forall|k: int| 0 <= k < i ==> list.deep_view()[k] != item@,
        decreases list.len() - i,
    {
        assert(list.deep_view()[i as int] == list@[i as int]@);
        if same_text(list[i].as_str(), item) {
            return true;
        }
        i += 1;
    }
    false
}

/// A copy of a list of texts.
pub fn copy_texts(list: &Vec<String>) -> (r: Vec<String>)
    ensures
        r.deep_view() == list.deep_view(),
{
    let mut out: Vec<String> = Vec::new();
    let mut i: usize = 0;
    while i < list.len()
        invariant
            i <= list.len(),
            out.len() == i,
            forall|k: int| 0 <= k < i ==> out@[k]@ == list@[k]@,
        decreases list.len() - i,
    {
        out.push(list[i].clone());
        i += 1;
    }
    assert(out.deep_view() =~= list.deep_view());
    out
}

/// A copy of a text that may be missing.
pub fn copy_text(text: &Option<String>) -> (r: Option<String>)
    ensures
        r.deep_view() == text.deep_view(),
{
    match text {
        Some(t) => Some(t.clone()),
        None => None,
    }
}

/// A list without its repetitions.
pub fn distinct_texts(list: &Vec<String>) -> (r: Vec<String>)
    ensures
        r.deep_view() == distinct(list.deep_view()),
{
    let mut out: Vec<String> = Vec::new();
    let mut i: usize = 0;
    assert(list.deep_view().take(0) =~= Seq::<Seq<char>>::empty());
    assert(out.deep_view() =~= Seq::<Seq<char>>::empty());
    while i < list.len()
        invariant
            i <= list.len(),
            out.deep_view() == distinct(list.deep_view().take(i as int)),
        decreases list.len() - i,
    {
        assert(list.deep_view().take(i + 1).drop_last() == list.deep_view().take(i as int));
        assert(list.deep_view().take(i + 1).last() == list@[i as int]@);
        if !holds_text(&out, list[i].as_str()) {
            let ghost before = out.deep_view();
            out.push(list[i].clone());
            assert(out.deep_view() =~= before.push(list@[i as int]@));
        }
        i += 1;
    }
    assert(list.deep_view().take(list.len() as int) == list.deep_view());
    out
}

/// The values that came with a key, in order.
pub open spec fn values_of(pairs: Seq<(Seq<char>, Seq<char>)>, key: Seq<char>) -> Seq<Seq<char>> {
    collect(
        pairs,
        |p: (Seq<char>, Seq<char>)|
            if p.0 == key {
                Some(p.1)
            } else {
                None
            },
    )
}

/// The keys of a list of pairs.
pub open spec fn keys_of(pairs: Seq<(Seq<char>, Seq<char>)>) -> Seq<Seq<char>> {
    pairs.map_values(|p: (Seq<char>, Seq<char>)| p.0)
}

/// A key with the values that came with it.
#[derive(Debug)]
pub struct Group {
    pub key: String,
    pub members: Vec<String>,
}

pub struct GroupModel {
    pub key: Seq<char>,
    pub members: Seq<Seq<char>>,
}

impl DeepView for Group {
    type V = GroupModel;

    open spec fn deep_view(&self) -> GroupModel {
        GroupModel { key: self.key@, members: self.members.deep_view() }
    }
}

/// One group for each distinct key, in the order in which the keys first occur;
/// a group holds the values of its key in the order in which they came.
pub open spec fn grouped(pairs: Seq<(Seq<char>, Seq<char>)>) -> Seq<GroupModel> {
    distinct(keys_of(pairs)).map_values(
        |k: Seq<char>| GroupModel { key: k, members: values_of(pairs, k) },
    )
}

/// The keys of a list of pairs.
pub fn keys_in(pairs: &Vec<(String, String)>) -> (r: Vec<String>)
    ensures
        r.deep_view() == keys_of(pairs.deep_view()),
{
    let mut out: Vec<String> = Vec::new();
    let mut i: usize = 0;
    while i < pairs.len()
        invariant
            i <= pairs.len(),
            out.len() == i,
            forall|k: int| 0 <= k < i ==> out@[k]@ == pairs@[k].0@,
        decreases pairs.len() - i,
    {
        out.push(pairs[i].0.clone());
        i += 1;
    }
    assert(out.deep_view() =~= keys_of(pairs.deep_view()));
    out
}

/// The values that came with a key.
pub fn values_with(pairs: &Vec<(String, String)>, key: &str) -> (r: Vec<String>)
    ensures
        r.deep_view() == values_of(pairs.deep_view(), key@),
{
    let ghost pick = |p: (Seq<char>, Seq<char>)|
        if p.0 == key@ {
            Some(p.1)
        } else {
            None
        };
    let mut out: Vec<String> = Vec::new();
    let mut i: usize = 0;
    assert(pairs.deep_view().take(0) =~= Seq::<(Seq<char>, Seq<char>)>::empty());
    assert(out.deep_view() =~= Seq::<Seq<char>>::empty());
    while i < pairs.len()
        invariant
            i <= pairs.len(),
            pick == |p: (Seq<char>, Seq<char>)|
                if p.0 == key@ {
                    Some(p.1)
                } else {
                    None
                },
            out.deep_view() == collect(pairs.deep_view().take(i as int), pick),
        decreases pairs.len() - i,
    {
        proof {
            lemma_collect_step(pairs.deep_view(), pick, i as int);
            assert(pairs.deep_view()[i as int] == (pairs@[i as int].0@, pairs@[i as int].1@));
        }
        if same_text(pairs[i].0.as_str(), key) {
            let ghost before = out.deep_view();
            out.push(pairs[i].1.clone());
            assert(out.deep_view() =~= before.push(pairs@[i as int].1@));
        }
        i += 1;
    }
    assert(pairs.deep_view().take(pairs.len() as int) == pairs.deep_view());
    out
}

/// Groups the values of a list of pairs by their keys.
pub fn group_pairs(pairs: &Vec<(String, String)>) -> (r: Vec<Group>)
    ensures
        r.deep_view() == grouped(pairs.deep_view()),
{
    let keys = distinct_texts(&keys_in(pairs));
    let mut out: Vec<Group> = Vec::new();
    let mut i: usize = 0;
    while i < keys.len()
        invariant
            i <= keys.len(),
            keys.deep_view() == distinct(keys_of(pairs.deep_view())),
            out.len() == i,
            forall|k: int|
                0 <= k < i ==> (#[trigger] out@[k]).deep_view() == (GroupModel {
                    key: keys@[k]@,
                    members: values_of(pairs.deep_view(), keys@[k]@),
                }),
        decreases keys.len() - i,
    {
        let members = values_with(pairs, keys[i].as_str());
        out.push(Group { key: keys[i].clone(), members });
        i += 1;
    }
    proof {
        let want = grouped(pairs.deep_view());
        assert(out.deep_view().len() == want.len());
        assert forall|k: int| 0 <= k < want.len() implies out.deep_view()[k] == want[k] by {
            assert(out.deep_view()[k] == out@[k].deep_view());
            assert(keys.deep_view()[k] == keys@[k]@);
        }
        assert(out.deep_view() =~= want);
    }
    out
}

/// The number of values in all the groups together.
pub open spec fn total_members(groups: Seq<GroupModel>) -> nat
    decreases groups.len(),
{
    if groups.len() == 0 {
        0
    } else {
        total_members(groups.drop_last()) + groups.last().members.len()
    }
}

/// A key that no pair has comes with no values.
pub proof fn lemma_values_absent(pairs: Seq<(Seq<char>, Seq<char>)>, key: Seq<char>)
    requires
        !keys_of(pairs).contains(key),
    ensures
        values_of(pairs, key).len() == 0,
    decreases pairs.len(),
{
    if pairs.len() > 0 {
        let front = pairs.drop_last();
        assert(keys_of(pairs)[pairs.len() - 1] == pairs.last().0);
        assert forall|i: int| 0 <= i < front.len() implies keys_of(front)[i] != key by {
            assert(keys_of(pairs)[i] == keys_of(front)[i]);
        }
        lemma_values_absent(front, key);
    }
}

/// Where one group of a list gets one more value and the others keep their
/// number, the list holds one more value.
pub proof fn lemma_total_one_more(a: Seq<GroupModel>, b: Seq<GroupModel>, at: int)
    requires
        a.len() == b.len(),
        0 <= at < a.len(),
        forall|i: int| 0 <= i < a.len() && i != at ==> a[i].members.len() == b[i].members.len(),
        b[at].members.len() == a[at].members.len() + 1,
    ensures
        total_members(b) == total_members(a) + 1,
    decreases a.len(),
{
    if at == a.len() - 1 {
        lemma_total_same(a.drop_last(), b.drop_last());
    } else {
        lemma_total_one_more(a.drop_last(), b.drop_last(), at);
    }
}

/// Lists whose groups are of the same sizes hold the same number of values.
pub proof fn lemma_total_same(a: Seq<GroupModel>, b: Seq<GroupModel>)
    requires
        a.len() == b.len(),
        forall|i: int| 0 <= i < a.len() ==> a[i].members.len() == b[i].members.len(),
    ensures
        total_members(b) == total_members(a),
    decreases a.len(),
{
    if a.len() > 0 {
        lemma_total_same(a.drop_last(), b.drop_last());
    }
}

/// Grouping loses no value and makes none: the groups together hold as many
/// values as there are pairs.
pub proof fn lemma_groups_hold_all(pairs: Seq<(Seq<char>, Seq<char>)>)
    ensures
        total_members(grouped(pairs)) == pairs.len(),
    decreases pairs.len(),
{
    if pairs.len() > 0 {
        let front = pairs.drop_last();
        let key = pairs.last().0;
        let before = distinct(keys_of(front));
        let a = grouped(front);
        let b = grouped(pairs);
        lemma_groups_hold_all(front);
        assert(keys_of(pairs).drop_last() =~= keys_of(front));
        assert(keys_of(pairs).last() == key);
        assert forall|x: Seq<char>| x != key implies values_of(pairs, x) == values_of(front, x) by {}
        assert(values_of(pairs, key) == values_of(front, key).push(pairs.last().1));
        if before.contains(key) {
            let at = choose|at: int| 0 <= at < before.len() && before[at] == key;
            lemma_distinct_no_repeat(keys_of(front));
            assert forall|i: int| 0 <= i < a.len() && i != at implies a[i].members.len()
                == b[i].members.len() by {
                assert(before[i] != key);
            }
            lemma_total_one_more(a, b, at);
        } else {
            lemma_distinct_holds(keys_of(front), key);
            lemma_values_absent(front, key);
            assert(b.drop_last() =~= a) by {
                assert forall|i: int| 0 <= i < a.len() implies b.drop_last()[i] == a[i] by {
                    assert(before[i] != key);
                }
            }
            assert(b.last().members.len() == 1);
        }
    }
}

} // verus!
