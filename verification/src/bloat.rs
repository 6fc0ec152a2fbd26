//! What takes the space in a binary, as the size tool reports it. The shares
//! in per cent are left to the caller.

use vstd::prelude::*;
use crate::json::{
    get_items, get_member, get_text, get_unsigned, items_of, member_in, text_value,
    unsigned_value, JsonValue,
};
use crate::seqs::{collect, lemma_collect_step, lemma_deep_vec};

verus! {

broadcast use lemma_deep_vec;

/// A crate or a function with the bytes that it takes.
#[derive(Debug, Clone)]
pub struct BloatEntry {
    pub name: String,
    pub size: u64,
    /// The crate of a function, where the report names it.
    pub crate_name: Option<String>,
}

pub struct BloatEntryModel {
    pub name: Seq<char>,
    pub size: u64,
    pub crate_name: Option<Seq<char>>,
}

impl DeepView for BloatEntry {
    type V = BloatEntryModel;

    open spec fn deep_view(&self) -> BloatEntryModel {
        BloatEntryModel {
            name: self.name@,
            size: self.size,
            crate_name: self.crate_name.deep_view(),
        }
    }
}

/// The number under a key of a report; zero where there is none.
pub open spec fn size_under(doc: JsonValue, key: Seq<char>) -> u64 {
    match unsigned_value(member_in(Some(doc), key)) {
        Some(n) => n,
        None => 0,
    }
}

/// The number under a key of a report; zero where there is none.
pub fn size_at(doc: &JsonValue, key: &str) -> (r: u64)
    ensures
        r == size_under(*doc, key@),
{
    match get_unsigned(get_member(Some(doc), key)) {
        Some(n) => n,
        None => 0,
    }
}

/// The entry that an item of a report is; none where it has no size or no
/// name.
pub open spec fn entry_of() -> spec_fn(JsonValue) -> Option<BloatEntryModel> {
    |item: JsonValue|
        match (
            unsigned_value(member_in(Some(item), "size"@)),
            text_value(member_in(Some(item), "name"@)),
        ) {
            (Some(size), Some(name)) => Some(
                BloatEntryModel {
                    name: name,
                    size: size,
                    crate_name: text_value(member_in(Some(item), "crate"@)),
                },
            ),
            _ => None,
        }
}

/// The entries under a key of a report; none where the key holds no array.
pub open spec fn entries_under(doc: JsonValue, key: Seq<char>) -> Seq<BloatEntryModel> {
    match items_of(member_in(Some(doc), key)) {
        Some(items) => collect(items, entry_of()),
        None => Seq::empty(),
    }
}

/// The entries under a key of a report: `crates` or `functions`.
pub fn bloat_entries(doc: &JsonValue, key: &str) -> (r: Vec<BloatEntry>)
    ensures
        r.deep_view() == entries_under(*doc, key@),
{
    let mut out: Vec<BloatEntry> = Vec::new();
    assert(out.deep_view() =~= Seq::<BloatEntryModel>::empty());
    match get_items(get_member(Some(doc), key)) {
        Some(items) => {
            let mut i: usize = 0;
            assert(items@.take(0) =~= Seq::<JsonValue>::empty());
            while i < items.len()
                invariant
                    i <= items.len(),
                    out.deep_view() == collect(items@.take(i as int), entry_of()),
                decreases items.len() - i,
            {
                proof {
                    lemma_collect_step(items@, entry_of(), i as int);
                }
                let item = &items[i];
                match (
                    get_unsigned(get_member(Some(item), "size")),
                    get_text(get_member(Some(item), "name")),
                ) {
                    (Some(size), Some(name)) => {
                        let ghost before = out.deep_view();
                        let e = BloatEntry {
                            name,
                            size,
                            crate_name: get_text(get_member(Some(item), "crate")),
                        };
                        out.push(e);
                        assert(out.deep_view() =~= before.push(e.deep_view()));
                    },
                    _ => {},
                }
                i += 1;
            }
            assert(items@.take(items.len() as int) =~= items@);
        },
        None => {},
    }
    out
}

} // verus!
