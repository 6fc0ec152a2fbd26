//! File-system paths as text, taken apart and put together the way
//! `std::path` does it on the platform the library is built for.

use vstd::prelude::*;
use crate::text::{chars_of, same_chars};

verus! {

/// What `Path::parent` gives for a path: the path without its last component.
pub uninterp spec fn path_parent(p: Seq<char>) -> Option<Seq<char>>;

/// What `Path::file_name` gives for a path: its last component, where that is
/// an ordinary name.
pub uninterp spec fn path_file_name(p: Seq<char>) -> Option<Seq<char>>;

/// What `Path::join` gives for a path and a second one to put behind it.
pub uninterp spec fn path_join(base: Seq<char>, rel: Seq<char>) -> Seq<char>;

/// Whether `Path`'s `==` takes two paths for the same: it compares them
/// component by component.
pub uninterp spec fn same_path(a: Seq<char>, b: Seq<char>) -> bool;

/// What `Path::extension` gives for a path: what follows the last dot of its
/// last component, where that is a name with a dot that is not its first
/// character.
pub uninterp spec fn path_extension(p: Seq<char>) -> Option<Seq<char>>;

/// `Path::extension`. The result is named by `path_extension`.
#[verifier::external_body]
pub(crate) fn extension_of(p: &str) -> (r: Option<String>)
    ensures
        r.deep_view() == path_extension(p@),
{
    match std::path::Path::new(p).extension() {
        Some(e) => Some(e.to_string_lossy().into_owned()),
        None => None,
    }
}

/// `Path::parent`. The result is named by `path_parent`.
#[verifier::external_body]
pub(crate) fn parent_of(p: &str) -> (r: Option<String>)
    ensures
        r.deep_view() == path_parent(p@),
{
    match std::path::Path::new(p).parent() {
        Some(q) => Some(q.to_string_lossy().into_owned()),
        None => None,
    }
}

/// `Path::file_name`. The result is named by `path_file_name`.
#[verifier::external_body]
pub(crate) fn file_name_of(p: &str) -> (r: Option<String>)
    ensures
        r.deep_view() == path_file_name(p@),
{
    match std::path::Path::new(p).file_name() {
        Some(n) => Some(n.to_string_lossy().into_owned()),
        None => None,
    }
}

/// `Path::join`. The result is named by `path_join`.
#[verifier::external_body]
pub(crate) fn join_path(base: &str, rel: &str) -> (r: String)
    ensures
        r@ == path_join(base@, rel@),
{
    std::path::Path::new(base).join(rel).to_string_lossy().into_owned()
}

/// `==` of `Path`. The result is named by `same_path`.
#[verifier::external_body]
pub(crate) fn paths_equal(a: &str, b: &str) -> (r: bool)
    ensures
        r == same_path(a@, b@),
{
    std::path::Path::new(a) == std::path::Path::new(b)
}

/// The name under which a directory is shown: its last component, or the whole
/// path where it has none.
pub open spec fn display_name(path: Seq<char>) -> Seq<char> {
    match path_file_name(path) {
        Some(n) => n,
        None => path,
    }
}

/// The last component of a path, or a given word where it has none.
pub open spec fn name_or(path: Seq<char>, fallback: Seq<char>) -> Seq<char> {
    match path_file_name(path) {
        Some(n) => n,
        None => fallback,
    }
}

/// The name under which a directory is shown.
pub fn project_display_name(path: &str) -> (r: String)
    ensures
        r@ == display_name(path@),
{
    match file_name_of(path) {
        Some(n) => n,
        None => path.to_owned(),
    }
}

/// The last component of a path, or a given word where it has none.
pub fn file_name_or(path: &str, fallback: &str) -> (r: String)
    ensures
        r@ == name_or(path@, fallback@),
{
    match file_name_of(path) {
        Some(n) => n,
        None => fallback.to_owned(),
    }
}

/// Whether the extension of the path is the given one.
pub fn has_extension(path: &str, extension: &str) -> (r: bool)
    ensures
        r == (path_extension(path@) == Some(extension@)),
{
    match extension_of(path) {
        Some(e) => {
            let a = chars_of(e.as_str());
            let b = chars_of(extension);
            same_chars(&a, &b)
        },
        None => false,
    }
}

/// Whether the last component of the path is the given name.
pub open spec fn is_named(path: Seq<char>, name: Seq<char>) -> bool {
    path_file_name(path) == Some(name)
}

/// Whether the last component of the path is the given name.
pub fn has_name(path: &str, name: &str) -> (r: bool)
    ensures
        r == is_named(path@, name@),
{
    match file_name_of(path) {
        Some(n) => {
            let a = chars_of(n.as_str());
            let b = chars_of(name);
            same_chars(&a, &b)
        },
        None => false,
    }
}

/// The directories above a path, the nearest first: its parent, the parent of
/// that, and so on, as long as there is a parent and it is shorter than the
/// path that it is the parent of.
pub open spec fn ancestors(p: Seq<char>) -> Seq<Seq<char>>
    decreases p.len(),
{
    match path_parent(p) {
        Some(q) => if q.len() < p.len() {
            seq![q] + ancestors(q)
        } else {
            Seq::empty()
        },
        None => Seq::empty(),
    }
}

/// The directories above a path, the nearest first.
pub fn ancestors_of(p: &str) -> (r: Vec<String>)
    ensures
        r.deep_view() == ancestors(p@),
{
    let mut out: Vec<String> = Vec::new();
    let mut cur: String = p.to_owned();
    let mut length: usize = chars_of(p).len();
    assert(out.deep_view() =~= Seq::<Seq<char>>::empty());
    assert(Seq::<Seq<char>>::empty() + ancestors(p@) == ancestors(p@));
    loop
        invariant
            length == cur@.len(),
            out.deep_view() + ancestors(cur@) == ancestors(p@),
        ensures
            out.deep_view() == ancestors(p@),
        decreases length,
    {
        match parent_of(cur.as_str()) {
            Some(q) => {
                let shorter: usize = chars_of(q.as_str()).len();
                if shorter < length {
                    let ghost before = out.deep_view();
                    assert(before + (seq![q@] + ancestors(q@)) == before.push(q@) + ancestors(q@));
                    let next = q.clone();
                    out.push(q);
                    assert(out.deep_view() =~= before.push(next@));
                    cur = next;
                    length = shorter;
                } else {
                    assert(out.deep_view() + Seq::<Seq<char>>::empty() == out.deep_view());
                    break ;
                }
            },
            None => {
                assert(out.deep_view() + Seq::<Seq<char>>::empty() == out.deep_view());
                break ;
            },
        }
    }
    out
}

/// Whether the path or a directory above it has the given name.
pub open spec fn lies_under(p: Seq<char>, name: Seq<char>) -> bool {
    is_named(p, name) || exists|i: int|
        0 <= i < ancestors(p).len() && is_named(#[trigger] ancestors(p)[i], name)
}

/// Whether the path or a directory above it has the given name.
pub fn is_under(p: &str, name: &str) -> (r: bool)
    ensures
        r == lies_under(p@, name@),
{
    if has_name(p, name) {
        return true;
    }
    let chain = ancestors_of(p);
    let mut i: usize = 0;
    while i < chain.len()
        invariant
            i <= chain.len(),
            chain.deep_view() == ancestors(p@),
            forall|k: int| 0 <= k < i ==> !is_named(#[trigger] ancestors(p@)[k], name@),
        decreases chain.len() - i,
    {
        assert(chain.deep_view()[i as int] == chain@[i as int]@);
        if has_name(chain[i].as_str(), name) {
            return true;
        }
        i += 1;
    }
    assert(chain.deep_view().len() == chain.len());
    false
}

} // verus!
