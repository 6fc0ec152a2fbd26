//! The values of a TOML document, as plain data, and the call that reads a
//! document from text.

use vstd::prelude::*;
use crate::text::same_text;

verus! {

/// One value of a TOML document. A float and a date are kept as the text that
/// displays them.
#[derive(Debug)]
pub enum TomlValue {
    Text(String),
    Integer(i64),
    Float(String),
    Boolean(bool),
    Datetime(String),
    Array(Vec<TomlValue>),
    Table(Vec<TomlEntry>),
}

/// A key of a table with its value.
#[derive(Debug)]
pub struct TomlEntry {
    pub key: String,
    pub value: TomlValue,
}

#[verifier::external_type_specification]
#[verifier::external_body]
pub struct ExTomlValue(toml::Value);

#[verifier::external_type_specification]
#[verifier::external_body]
#[verifier::reject_recursive_types(K)]
#[verifier::reject_recursive_types(V)]
pub struct ExTomlMap<K, V>(toml::map::Map<K, V>);

/// The table that `toml` reads from a text: its entries in the order in which
/// the table hands them out. `None` where the text is no TOML document.
pub uninterp spec fn toml_document(text: Seq<char>) -> Option<Seq<TomlEntry>>;

/// Copies a value of `toml` into a `TomlValue`, variant by variant.
#[verifier::external_body]
pub(crate) fn value_from(v: &toml::Value) -> TomlValue {
    match v {
        toml::Value::String(s) => TomlValue::Text(s.clone()),
        toml::Value::Integer(i) => TomlValue::Integer(*i),
        toml::Value::Float(f) => TomlValue::Float(f.to_string()),
        toml::Value::Boolean(b) => TomlValue::Boolean(*b),
        toml::Value::Datetime(d) => TomlValue::Datetime(d.to_string()),
        toml::Value::Array(a) => TomlValue::Array(a.iter().map(value_from).collect()),
        toml::Value::Table(t) => TomlValue::Table(entries_from(t)),
    }
}

/// Copies the entries of a table of `toml`, in the order of `Map::iter`.
#[verifier::external_body]
pub(crate) fn entries_from(t: &toml::map::Map<String, toml::Value>) -> Vec<TomlEntry> {
    t.iter().map(|(k, v)| TomlEntry { key: k.clone(), value: value_from(v) }).collect()
}

/// `toml::from_str` for a table. The result is named by `toml_document`.
#[verifier::external_body]
pub(crate) fn read_document(text: &str) -> (r: Option<Vec<TomlEntry>>)
    ensures
        match r {
            Some(entries) => toml_document(text@) == Some(entries@),
            None => toml_document(text@) is None,
        },
{
    match toml::from_str::<toml::map::Map<String, toml::Value>>(text) {
        Ok(t) => Some(entries_from(&t)),
        Err(_) => None,
    }
}

/// Reads a TOML document from text.
pub fn parse_document(text: &str) -> (r: Option<Vec<TomlEntry>>)
    ensures
        match r {
            Some(entries) => toml_document(text@) == Some(entries@),
            None => toml_document(text@) is None,
        },
{
    read_document(text)
}

/// The value of the first entry with the given key.
pub open spec fn entry_value(entries: Seq<TomlEntry>, key: Seq<char>) -> Option<TomlValue>
    decreases entries.len(),
{
    if entries.len() == 0 {
        None
    } else if entries[0].key@ == key {
        Some(entries[0].value)
    } else {
        entry_value(entries.drop_first(), key)
    }
}

/// The value of the first entry with the given key.
pub fn lookup<'a>(entries: &'a Vec<TomlEntry>, key: &str) -> (r: Option<&'a TomlValue>)
    ensures
        r is Some == entry_value(entries@, key@) is Some,
        r is Some ==> *r.unwrap() == entry_value(entries@, key@).unwrap(),
{
    let mut i: usize = 0;
    assert(entries@.subrange(0, entries.len() as int) == entries@);
    while i < entries.len()
        invariant
            i <= entries.len(),
            entry_value(entries@, key@) == entry_value(
                entries@.subrange(i as int, entries.len() as int),
                key@,
            ),
        decreases entries.len() - i,
    {
        if same_text(entries[i].key.as_str(), key) {
            return Some(&entries[i].value);
        }
        assert(entries@.subrange(i as int, entries.len() as int).drop_first()
            == entries@.subrange(i + 1, entries.len() as int));
        i += 1;
    }
    None
}

/// What a key of a table holds when a value of one kind is looked for.
pub enum Field<T> {
    /// The table has no such key.
    Absent,
    /// The key holds a value of the kind.
    Present(T),
    /// The key holds a value of another kind.
    Malformed,
}

/// The key's text.
pub open spec fn text_field(entries: Seq<TomlEntry>, key: Seq<char>) -> Field<Seq<char>> {
    match entry_value(entries, key) {
        None => Field::Absent,
        Some(TomlValue::Text(s)) => Field::Present(s@),
        Some(_) => Field::Malformed,
    }
}

/// The key's table.
pub open spec fn table_field(entries: Seq<TomlEntry>, key: Seq<char>) -> Field<Seq<TomlEntry>> {
    match entry_value(entries, key) {
        None => Field::Absent,
        Some(TomlValue::Table(t)) => Field::Present(t@),
        Some(_) => Field::Malformed,
    }
}

/// The texts of an array, where every item is a text.
pub open spec fn all_texts(items: Seq<TomlValue>) -> Option<Seq<Seq<char>>>
    decreases items.len(),
{
    if items.len() == 0 {
        Some(Seq::empty())
    } else {
        match (items.last(), all_texts(items.drop_last())) {
            (TomlValue::Text(s), Some(front)) => Some(front.push(s@)),
            _ => None,
        }
    }
}

/// The texts of an array, leaving out the items that are no text.
pub open spec fn texts_among(items: Seq<TomlValue>) -> Seq<Seq<char>>
    decreases items.len(),
{
    if items.len() == 0 {
        Seq::empty()
    } else {
        match items.last() {
            TomlValue::Text(s) => texts_among(items.drop_last()).push(s@),
            _ => texts_among(items.drop_last()),
        }
    }
}

/// The key's array of texts.
pub open spec fn text_list_field(entries: Seq<TomlEntry>, key: Seq<char>) -> Field<
    Seq<Seq<char>>,
> {
    match entry_value(entries, key) {
        None => Field::Absent,
        Some(TomlValue::Array(a)) => match all_texts(a@) {
            Some(list) => Field::Present(list),
            None => Field::Malformed,
        },
        Some(_) => Field::Malformed,
    }
}

/// What a key holds when a text is looked for.
pub fn get_text_field(entries: &Vec<TomlEntry>, key: &str) -> (r: Field<String>)
    ensures
        match (r, text_field(entries@, key@)) {
            (Field::Absent, Field::Absent) => true,
            (Field::Present(s), Field::Present(t)) => s@ == t,
            (Field::Malformed, Field::Malformed) => true,
            _ => false,
        },
{
    match lookup(entries, key) {
        None => Field::Absent,
        Some(TomlValue::Text(s)) => Field::Present(s.clone()),
        Some(_) => Field::Malformed,
    }
}

/// What a key holds when a table is looked for.
pub fn get_table_field<'a>(entries: &'a Vec<TomlEntry>, key: &str) -> (r: Field<
    &'a Vec<TomlEntry>,
>)
    ensures
        match (r, table_field(entries@, key@)) {
            (Field::Absent, Field::Absent) => true,
            (Field::Present(s), Field::Present(t)) => s@ == t,
            (Field::Malformed, Field::Malformed) => true,
            _ => false,
        },
{
    match lookup(entries, key) {
        None => Field::Absent,
        Some(TomlValue::Table(t)) => Field::Present(t),
        Some(_) => Field::Malformed,
    }
}

/// The texts of an array, where every item is a text.
pub fn texts_of_all(items: &Vec<TomlValue>) -> (r: Option<Vec<String>>)
    ensures
        r.deep_view() == all_texts(items@),
{
    let mut out: Vec<String> = Vec::new();
    let mut i: usize = 0;
    assert(items@.take(0) == Seq::<TomlValue>::empty());
    assert(out.deep_view() =~= Seq::<Seq<char>>::empty());
    while i < items.len()
        invariant
            i <= items.len(),
            all_texts(items@.take(i as int)) == Some(out.deep_view()),
        decreases items.len() - i,
    {
        let ghost before = out.deep_view();
        assert(items@.take(i + 1).drop_last() == items@.take(i as int));
        match &items[i] {
            TomlValue::Text(s) => {
                out.push(s.clone());
                assert(out.deep_view() =~= before.push(s@));
            },
            _ => {
                proof {
                    lemma_all_texts_prefix(items@, i + 1);
                }
                return None;
            },
        }
        i += 1;
    }
    assert(items@.take(items.len() as int) == items@);
    Some(out)
}

/// Where a front part of an array holds an item that is no text, so does the array.
pub proof fn lemma_all_texts_prefix(items: Seq<TomlValue>, n: int)
    requires
        0 <= n <= items.len(),
        all_texts(items.take(n)) is None,
    ensures
        all_texts(items) is None,
    decreases items.len() - n,
{
    if n < items.len() {
        assert(items.take(n + 1).drop_last() == items.take(n));
        lemma_all_texts_prefix(items, n + 1);
    } else {
        assert(items.take(n) == items);
    }
}

/// The texts of an array, leaving out the items that are no text.
pub fn texts_found(items: &Vec<TomlValue>) -> (r: Vec<String>)
    ensures
        r.deep_view() == texts_among(items@),
{
    let mut out: Vec<String> = Vec::new();
    let mut i: usize = 0;
    assert(items@.take(0) == Seq::<TomlValue>::empty());
    assert(out.deep_view() =~= Seq::<Seq<char>>::empty());
    while i < items.len()
        invariant
            i <= items.len(),
            texts_among(items@.take(i as int)) == out.deep_view(),
        decreases items.len() - i,
    {
        let ghost before = out.deep_view();
        assert(items@.take(i + 1).drop_last() == items@.take(i as int));
        match &items[i] {
            TomlValue::Text(s) => {
                out.push(s.clone());
                assert(out.deep_view() =~= before.push(s@));
            },
            _ => {},
        }
        i += 1;
    }
    assert(items@.take(items.len() as int) == items@);
    out
}

/// What a key holds when an array of texts is looked for.
pub fn get_text_list_field(entries: &Vec<TomlEntry>, key: &str) -> (r: Field<Vec<String>>)
    ensures
        match (r, text_list_field(entries@, key@)) {
            (Field::Absent, Field::Absent) => true,
            (Field::Present(s), Field::Present(t)) => s.deep_view() == t,
            (Field::Malformed, Field::Malformed) => true,
            _ => false,
        },
{
    match lookup(entries, key) {
        None => Field::Absent,
        Some(TomlValue::Array(a)) => match texts_of_all(a) {
            Some(list) => Field::Present(list),
            None => Field::Malformed,
        },
        Some(_) => Field::Malformed,
    }
}

} // verus!
