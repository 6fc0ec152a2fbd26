//! Attributes and entities of one line of XML.

use vstd::prelude::*;
use crate::edit::{replace_all, replaced};
use crate::text::{chars_of, find_first, first_occurrence, joined, slice_of, string_of};

verus! {

/// `s` with the five entities of XML replaced by the characters that they
/// stand for: first every `&amp;`, then `&lt;`, `&gt;`, `&quot;` and `&apos;`.
pub open spec fn decoded(s: Seq<char>) -> Seq<char> {
    replaced(
        replaced(
            replaced(replaced(replaced(s, "&amp;"@, "&"@), "&lt;"@, "<"@), "&gt;"@, ">"@),
            "&quot;"@,
            "\""@,
        ),
        "&apos;"@,
        "'"@,
    )
}

/// The characters with the entities of XML replaced.
pub fn decode_chars(s: &Vec<char>) -> (r: Vec<char>)
    ensures
        r@ == decoded(s@),
{
    let a = replace_all(s, &chars_of("&amp;"), &chars_of("&"));
    let b = replace_all(&a, &chars_of("&lt;"), &chars_of("<"));
    let c = replace_all(&b, &chars_of("&gt;"), &chars_of(">"));
    let d = replace_all(&c, &chars_of("&quot;"), &chars_of("\""));
    replace_all(&d, &chars_of("&apos;"), &chars_of("'"))
}

/// Decode XML entities in a string.
pub fn decode_xml_entities(s: &str) -> (r: String)
    ensures
        r@ == decoded(s@),
{
    let out = decode_chars(&chars_of(s));
    string_of(&out)
}

/// The value of the attribute `attr` in `line`, not yet decoded: what stands
/// between the first `attr="` and the next quotation mark. There is none where
/// either is missing.
pub open spec fn raw_attr(line: Seq<char>, attr: Seq<char>) -> Option<Seq<char>> {
    let pattern = attr + "=\""@;
    match first_occurrence(line, pattern, 0) {
        Some(start) => match first_occurrence(line, "\""@, start + pattern.len()) {
            Some(end) => Some(line.subrange(start + pattern.len(), end)),
            None => None,
        },
        None => None,
    }
}

/// The value of the attribute `attr` in `line`, with its entities decoded.
pub open spec fn attr_value(line: Seq<char>, attr: Seq<char>) -> Option<Seq<char>> {
    match raw_attr(line, attr) {
        Some(raw) => Some(decoded(raw)),
        None => None,
    }
}

/// The value of an attribute in a line, with its entities decoded.
pub fn attr_of_chars(line: &Vec<char>, attr: &str) -> (r: Option<Vec<char>>)
    ensures
        r is Some == attr_value(line@, attr@) is Some,
        r is Some ==> r.unwrap()@ == attr_value(line@, attr@).unwrap(),
{
    let pattern = joined(&chars_of(attr), &chars_of("=\""));
    match find_first(line, &pattern, 0) {
        Some(start) => {
            let total: usize = line.len();
            assert(start + pattern@.len() <= total);
            let value_start: usize = start + pattern.len();
            match find_first(line, &chars_of("\""), value_start) {
                Some(end) => {
                    let raw = slice_of(line, value_start, end);
                    Some(decode_chars(&raw))
                },
                None => None,
            }
        },
        None => None,
    }
}

/// Extract an attribute value from an XML element line.
pub fn extract_xml_attr(line: &str, attr: &str) -> (r: Option<String>)
    ensures
        r.deep_view() == attr_value(line@, attr@),
{
    match attr_of_chars(&chars_of(line), attr) {
        Some(v) => Some(string_of(&v)),
        None => None,
    }
}

} // verus!
