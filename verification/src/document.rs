//! JSON documents, by the `serde_json` crate.

use vstd::prelude::*;

verus! {

/// A JSON document.
#[verifier::external_type_specification]
#[verifier::external_body]
pub struct ExDocument(serde_json::Value);

/// The members of an object whose values are strings; a document that is no object has none.
pub uninterp spec fn string_members(document: serde_json::Value) -> Map<Seq<char>, Seq<char>>;

/// Looks a string up with `serde_json::Value::get` and `serde_json::Value::as_str`: the member of
/// that name, where the document is an object that has it and its value is a string.
#[verifier::external_body]
pub(crate) fn string_member(document: &serde_json::Value, name: &str) -> (value: Option<String>)
    ensures
        match value {
            Some(text) => string_members(*document).contains_key(name@)
                && string_members(*document)[name@] == text@,
            None => !string_members(*document).contains_key(name@),
        },
{
    document.get(name).and_then(serde_json::Value::as_str).map(str::to_owned)
}

/// The unsigned numbers inside a document, by the JSON pointers that lead to them.
pub uninterp spec fn numbers_by_pointer(document: serde_json::Value) -> Map<Seq<char>, u64>;

/// Follows a JSON pointer to an unsigned number with `serde_json::Value::pointer` and
/// `serde_json::Value::as_u64`: the number it leads to, where it leads to one.
#[verifier::external_body]
pub(crate) fn number_at(document: &serde_json::Value, pointer: &str) -> (value: Option<u64>)
    ensures
        match value {
            Some(number) => numbers_by_pointer(*document).contains_key(pointer@)
                && numbers_by_pointer(*document)[pointer@] == number,
            None => !numbers_by_pointer(*document).contains_key(pointer@),
        },
{
    document.pointer(pointer).and_then(serde_json::Value::as_u64)
}

/// Whether two documents are equal as JSON values.
pub uninterp spec fn equal_documents(a: serde_json::Value, b: serde_json::Value) -> bool;

/// Compares two documents with `==` of `serde_json::Value`, which compares them member by member. A document
/// is equal to itself; nothing more is claimed of the comparison.
#[verifier::external_body]
pub(crate) fn same_document(a: &serde_json::Value, b: &serde_json::Value) -> (same: bool)
    ensures
        same == equal_documents(*a, *b),
        *a == *b ==> same,
{
    a == b
}

/// The members of a document in the order of their names, where it is an object whose values are all strings.
pub uninterp spec fn text_pairs(document: serde_json::Value) -> Option<Seq<(Seq<char>, Seq<char>)>>;

/// Pairs of texts, as contracts speak of them.
pub open spec fn pairs_view(pairs: Seq<(String, String)>) -> Seq<(Seq<char>, Seq<char>)> {
    Seq::new(pairs.len(), |i: int| (pairs[i].0@, pairs[i].1@))
}

/// Reads a document as a map from texts to texts with `serde_json::from_value`, and lists the map in its
/// order. A document that is no such map has no list. The result depends on the document alone.
#[verifier::external_body]
pub(crate) fn read_text_pairs(document: serde_json::Value) -> (pairs: Option<Vec<(String, String)>>)
    ensures
        match pairs {
            Some(pairs) => text_pairs(document) == Some(pairs_view(pairs@)),
            None => text_pairs(document) is None,
        },
{
    let map: Option<std::collections::BTreeMap<String, String>> = serde_json::from_value(document).ok();
    map.map(|map| map.into_iter().collect())
}

} // verus!
