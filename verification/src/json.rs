//! JSON documents, held as `serde_json::Value` and read through a handful of
//! trusted operations. A document is opaque to the verifier: what its members,
//! elements and scalars are is named here, and every contract of the library
//! that reads or builds a document speaks through these names.

use vstd::prelude::*;
use serde_json::Value;
use crate::models::opt_chars;

verus! {

/// Trusted: `serde_json::Value`, a JSON document. The verifier sees nothing
/// inside it.
#[verifier::external_type_specification]
#[verifier::external_body]
pub struct ExValue(serde_json::Value);

/// Trusted: `serde_json::Error`, why a text is no JSON document. The
/// verifier sees nothing inside it.
#[verifier::external_type_specification]
#[verifier::external_body]
pub struct ExJsonError(serde_json::Error);

/// The member of an object under a key; `None` for a missing key and for a
/// document that is no object. What `Value::get` returns for a string index.
pub uninterp spec fn member_of(doc: Value, key: Seq<char>) -> Option<Value>;

/// The element of an array at a position; `None` past the end and for a
/// document that is no array. What `Value::get` returns for a `usize` index.
pub uninterp spec fn element_of(doc: Value, index: nat) -> Option<Value>;

/// The characters of a string document; `None` for any other document. What
/// `Value::as_str` returns.
pub uninterp spec fn text_of(doc: Value) -> Option<Seq<char>>;

/// The value of a number document that is an integer within `i64`; `None`
/// for any other document. What `Value::as_i64` returns.
pub uninterp spec fn integer_of(doc: Value) -> Option<i64>;

/// Whether a document is JSON's `null`. What `Value::is_null` returns.
pub uninterp spec fn null_doc(doc: Value) -> bool;

/// The document that a text denotes; `None` where the text is not one JSON
/// document. What `serde_json::from_str` returns.
pub uninterp spec fn parsed(text: Seq<char>) -> Option<Value>;

/// The string document with the given characters.
pub uninterp spec fn text_value(s: Seq<char>) -> Value;

/// The array document with the given elements, in order.
pub uninterp spec fn array_value(items: Seq<Value>) -> Value;

/// The object document collected from the given entries, in order.
pub uninterp spec fn object_value(entries: Seq<(Seq<char>, Value)>) -> Value;

/// The entries of an object under construction, with each key by its
/// characters.
pub open spec fn entries_view(entries: Seq<(String, Value)>) -> Seq<(Seq<char>, Value)> {
    entries.map_values(|e: (String, Value)| (e.0@, e.1))
}

/// Whether no two entries have the same key.
pub open spec fn distinct_keys(entries: Seq<(Seq<char>, Value)>) -> bool {
    forall|i: int, j: int|
        0 <= i < j < entries.len() ==> (#[trigger] entries[i]).0 != (#[trigger] entries[j]).0
}

/// Whether an object holds the value of each entry under the entry's key.
pub open spec fn holds_entries(doc: Value, entries: Seq<(Seq<char>, Value)>) -> bool {
    forall|i: int|
        0 <= i < entries.len() ==> member_of(doc, (#[trigger] entries[i]).0) == Some(entries[i].1)
}

/// Whether an object holds nothing under any key that no entry has.
pub open spec fn holds_no_other(doc: Value, entries: Seq<(Seq<char>, Value)>) -> bool {
    forall|key: Seq<char>|
        (forall|i: int| 0 <= i < entries.len() ==> (#[trigger] entries[i]).0 != key) ==> (
        #[trigger] member_of(doc, key)) is None
}

/// Whether a document has no member under any key.
pub open spec fn has_no_members(doc: Value) -> bool {
    forall|key: Seq<char>| (#[trigger] member_of(doc, key)) is None
}

/// Trusted: `Value::clone`, a deep copy that equals its original.
pub assume_specification[ <Value as Clone>::clone ](doc: &Value) -> (copy: Value)
    ensures
        copy == *doc,
;

/// Trusted: `Value::get` with a string index. It looks the key up in an
/// object and gives `None` for anything else; the outcome is `member_of`.
#[verifier::external_body]
pub(crate) fn get_member<'a>(doc: &'a Value, key: &str) -> (member: Option<&'a Value>)
    ensures
        member matches Some(m) ==> member_of(*doc, key@) == Some(*m),
        member is None ==> member_of(*doc, key@) is None,
{
    doc.get(key)
}

/// Trusted: `Value::get` with a `usize` index. It indexes an array and gives
/// `None` for anything else; the outcome is `element_of`.
#[verifier::external_body]
pub(crate) fn get_element<'a>(doc: &'a Value, index: usize) -> (element: Option<&'a Value>)
    ensures
        element matches Some(e) ==> element_of(*doc, index as nat) == Some(*e),
        element is None ==> element_of(*doc, index as nat) is None,
{
    doc.get(index)
}

/// Trusted: `Value::as_str`. It gives the characters of a string document and
/// `None` for anything else; the outcome is `text_of`.
#[verifier::external_body]
pub(crate) fn as_text<'a>(doc: &'a Value) -> (text: Option<&'a str>)
    ensures
        text matches Some(s) ==> text_of(*doc) == Some(s@),
        text is None ==> text_of(*doc) is None,
{
    doc.as_str()
}

/// Trusted: `Value::as_i64`. It gives the value of an integer that fits `i64`
/// and `None` for anything else; the outcome is `integer_of`.
#[verifier::external_body]
pub(crate) fn as_integer(doc: &Value) -> (number: Option<i64>)
    ensures
        number == integer_of(*doc),
{
    doc.as_i64()
}

/// Trusted: `Value::is_null`, which tells `null` from every other document.
#[verifier::external_body]
pub(crate) fn is_null(doc: &Value) -> (null: bool)
    ensures
        null == null_doc(*doc),
{
    doc.is_null()
}

/// Trusted: `serde_json::from_str` at type `Value`. It succeeds exactly on
/// the texts that are one JSON document; the outcome is `parsed`.
#[verifier::external_body]
pub(crate) fn parse(text: &str) -> (doc: Result<Value, serde_json::Error>)
    ensures
        doc matches Ok(d) ==> parsed(text@) == Some(d),
        doc is Err ==> parsed(text@) is None,
{
    serde_json::from_str::<Value>(text)
}

/// Trusted: `Value::from` for a string slice, which makes the string
/// document of those characters; `Value::as_str` reads them back.
#[verifier::external_body]
pub(crate) fn text(s: &str) -> (doc: Value)
    ensures
        doc == text_value(s@),
        text_of(doc) == Some(s@),
{
    Value::from(s)
}

/// Trusted: `Value::from` for a vector of documents, which makes the array
/// of them.
#[verifier::external_body]
pub(crate) fn array(items: Vec<Value>) -> (doc: Value)
    ensures
        doc == array_value(items@),
{
    Value::from(items)
}

/// Trusted: `Value::from_iter` over key-value pairs, which collects them into
/// an object. Where no two pairs share a key, `Value::get` finds each value
/// under its key; and under a key that no pair has it finds nothing.
#[verifier::external_body]
pub(crate) fn object(entries: Vec<(String, Value)>) -> (doc: Value)
    ensures
        doc == object_value(entries_view(entries@)),
        distinct_keys(entries_view(entries@)) ==> holds_entries(doc, entries_view(entries@)),
        holds_no_other(doc, entries_view(entries@)),
{
    Value::from_iter(entries)
}

/// The text under a key of an object; `None` where the key is missing or
/// holds anything but a string.
pub open spec fn text_field(doc: Value, key: Seq<char>) -> Option<Seq<char>> {
    match member_of(doc, key) {
        Some(member) => text_of(member),
        None => None,
    }
}

/// The document under a key of an object; `None` where the key is missing
/// or holds `null`.
pub open spec fn doc_field(doc: Value, key: Seq<char>) -> Option<Value> {
    match member_of(doc, key) {
        Some(member) => if null_doc(member) {
            None
        } else {
            Some(member)
        },
        None => None,
    }
}

/// Reads the text under a key of an object.
pub fn read_text(doc: &Value, key: &str) -> (text: Option<String>)
    ensures
        opt_chars(text) == text_field(*doc, key@),
{
    match get_member(doc, key) {
        Some(member) => match as_text(member) {
            Some(s) => Some(s.to_owned()),
            None => None,
        },
        None => None,
    }
}

/// Copies the document under a key of an object.
pub fn read_doc(doc: &Value, key: &str) -> (member: Option<Value>)
    ensures
        member == doc_field(*doc, key@),
{
    match get_member(doc, key) {
        Some(member) => if is_null(member) {
            None
        } else {
            Some(member.clone())
        },
        None => None,
    }
}

/// Adds an entry to the entries of an object under construction.
pub(crate) fn with_entry(entries: Vec<(String, Value)>, key: &str, value: Value) -> (more: Vec<
    (String, Value),
>)
    ensures
        entries_view(more@) == entries_view(entries@).push((key@, value)),
        more@.len() == entries@.len() + 1,
        more@[entries@.len() as int].0@ == key@,
        more@[entries@.len() as int].1 == value,
{
    let mut more = entries;
    more.push((key.to_owned(), value));
    more
}

/// The object with no members.
pub fn empty_object() -> (doc: Value)
    ensures
        doc == object_value(Seq::empty()),
        has_no_members(doc),
{
    object(no_entries())
}

/// The entries of an object with nothing in it yet.
pub(crate) fn no_entries() -> (entries: Vec<(String, Value)>)
    ensures
        entries_view(entries@) == Seq::<(Seq<char>, Value)>::empty(),
        entries@.len() == 0,
{
    Vec::new()
}

} // verus!
