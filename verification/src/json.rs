//! JSON documents, as `serde_json` decodes them.
//!
//! A decoded document is a value of `serde_json`, which this crate carries through and asks
//! questions of, but does not look into. What the contracts say of such a value, they say
//! of the strings that it holds, each under the path that leads to it.

use vstd::prelude::*;

verus! {

#[verifier::external_type_specification]
#[verifier::external_body]
pub struct ExJsonValue(serde_json::Value);

#[verifier::external_type_specification]
#[verifier::external_body]
pub struct ExJsonError(serde_json::Error);

/// One step on the way into a document.
pub enum JsonStep {
    /// Into the member of an object that stands under this key.
    Key(Seq<char>),
    /// Into the element of an array that stands at this index.
    Index(nat),
}

/// The strings that a document holds, each under the path that leads to it from the root:
/// the empty path where the document is itself a string, and otherwise the key of each
/// object and the index of each array that the string lies in, from the outside in.
pub uninterp spec fn json_strings(document: serde_json::Value) -> Map<Seq<JsonStep>, Seq<char>>;

/// The strings of the document that `bytes` are the JSON text of; `None` where they are not
/// the text of one document.
pub uninterp spec fn json_document(bytes: Seq<u8>) -> Option<Map<Seq<JsonStep>, Seq<char>>>;

/// The strings that lie at or below `path`, each under the rest of its path.
pub open spec fn strings_at(
    strings: Map<Seq<JsonStep>, Seq<char>>,
    path: Seq<JsonStep>,
) -> Map<Seq<JsonStep>, Seq<char>> {
    Map::new(
        |rest: Seq<JsonStep>| strings.dom().contains(path + rest),
        |rest: Seq<JsonStep>| strings[path + rest],
    )
}

/// Going down `first` and then `then` is going down the two in a row.
pub proof fn lemma_strings_at_twice(
    strings: Map<Seq<JsonStep>, Seq<char>>,
    first: Seq<JsonStep>,
    then: Seq<JsonStep>,
)
    ensures
        strings_at(strings_at(strings, first), then) == strings_at(strings, first + then),
{
    assert forall|rest: Seq<JsonStep>| #[trigger] (first + (then + rest)) == (first + then) + rest by {
        assert(first + (then + rest) =~= (first + then) + rest);
    }
    assert(strings_at(strings_at(strings, first), then) =~= strings_at(strings, first + then));
}

/// Decodes a JSON text.
///
/// Wraps `serde_json::from_slice` at the type `serde_json::Value`. The decoder reads the
/// bytes as one JSON document and nothing after it but white space; its answer depends on
/// the bytes alone. On success the value holds the strings of that document; it fails
/// exactly for bytes that are not the text of one.
#[verifier::external_body]
pub(crate) fn decode(bytes: &[u8]) -> (out: Result<serde_json::Value, serde_json::Error>)
    ensures
        match out {
            Ok(document) => json_document(bytes@) == Some(json_strings(document)),
            Err(_) => json_document(bytes@) is None,
        },
{
    serde_json::from_slice(bytes)
}

/// The member of `document` under `key`.
///
/// Wraps the index operator of `serde_json::Value` for a string index, which gives the
/// member where the value is an object that has the key, and the null value, which holds no
/// string, for every other value. So the strings of what comes back are those that
/// `document` holds below that key.
#[verifier::external_body]
pub(crate) fn member<'a>(document: &'a serde_json::Value, key: &str) -> (found:
    &'a serde_json::Value)
    ensures
        json_strings(*found) == strings_at(json_strings(*document), seq![JsonStep::Key(key@)]),
{
    &document[key]
}

/// The element of `document` at `index`.
///
/// Wraps the index operator of `serde_json::Value` for a number, which gives the element
/// where the value is an array that is long enough, and the null value for every other
/// value. So the strings of what comes back are those that `document` holds below that
/// index.
#[verifier::external_body]
pub(crate) fn element<'a>(document: &'a serde_json::Value, index: usize) -> (found:
    &'a serde_json::Value)
    ensures
        json_strings(*found) == strings_at(
            json_strings(*document),
            seq![JsonStep::Index(index as nat)],
        ),
{
    &document[index]
}

/// The string that `document` is, where it is one.
///
/// Wraps `serde_json::Value::as_str`, which gives the text of a value that is a string, and
/// `None` for any other value: the string that the document holds under the empty path.
#[verifier::external_body]
pub(crate) fn string_in<'a>(document: &'a serde_json::Value) -> (found: Option<&'a str>)
    ensures
        match found {
            Some(text) => json_strings(*document).dom().contains(Seq::empty())
                && json_strings(*document)[Seq::empty()] == text@,
            None => !json_strings(*document).dom().contains(Seq::empty()),
        },
{
    document.as_str()
}

/// What a decoding error says.
///
/// Wraps the `Display` of `serde_json::Error`, through `to_string`. Nothing is claimed of
/// the text.
#[verifier::external_body]
pub(crate) fn error_text(error: &serde_json::Error) -> (text: String) {
    error.to_string()
}

} // verus!
