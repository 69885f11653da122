//! Reading values out of the JSON that Nix prints, through `serde_json`.

use vstd::prelude::*;

verus! {

/// Whether `serde_json::from_str::<serde_json::Value>` accepts `text`.
pub uninterp spec fn json_valid(text: Seq<char>) -> bool;

/// The string that the JSON pointer `pointer` reaches in the document
/// `text`: `None` where the document is invalid, the pointer reaches nothing,
/// or what it reaches is not a string.
pub uninterp spec fn json_string_at(text: Seq<char>, pointer: Seq<char>) -> Option<Seq<char>>;

/// The keys of the object that the JSON pointer `pointer` reaches in the
/// document `text`, in the iteration order of `serde_json::Map`: `None` where
/// the document is invalid, the pointer reaches nothing, or what it reaches is
/// not an object.
pub uninterp spec fn json_keys_at(text: Seq<char>, pointer: Seq<char>) -> Option<Seq<Seq<char>>>;

/// Parses `text` with `serde_json::from_str` into a `serde_json::Value` and
/// keeps only whether that succeeded, with the parser's error.
///
/// Claims that it succeeds exactly when `json_valid` holds of the text.
#[verifier::external_body]
pub(crate) fn check_json(text: &str) -> (r: Result<(), serde_json::Error>)
    ensures
        r is Ok <==> json_valid(text@),
{
    serde_json::from_str::<serde_json::Value>(text).map(|_value| ())
}

/// Parses `text` with `serde_json::from_str` into a `serde_json::Value`, looks
/// `pointer` up with `Value::pointer` and keeps the target if `Value::as_str`
/// reads it as a string.
///
/// Claims that the result is `json_string_at` of the text and pointer, and
/// `None` for a text that does not parse.
#[verifier::external_body]
pub(crate) fn string_at(text: &str, pointer: &str) -> (r: Option<String>)
    ensures
        r is Some <==> json_string_at(text@, pointer@) is Some,
        r matches Some(s) ==> s@ == json_string_at(text@, pointer@)->0,
        !json_valid(text@) ==> r is None,
{
    let value: serde_json::Value = serde_json::from_str(text).ok()?;
    value.pointer(pointer).and_then(serde_json::Value::as_str).map(str::to_owned)
}

/// Parses `text` with `serde_json::from_str` into a `serde_json::Value`, looks
/// `pointer` up with `Value::pointer` and, if `Value::as_object` reads the
/// target as an object, lists its keys in the map's order.
///
/// Claims that the result is `json_keys_at` of the text and pointer, and
/// `None` for a text that does not parse.
#[verifier::external_body]
pub(crate) fn keys_at(text: &str, pointer: &str) -> (r: Option<Vec<String>>)
    ensures
        r is Some <==> json_keys_at(text@, pointer@) is Some,
        r matches Some(keys) ==> keys@.len() == json_keys_at(text@, pointer@)->0.len()
            && forall|k: int| 0 <= k < keys@.len() ==> #[trigger] keys@[k]@ == json_keys_at(text@, pointer@)->0[k],
        !json_valid(text@) ==> r is None,
{
    let value: serde_json::Value = serde_json::from_str(text).ok()?;
    value.pointer(pointer).and_then(serde_json::Value::as_object).map(|map| map.keys().cloned().collect())
}

} // verus!
