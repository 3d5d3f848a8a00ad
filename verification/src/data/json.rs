//! The JSON texts that the cache reads and writes, handled by `serde_json`.
//!
//! Nothing here is proved: each function's contract records what the parser is
//! relied on to do, and the rest of the crate is verified against it.

use vstd::prelude::*;

verus! {

/// The character sequences of a list of strings.
pub open spec fn texts(list: Seq<String>) -> Seq<Seq<char>> {
    list.map_values(|s: String| s@)
}

/// The characters of an optional string.
pub open spec fn text_of(s: Option<String>) -> Option<Seq<char>> {
    match s {
        Some(t) => Some(t@),
        None => None,
    }
}

/// The characters of an optional string slice.
pub open spec fn slice_text_of(s: Option<&str>) -> Option<Seq<char>> {
    match s {
        Some(t) => Some(t@),
        None => None,
    }
}

/// What `serde_json` reads from `text` as an array of strings, or `None`
/// where it rejects the text as such an array.
pub uninterp spec fn json_string_list(text: Seq<char>) -> Option<Seq<Seq<char>>>;

/// The string found under `key` in the JSON object `text`, as `serde_json`
/// reads it; `None` where the text is not JSON, not an object, lacks the key
/// or holds something other than a string there. One name for the three
/// calls that [`read_string_member`] makes in a row: parse, index, take the
/// string.
pub uninterp spec fn json_string_member(text: Seq<char>, key: Seq<char>) -> Option<Seq<char>>;

/// The JSON text that `serde_json` pretty-prints for the object with the
/// single member `key`, holding the string `value`.
pub uninterp spec fn json_member_document(key: Seq<char>, value: Seq<char>) -> Seq<char>;

/// Calls `serde_json::from_str` with a `Vec<String>` as target. Trusted: the
/// result is what [`json_string_list`] names for this text, and `None` stands
/// for the parser's error.
#[verifier::external_body]
pub(crate) fn parse_string_list(text: &str) -> (r: Option<Vec<String>>)
    ensures
        match r {
            Some(list) => json_string_list(text@) == Some(texts(list@)),
            None => json_string_list(text@) is None,
        },
{
    serde_json::from_str::<Vec<String>>(text).ok()
}

/// Makes three calls of `serde_json` in a row: `serde_json::from_str` with a
/// `serde_json::Value` as target, the index of that value by `key`, and
/// `Value::as_str` on the member. Trusted: the result is what
/// [`json_string_member`] names for this text and key. None of the three can
/// panic: text that does not parse gives `None`, and the index of a value
/// that is no object or lacks the key is the null value, which is no string.
#[verifier::external_body]
pub(crate) fn read_string_member(text: &str, key: &str) -> (r: Option<String>)
    ensures
        match r {
            Some(found) => json_string_member(text@, key@) == Some(found@),
            None => json_string_member(text@, key@) is None,
        },
{
    let parsed: Option<serde_json::Value> = serde_json::from_str(text).ok();
    parsed.and_then(|value| value[key].as_str().map(|s| s.to_string()))
}

/// Calls `serde_json::to_string_pretty` on a one-member object. Trusted: the
/// result is what [`json_member_document`] names, and reading the member back
/// from that text by [`read_string_member`] yields the value that was written,
/// whatever characters key and value hold.
#[verifier::external_body]
pub(crate) fn write_member_document(key: &str, value: &str) -> (r: String)
    ensures
        r@ == json_member_document(key@, value@),
        json_string_member(r@, key@) == Some(value@),
{
    let mut object = serde_json::Map::new();
    object.insert(key.to_string(), serde_json::Value::String(value.to_string()));
    serde_json::to_string_pretty(&serde_json::Value::Object(object)).unwrap_or_default()
}

} // verus!
