//! JSON text of the bodies that the server answers with, written by serde_json.

use vstd::prelude::*;

verus! {

/// `c` is written by serde_json inside a JSON string as it is: it is no
/// quote, no backslash and no control character below U+0020.
pub open spec fn json_plain_char(c: char) -> bool {
    c != '"' && c != '\\' && (c as u32) >= 0x20
}

/// Every character of `s` is written as it is inside a JSON string.
pub open spec fn json_plain(s: Seq<char>) -> bool {
    forall|i: int| 0 <= i < s.len() ==> json_plain_char(#[trigger] s[i])
}

/// The compact JSON text of `s` as a JSON string, where `s` needs no escape.
pub open spec fn json_quoted_plain(s: Seq<char>) -> Seq<char> {
    seq!['"'] + s + seq!['"']
}

/// The compact JSON text that serde_json writes for an object with the
/// single field `key` whose value is the string `value`.
pub uninterp spec fn json_object_text(key: Seq<char>, value: Seq<char>) -> Seq<char>;

/// Builds a `serde_json::Value::Object` with the one field `key` holding the
/// string `value`, and writes it with its `Display` impl (compact form).
///
/// Trusted: the text is named `json_object_text` of the two strings; where
/// neither needs an escape, serde_json's string writer (`format_escaped_str`,
/// whose escape table leaves such characters alone) gives exactly
/// `{"key":"value"}`. How the other characters are escaped is left unsaid.
#[verifier::external_body]
pub(crate) fn json_single_string_field(key: &str, value: &str) -> (text: String)
    ensures
        text@ == json_object_text(key@, value@),
        json_plain(key@) && json_plain(value@) ==> text@ == seq!['{'] + json_quoted_plain(key@)
            + seq![':'] + json_quoted_plain(value@) + seq!['}'],
{
    let mut object = serde_json::Map::new();
    object.insert(key.to_string(), serde_json::Value::String(value.to_string()));
    serde_json::Value::Object(object).to_string()
}

} // verus!
