//! JSON text, read and written by `serde_json`.

use vstd::prelude::*;

verus! {

/// `serde_json::Error`: why a text could not be read or a value not written.
#[verifier::external_type_specification]
#[verifier::external_body]
pub struct ExJsonError(serde_json::Error);

/// Must `c` be escaped inside a JSON string? The quotation mark, the reverse
/// solidus and the control characters below the space must.
pub open spec fn needs_escape(c: char) -> bool {
    c == '"' || c == '\\' || (c as u32) < 0x20
}

/// Can `text` stand inside a JSON string as it is?
pub open spec fn is_plain(text: Seq<char>) -> bool {
    forall|i: int| 0 <= i < text.len() ==> !needs_escape(#[trigger] text[i])
}

/// `text` between quotation marks.
pub open spec fn quoted(text: Seq<char>) -> Seq<char> {
    seq!['"'] + text + seq!['"']
}

/// The JSON string literal that `serde_json::to_string` writes for the
/// string `text`.
pub uninterp spec fn json_string_literal(text: Seq<char>) -> Seq<char>;

/// The integer that the JSON object `text` holds under `key`, as
/// `serde_json` reads it: `None` where `text` is not one JSON document,
/// where the document is not an object, where the object has no such key,
/// and where the value there is not an integer that fits `i64`.
pub uninterp spec fn json_integer_field(text: Seq<char>, key: Seq<char>) -> Option<i64>;

/// Calls `serde_json::to_string` on a string slice.
///
/// Trusted: the call succeeds, and what it writes depends on `text` alone;
/// for a text in which nothing needs an escape that is the text itself
/// between quotation marks. It succeeds because a string slice serialises
/// as one string, and the only error on the way of a string is an error of
/// the writer, which here is a vector of bytes that grows as it is written
/// to.
#[verifier::external_body]
pub(crate) fn write_json_string(text: &str) -> (written: Result<String, serde_json::Error>)
    ensures
        written is Ok,
        written matches Ok(literal) ==> literal@ == json_string_literal(text@),
        written matches Ok(literal) ==> is_plain(text@) ==> literal@ == quoted(text@),
{
    serde_json::to_string(text)
}

/// Calls `serde_json::from_str` for a `serde_json::Value`, then
/// `Value::get` with `key` and `Value::as_i64` on what is found.
///
/// Trusted: the outcome depends on the two texts alone.
#[verifier::external_body]
pub(crate) fn read_integer_field(text: &str, key: &str) -> (value: Option<i64>)
    ensures
        value == json_integer_field(text@, key@),
{
    match serde_json::from_str::<serde_json::Value>(text) {
        Ok(document) => match document.get(key) {
            Some(field) => field.as_i64(),
            None => None,
        },
        Err(_) => None,
    }
}

/// Two plain texts joined are plain.
pub proof fn lemma_plain_concat(a: Seq<char>, b: Seq<char>)
    requires
        is_plain(a),
        is_plain(b),
    ensures
        is_plain(a + b),
{
}

} // verus!
