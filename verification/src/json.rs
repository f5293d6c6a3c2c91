//! The JSON body of an error response.

use vstd::prelude::*;

verus! {

#[verifier::external_type_specification]
#[verifier::external_body]
pub struct ExJsonError(serde_json::Error);

/// The JSON text that `serde_json` writes for the string `s`: a JSON string
/// literal, quotes included.
pub uninterp spec fn json_string(s: Seq<char>) -> Seq<char>;

/// Whether `c` is written with a backslash escape inside a JSON string: the
/// quote, the backslash and the control characters below U+0020.
pub open spec fn needs_escape(c: char) -> bool {
    c == '"' || c == '\\' || (c as u32) < 0x20
}

/// Whether no character of `s` needs an escape inside a JSON string.
pub open spec fn is_plain(s: Seq<char>) -> bool {
    forall|i: int| 0 <= i < s.len() ==> !needs_escape(#[trigger] s[i])
}

/// `s` between two double quotes.
pub open spec fn quoted(s: Seq<char>) -> Seq<char> {
    seq!['"'] + s + seq!['"']
}

/// The error body with the given JSON texts as the values of its two
/// fields, `type` first, without any white space.
pub open spec fn framed_body(kind_json: Seq<char>, message_json: Seq<char>) -> Seq<char> {
    "{\"type\":"@ + kind_json + ",\"message\":"@ + message_json + "}"@
}

/// Calls `serde_json::to_string` on a string slice.
///
/// Trusted, not proved: the call returns `Ok`, since writing a string slice
/// into a buffer in memory has no failing path; the text depends on the
/// characters of `s` alone; and where `s` holds no quote, no backslash and
/// no control character below U+0020, the text is `s` unchanged between two
/// double quotes.
#[verifier::external_body]
fn to_json_string(s: &str) -> (r: Result<String, serde_json::Error>)
    ensures
        r is Ok,
        r->Ok_0@ == json_string(s@),
        is_plain(s@) ==> r->Ok_0@ == quoted(s@),
{
    serde_json::to_string(s)
}

/// The JSON string literal for `s`.
pub fn json_string_literal(s: &str) -> (text: String)
    ensures
        text@ == json_string(s@),
        is_plain(s@) ==> text@ == quoted(s@),
{
    match to_json_string(s) {
        Ok(text) => text,
        Err(_) => unreached(),
    }
}

/// Frames an error body around the JSON texts of its two field values.
pub fn frame_error_body(kind_json: &str, message_json: &str) -> (body: String)
    ensures
        body@ == framed_body(kind_json@, message_json@),
{
    let mut body = "{\"type\":".to_owned();
    body.append(kind_json);
    body.append(",\"message\":");
    body.append(message_json);
    body.append("}");
    body
}

} // verus!
