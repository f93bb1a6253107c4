//! The encodings that the transformers take from outside: base64 for opaque
//! tokens, and the JSON spelling of a text and of a number.

use vstd::prelude::*;
use base64::Engine;

verus! {

/// `serde_json::Error`, which the library carries through without reading it.
#[verifier::external_type_specification]
#[verifier::external_body]
pub struct ExJsonError(serde_json::Error);

/// The standard base64 text, with padding, of the UTF-8 bytes of a text.
pub uninterp spec fn base64_standard(input: Seq<char>) -> Seq<char>;

/// The JSON string literal that spells a text: quoted, and escaped where JSON
/// asks for it.
pub uninterp spec fn json_string(text: Seq<char>) -> Seq<char>;

/// The JSON number that spells an integer.
pub uninterp spec fn json_integer(number: i64) -> Seq<char>;

/// Calls `base64::engine::general_purpose::STANDARD.encode` on the bytes of
/// `input`. The contract claims only that the text returned is a function of
/// the text handed in, and gives that function its name. The outside function
/// panics where the encoded length, four thirds of the input's, does not fit
/// the machine's word; a `str` holds less than half a word's range of bytes,
/// so no input reaches that.
#[verifier::external_body]
pub(crate) fn base64_encode(input: &str) -> (encoded: String)
    ensures
        encoded@ == base64_standard(input@),
{
    base64::engine::general_purpose::STANDARD.encode(input)
}

/// Calls `serde_json::to_string` on a text. The contract claims that the call
/// succeeds and that the literal returned is a function of the text, to which
/// it gives a name. The outside function fails only where a value's own
/// serializer refuses or a map has a key that is no string; a text is
/// neither, and the writing goes to memory.
#[verifier::external_body]
pub(crate) fn encode_json_string(text: &str) -> (encoded: Result<String, serde_json::Error>)
    ensures
        encoded is Ok,
        encoded->Ok_0@ == json_string(text@),
{
    serde_json::to_string(text)
}

/// Calls `serde_json::to_string` on an integer. The contract claims that the
/// call succeeds, for the same reason as for a text, and that the number
/// returned is a function of the integer, to which it gives a name.
#[verifier::external_body]
pub(crate) fn encode_json_integer(number: i64) -> (encoded: Result<String, serde_json::Error>)
    ensures
        encoded is Ok,
        encoded->Ok_0@ == json_integer(number),
{
    serde_json::to_string(&number)
}

} // verus!
