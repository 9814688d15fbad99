//! Lossy decoding of the engine's byte strings into owned text.

use vstd::prelude::*;
use vstd::utf8::{decode_utf8, encode_utf8, valid_utf8};

verus! {

/// The text that the standard library's lossy decoder gives for `bytes`.
/// On bytes that are not valid UTF-8 it puts a replacement character in place
/// of each ill-formed sequence; that result is named here, not spelled out.
pub uninterp spec fn lossy_text(bytes: Seq<u8>) -> Seq<char>;

/// The text that a byte string of the engine stands for: its characters where
/// the bytes are valid UTF-8, the lossy decoder's substitution form elsewhere.
pub open spec fn decoded_text(bytes: Seq<u8>) -> Seq<char> {
    if valid_utf8(bytes) {
        decode_utf8(bytes)
    } else {
        lossy_text(bytes)
    }
}

/// Calls `String::from_utf8_lossy` and takes ownership of what it returns.
/// Trusted: the result is a function of the bytes alone, and valid UTF-8 comes
/// back as the very characters it encodes, as the standard library documents.
#[verifier::external_body]
fn from_utf8_lossy(bytes: &[u8]) -> (text: String)
    ensures
        text@ == lossy_text(bytes@),
        valid_utf8(bytes@) ==> text@ == decode_utf8(bytes@),
{
    String::from_utf8_lossy(bytes).into_owned()
}

/// Decodes a byte string into owned text. Never fails: bytes that are not
/// valid UTF-8 come out in the substitution form.
pub fn decode_text(bytes: &[u8]) -> (text: String)
    ensures
        text@ == decoded_text(bytes@),
{
    from_utf8_lossy(bytes)
}

/// Valid UTF-8 survives decoding unchanged: encoding the decoded text gives
/// the bytes back.
pub proof fn lemma_valid_bytes_round_trip(bytes: Seq<u8>)
    requires
        valid_utf8(bytes),
    ensures
        encode_utf8(decoded_text(bytes)) == bytes,
{
    vstd::utf8::decode_utf8_encode_utf8(bytes);
}

/// Every text is what its own encoding decodes to.
pub proof fn lemma_text_round_trip(chars: Seq<char>)
    ensures
        decoded_text(encode_utf8(chars)) == chars,
{
    vstd::utf8::encode_utf8_valid_utf8(chars);
    vstd::utf8::encode_utf8_decode_utf8(chars);
}

} // verus!
