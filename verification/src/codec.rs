//! Base64 with the standard alphabet and padding, as the `base64` crate
//! computes it.
use vstd::prelude::*;

verus! {

/// The text that the `base64` crate's `STANDARD` engine encodes `bytes` to.
pub uninterp spec fn base64_standard_encode(bytes: Seq<u8>) -> Seq<char>;

/// What the `base64` crate's `STANDARD` engine decodes `text` to: the bytes,
/// or the text of the decoding error.
pub uninterp spec fn base64_standard_decode(text: Seq<char>) -> Result<Seq<u8>, Seq<char>>;

/// The `STANDARD` engine decodes `text` to `bytes`.
pub open spec fn decodes_to(text: Seq<char>, bytes: Seq<u8>) -> bool {
    base64_standard_decode(text) == Ok::<Seq<u8>, Seq<char>>(bytes)
}

/// Calls `base64::Engine::encode` on `general_purpose::STANDARD`; claims that
/// the result is `base64_standard_encode` of the bytes, a function of the bytes
/// alone, and that the same engine decodes it back to those bytes (the
/// padded standard alphabet round-trips). The encoding itself is not written
/// out. The length bound keeps the crate's computation of the output size
/// from overflowing, where it panics.
#[verifier::external_body]
pub fn base64_encode(bytes: &[u8]) -> (text: String)
    requires
        bytes@.len() <= usize::MAX / 2,
    ensures
        text@ == base64_standard_encode(bytes@),
        decodes_to(text@, bytes@),
{
    base64::Engine::encode(&base64::engine::general_purpose::STANDARD, bytes)
}

/// Calls `base64::Engine::decode` on `general_purpose::STANDARD`; claims that
/// the decoded bytes, or the text (`Display`) of the decoding error, are
/// `base64_standard_decode` of the input, a function of the input alone.
#[verifier::external_body]
pub fn base64_decode(text: &str) -> (decoded: Result<Vec<u8>, String>)
    ensures
        match decoded {
            Ok(bytes) => base64_standard_decode(text@) == Ok::<Seq<u8>, Seq<char>>(bytes@),
            Err(message) => base64_standard_decode(text@) == Err::<Seq<u8>, Seq<char>>(message@),
        },
{
    match base64::Engine::decode(&base64::engine::general_purpose::STANDARD, text) {
        Ok(bytes) => Ok(bytes),
        Err(e) => Err(e.to_string()),
    }
}

} // verus!
