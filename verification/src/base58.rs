//! The base58 codec in which identifiers and keys are written.
//!
//! The codec itself is `indy_utils::base58`. Verus does not see inside it: the
//! two functions below name what it computes, and everything that the rest of
//! the library proves about encoded text is proved over those two names.

use vstd::prelude::*;

verus! {

/// The base58 text of a byte string, as `indy_utils::base58::encode` writes it.
pub uninterp spec fn base58_encoding(bytes: Seq<u8>) -> Seq<char>;

/// The bytes that a text stands for, as `indy_utils::base58::decode` reads
/// them; `None` where the text is not base58.
pub uninterp spec fn base58_decoding(text: Seq<char>) -> Option<Seq<u8>>;

/// `text` is the base58 form of `bytes`: the encoder writes it, and the decoder
/// reads it back.
pub open spec fn is_base58_of(text: Seq<char>, bytes: Seq<u8>) -> bool {
    text == base58_encoding(bytes) && base58_decoding(text) == Some(bytes)
}

/// Calls `indy_utils::base58::encode`. Trusted: the result is the encoding of
/// `bytes`, and decoding it gives `bytes` back (the two directions of the
/// codec are inverse on every byte string).
#[verifier::external_body]
pub(crate) fn encode(bytes: &[u8]) -> (text: String)
    ensures
        text@ == base58_encoding(bytes@),
        base58_decoding(text@) == Some(bytes@),
{
    indy_utils::base58::encode(bytes)
}

/// Calls `indy_utils::base58::decode`. Trusted: the result is the decoding of
/// `text`, with `None` for the codec's error.
#[verifier::external_body]
pub(crate) fn decode(text: &str) -> (bytes: Option<Vec<u8>>)
    ensures
        match bytes {
            Some(b) => base58_decoding(text@) == Some(b@),
            None => base58_decoding(text@) is None,
        },
{
    indy_utils::base58::decode(text).ok()
}

} // verus!
