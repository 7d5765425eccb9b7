//! Text encoding: base-58 (standard alphabet, no checksum, no version byte)
//! of the public-key bytes, used only for prefix comparison.

use vstd::prelude::*;

verus! {

/// The base-58 text (standard alphabet, no checksum) of a byte string.
pub uninterp spec fn base58_of(bytes: Seq<u8>) -> Seq<u8>;

/// Relies on bs58::encode(..).into_vec(): total over byte input, and the text
/// is a function of the input bytes alone (default Bitcoin alphabet, no
/// checksum). An empty input encodes to empty text.
#[verifier::external_body]
fn bs58_encode(bytes: &Vec<u8>) -> (encoded: Vec<u8>)
    ensures
        encoded@ == base58_of(bytes@),
        bytes@.len() == 0 ==> encoded@.len() == 0,
{
    bs58::encode(bytes.as_slice()).into_vec()
}

/// Encodes public-key bytes as base-58 text. Total: encoding cannot fail.
pub fn encode_public_key(public_key: &Vec<u8>) -> (encoded: Vec<u8>)
    ensures
        encoded@ == base58_of(public_key@),
{
    bs58_encode(public_key)
}

/// Encoding is deterministic: the same public-key bytes always yield the same
/// text.
pub proof fn lemma_encoding_deterministic(a: Seq<u8>, b: Seq<u8>)
    requires
        a == b,
    ensures
        base58_of(a) == base58_of(b),
{
}

} // verus!
