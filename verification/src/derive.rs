//! Public-key derivation: the standard Ed25519 mapping from a 32-byte private
//! scalar to the 32-byte encoding of the corresponding public curve point.

use vstd::prelude::*;

verus! {

/// The 32-byte Ed25519 public key determined by a 32-byte private scalar.
pub uninterp spec fn ed25519_public_of(private_key: Seq<u8>) -> Seq<u8>;

/// Relies on ed25519_dalek::SecretKey::from_bytes, which succeeds exactly on
/// 32-byte input, and on ed25519_dalek::PublicKey::from / to_bytes: the
/// derived point encoding is a function of the 32 private-key bytes alone,
/// and is always 32 bytes long.
#[verifier::external_body]
fn dalek_public_key(private_key_bytes: &Vec<u8>) -> (public_key: Vec<u8>)
    requires
        private_key_bytes@.len() == 32,
    ensures
        public_key@ == ed25519_public_of(private_key_bytes@),
        public_key@.len() == 32,
{
    let secret_key = ed25519_dalek::SecretKey::from_bytes(private_key_bytes.as_slice())
        .expect("Failed to create secret key from private key bytes");
    let public_key: ed25519_dalek::PublicKey = ed25519_dalek::PublicKey::from(&secret_key);
    public_key.to_bytes().to_vec()
}

/// Derives the Ed25519 public key for a 32-byte private scalar. Total over
/// valid input: the only failure in the underlying scheme is a wrong input
/// length, which the precondition rules out.
pub fn derive_public_key(private_key_bytes: &Vec<u8>) -> (public_key: Vec<u8>)
    requires
        private_key_bytes@.len() == 32,
    ensures
        public_key@ == ed25519_public_of(private_key_bytes@),
        public_key@.len() == 32,
{
    dalek_public_key(private_key_bytes)
}

/// Derivation is deterministic: the same private-scalar bytes always map to
/// the same public-key bytes.
pub proof fn lemma_derivation_deterministic(a: Seq<u8>, b: Seq<u8>)
    requires
        a == b,
    ensures
        ed25519_public_of(a) == ed25519_public_of(b),
{
}

} // verus!
