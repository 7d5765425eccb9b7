//! Vanity Ed25519 key search: generate candidate private scalars from a fast
//! per-worker PRNG, clamp them, derive the public key, encode it in base-58
//! text, and test the text against a configured prefix.

pub mod derive;
pub mod encode;
pub mod keygen;
pub mod keypair;
pub mod matcher;
pub mod rng;
pub mod worker;
