//! Per-worker pseudorandom state: a xoshiro256+ generator owned by one worker,
//! seeded once, plus the operating-system entropy source used for that seed.

use vstd::prelude::*;

verus! {

#[verifier::external_type_specification]
#[verifier::external_body]
pub struct ExXoshiro256Plus(rand_xoshiro::Xoshiro256Plus);

/// Relies on rand_xoshiro::Xoshiro256Plus::seed_from_u64 (SeedableRng): builds
/// a generator whose state is determined by the 64-bit seed.
#[verifier::external_body]
pub(crate) fn xoshiro_from_seed(seed: u64) -> rand_xoshiro::Xoshiro256Plus {
    <rand_xoshiro::Xoshiro256Plus as rand_xoshiro::rand_core::SeedableRng>::seed_from_u64(seed)
}

/// Relies on rand_xoshiro::Xoshiro256Plus::fill_bytes (RngCore): writes
/// generator output over the whole buffer and cannot fail. Nothing is promised
/// of the bytes themselves; callers must hold for every outcome.
#[verifier::external_body]
pub(crate) fn draw_32_bytes(rng: &mut rand_xoshiro::Xoshiro256Plus) -> (raw: Vec<u8>)
    ensures
        raw@.len() == 32,
{
    let mut buf = [0u8; 32];
    <rand_xoshiro::Xoshiro256Plus as rand_xoshiro::rand_core::RngCore>::fill_bytes(rng, &mut buf);
    buf.to_vec()
}

/// Relies on rand::rngs::OsRng::next_u64 (RngCore): one unpredictable word
/// from the operating system's entropy source. Nothing is promised of the
/// value; if the entropy source is unavailable the call aborts, which is the
/// intended fatal outcome at worker startup.
#[verifier::external_body]
pub(crate) fn entropy_seed() -> u64 {
    <rand::rngs::OsRng as rand::RngCore>::next_u64(&mut rand::rngs::OsRng)
}

} // verus!
