//! Candidate private scalars: 32 bytes drawn from the worker's generator, then
//! clamped bit-exactly to the Ed25519 rule.

use vstd::prelude::*;

use crate::rng::draw_32_bytes;

verus! {

/// The Ed25519 clamping invariant: 32 bytes, the low 3 bits of the first byte
/// cleared, the high bit of the last byte cleared, and the second-highest bit
/// of the last byte set.
pub open spec fn is_clamped(s: Seq<u8>) -> bool {
    &&& s.len() == 32
    &&& s[0] & 0x07 == 0
    &&& s[31] & 0x80 == 0
    &&& s[31] & 0x40 == 0x40
}

/// Applies the Ed25519 clamping rule to a raw 32-byte value: bytes 1 through
/// 30 are untouched, byte 0 loses its low 3 bits, byte 31 loses its high bit
/// and gains the second-highest bit.
pub fn clamp_scalar(raw: Vec<u8>) -> (key: Vec<u8>)
    requires
        raw@.len() == 32,
    ensures
        key@.len() == 32,
        key@[0] == raw@[0] & 0xf8,
        key@[31] == (raw@[31] & 0x7f) | 0x40,
        forall|i: int| 1 <= i < 31 ==> key@[i] == raw@[i],
        is_clamped(key@),
{
    let mut key = raw;
    let b0 = key[0];
    key.set(0, b0 & 0xf8);
    let b31 = key[31];
    key.set(31, (b31 & 0x7f) | 0x40);
    proof {
        assert((b0 & 0xf8) & 0x07 == 0) by (bit_vector);
        assert(((b31 & 0x7f) | 0x40) & 0x80 == 0) by (bit_vector);
        assert(((b31 & 0x7f) | 0x40) & 0x40 == 0x40) by (bit_vector);
    }
    key
}

/// Draws 32 bytes from the worker's generator and clamps them. Every key this
/// returns satisfies the clamping invariant, whatever the generator produced.
pub fn generate_ed25519_compatible_key(rng: &mut rand_xoshiro::Xoshiro256Plus) -> (key: Vec<u8>)
    ensures
        is_clamped(key@),
{
    let raw = draw_32_bytes(rng);
    clamp_scalar(raw)
}

} // verus!
