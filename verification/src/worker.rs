//! One search worker: exclusively owned generator state, an iteration
//! counter, and the configured prefix. Each step runs one
//! generate-derive-encode-match cycle; the surrounding loop, clock and
//! printing live outside the library.

use vstd::prelude::*;

use crate::derive::derive_public_key;
use crate::derive::ed25519_public_of;
use crate::encode::base58_of;
use crate::encode::encode_public_key;
use crate::keygen::generate_ed25519_compatible_key;
use crate::keygen::is_clamped;
use crate::keypair::is_key_pair_layout;
use crate::keypair::make_key_pair;
use crate::matcher::is_prefix_of;
use crate::matcher::starts_with_prefix;
use crate::rng::entropy_seed;
use crate::rng::xoshiro_from_seed;

verus! {

/// A worker reports throughput once every this many iterations.
pub const REPORT_INTERVAL: u64 = 1000000;

/// One candidate key pair drawn in a step, with its base-58 text.
pub struct Candidate {
    pub private_key: Vec<u8>,
    pub public_key: Vec<u8>,
    pub encoded: Vec<u8>,
}

/// The candidate is internally consistent: a clamped private scalar, the
/// public key derived from it, and the base-58 text of that public key.
pub open spec fn candidate_wf(c: Candidate) -> bool {
    &&& is_clamped(c.private_key@)
    &&& c.public_key@ == ed25519_public_of(c.private_key@)
    &&& c.public_key@.len() == 32
    &&& c.encoded@ == base58_of(c.public_key@)
}

/// Draws one clamped private scalar from the generator and derives its public
/// key.
pub fn get_random_keypair(rng: &mut rand_xoshiro::Xoshiro256Plus) -> (r: (Vec<u8>, Vec<u8>))
    ensures
        is_clamped(r.0@),
        r.1@ == ed25519_public_of(r.0@),
        r.1@.len() == 32,
{
    let private_key = generate_ed25519_compatible_key(rng);
    let public_key = derive_public_key(&private_key);
    (private_key, public_key)
}

/// One search worker's whole mutable state. The generator is owned
/// exclusively and never re-seeded; the prefix is fixed configuration.
pub struct Worker {
    pub rng: rand_xoshiro::Xoshiro256Plus,
    pub counter: u64,
    pub prefix: Vec<u8>,
}

impl Worker {
    /// A worker whose generator state is determined by the given seed; the
    /// counter starts at zero.
    pub fn from_seed(seed: u64, prefix: Vec<u8>) -> (w: Worker)
        ensures
            w.counter == 0,
            w.prefix@ == prefix@,
    {
        Worker { rng: xoshiro_from_seed(seed), counter: 0, prefix }
    }

    /// A worker seeded once from the operating system's entropy source.
    pub fn new(prefix: Vec<u8>) -> (w: Worker)
        ensures
            w.counter == 0,
            w.prefix@ == prefix@,
    {
        let seed = entropy_seed();
        Worker::from_seed(seed, prefix)
    }

    /// One iteration of the search: generate, derive, encode, match-check,
    /// counter increment. Returns the candidate and, exactly when its text
    /// begins with the worker's prefix, the 64-byte key-pair record.
    pub fn search_step(&mut self) -> (r: (Candidate, Option<Vec<u8>>))
        requires
            old(self).counter < u64::MAX,
        ensures
            final(self).counter == old(self).counter + 1,
            final(self).prefix@ == old(self).prefix@,
            candidate_wf(r.0),
            r.1 is Some <==> is_prefix_of(old(self).prefix@, r.0.encoded@),
            r.1 matches Some(kp) ==> is_key_pair_layout(kp@, r.0.private_key@, r.0.public_key@),
    {
        let (private_key, public_key) = get_random_keypair(&mut self.rng);
        let encoded = encode_public_key(&public_key);
        self.counter = self.counter + 1;
        let matched = starts_with_prefix(&encoded, &self.prefix);
        let candidate = Candidate { private_key, public_key, encoded };
        if matched {
            let key_pair = make_key_pair(&candidate.public_key, &candidate.private_key);
            (candidate, Some(key_pair))
        } else {
            (candidate, None)
        }
    }
}

/// Whether a worker should emit a throughput report at this counter value:
/// exactly at multiples of the report interval.
pub fn should_report(counter: u64) -> (r: bool)
    ensures
        r == (counter % REPORT_INTERVAL == 0),
{
    counter % REPORT_INTERVAL == 0
}

/// Keys per second since the worker started. While no whole second has
/// elapsed the rate is not yet measurable and `None` is returned; division by
/// zero cannot happen.
pub fn throughput(counter: u64, elapsed_secs: u64) -> (rate: Option<u64>)
    ensures
        elapsed_secs == 0 ==> rate is None,
        elapsed_secs > 0 ==> rate == Some(counter / elapsed_secs),
{
    if elapsed_secs == 0 {
        None
    } else {
        Some(counter / elapsed_secs)
    }
}

} // verus!
