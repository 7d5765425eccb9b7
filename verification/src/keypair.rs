//! The 64-byte key-pair record built on a match: the private scalar in bytes
//! 0 through 31, the public key in bytes 32 through 63.

use vstd::prelude::*;

verus! {

/// `pair` is the 64-byte layout with `private_key` first and `public_key`
/// second.
pub open spec fn is_key_pair_layout(pair: Seq<u8>, private_key: Seq<u8>, public_key: Seq<u8>) -> bool {
    &&& pair.len() == 64
    &&& pair.subrange(0, 32) == private_key
    &&& pair.subrange(32, 64) == public_key
}

/// Lays the two 32-byte halves out as one 64-byte record, private scalar
/// first, public key second.
pub fn make_key_pair(public_key: &Vec<u8>, private_key: &Vec<u8>) -> (key_pair: Vec<u8>)
    requires
        public_key@.len() == 32,
        private_key@.len() == 32,
    ensures
        is_key_pair_layout(key_pair@, private_key@, public_key@),
{
    let mut key_pair: Vec<u8> = Vec::new();
    let mut i: usize = 0;
    while i < 32
        invariant
            i <= 32,
            private_key@.len() == 32,
            key_pair@ =~= private_key@.subrange(0, i as int),
        decreases 32 - i,
    {
        key_pair.push(private_key[i]);
        i = i + 1;
    }
    let mut j: usize = 0;
    while j < 32
        invariant
            j <= 32,
            private_key@.len() == 32,
            public_key@.len() == 32,
            key_pair@ =~= private_key@ + public_key@.subrange(0, j as int),
        decreases 32 - j,
    {
        key_pair.push(public_key[j]);
        j = j + 1;
    }
    proof {
        assert(key_pair@.subrange(0, 32) =~= private_key@);
        assert(key_pair@.subrange(32, 64) =~= public_key@);
    }
    key_pair
}

} // verus!
