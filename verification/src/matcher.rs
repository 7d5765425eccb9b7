//! Prefix matching over encoded text: a candidate counts as a match exactly
//! when the encoded bytes begin with the configured prefix bytes.

use vstd::prelude::*;

verus! {

/// `prefix` stands byte-for-byte at the start of `text`.
pub open spec fn is_prefix_of(prefix: Seq<u8>, text: Seq<u8>) -> bool {
    prefix.len() <= text.len() && text.subrange(0, prefix.len() as int) == prefix
}

/// True iff `text` begins with exactly the bytes of `prefix`; false on a
/// mismatch at any position, and false whenever `text` is shorter than
/// `prefix`.
pub fn starts_with_prefix(text: &Vec<u8>, prefix: &Vec<u8>) -> (r: bool)
    ensures
        r == is_prefix_of(prefix@, text@),
{
    if text.len() < prefix.len() {
        return false;
    }
    let mut i: usize = 0;
    while i < prefix.len()
        invariant
            i <= prefix@.len(),
            prefix@.len() <= text@.len(),
            forall|j: int| 0 <= j < i ==> text@[j] == prefix@[j],
        decreases prefix@.len() - i,
    {
        if text[i] != prefix[i] {
            proof {
                assert(text@.subrange(0, prefix@.len() as int)[i as int] != prefix@[i as int]);
            }
            return false;
        }
        i = i + 1;
    }
    proof {
        assert(text@.subrange(0, prefix@.len() as int) =~= prefix@);
    }
    true
}

/// A prefix match is exactly a byte-wise agreement on every position of the
/// prefix, with the text at least as long as the prefix.
pub proof fn lemma_prefix_match_pointwise(prefix: Seq<u8>, text: Seq<u8>)
    ensures
        is_prefix_of(prefix, text) <==> (prefix.len() <= text.len() && forall|j: int|
            0 <= j < prefix.len() ==> text[j] == prefix[j]),
{
    if prefix.len() <= text.len() {
        if forall|j: int| 0 <= j < prefix.len() ==> text[j] == prefix[j] {
            assert(text.subrange(0, prefix.len() as int) =~= prefix);
        }
        if is_prefix_of(prefix, text) {
            assert(forall|j: int|
                0 <= j < prefix.len() ==> text[j] == text.subrange(0, prefix.len() as int)[j]);
        }
    }
}

} // verus!
