//! Content hashing and the keyed signature check used by the chain rules.
//!
//! A document's content is canonically encoded as a sequence of 64-bit words
//! and folded into a single word with a polynomial rolling hash.  A signature
//! over a digest is the same fold applied to the signer's key followed by the
//! digest, so signature verification is recomputation with the declared key.
//! Both functions are deterministic in their arguments, which is what makes
//! every chain check a pure function of the two documents involved.

use vstd::prelude::*;

verus! {

/// Initial state of the fold.
pub const HASH_SEED: u64 = 0xcbf2_9ce4_8422_2325;

/// Multiplier of the fold; odd, so successive states spread over all of `u64`.
pub const HASH_MULT: u64 = 0x0000_0100_0000_01b3;

/// One step of the fold: the previous state times the multiplier plus the
/// next word, in `u64` wrapping arithmetic.
pub open spec fn hash_step(h: u64, w: u64) -> u64 {
    vstd::wrapping::u64_specs::wrapping_add(vstd::wrapping::u64_specs::wrapping_mul(h, HASH_MULT), w)
}

/// The hash of a word sequence: the fold of `hash_step` over it, left to
/// right, starting from `HASH_SEED`.
pub open spec fn hash_words(s: Seq<u64>) -> u64
    decreases s.len(),
{
    if s.len() == 0 {
        HASH_SEED
    } else {
        hash_step(hash_words(s.drop_last()), s.last())
    }
}

/// The signature a key produces over a digest: the hash of the two-word
/// sequence `[key, digest]`.  A signature is valid exactly when it equals
/// this value for the declared signer's key.
pub open spec fn signature_words(key: u64, digest: u64) -> u64 {
    hash_words(seq![key, digest])
}

/// Computes `hash_words` over the contents of a vector.
pub fn hash_of_words(words: &Vec<u64>) -> (h: u64)
    ensures
        h == hash_words(words@),
{
    let mut h: u64 = HASH_SEED;
    let mut i: usize = 0;
    while i < words.len()
        invariant
            i <= words.len(),
            h == hash_words(words@.take(i as int)),
        decreases words.len() - i,
    {
        proof {
            assert(words@.take(i + 1).drop_last() =~= words@.take(i as int));
            assert(words@.take(i + 1).last() == words@[i as int]);
        }
        h = h.wrapping_mul(HASH_MULT).wrapping_add(words[i]);
        i = i + 1;
    }
    proof {
        assert(words@.take(words@.len() as int) =~= words@);
    }
    h
}

/// Computes the signature of `key` over `digest`.
pub fn sign_digest(key: u64, digest: u64) -> (s: u64)
    ensures
        s == signature_words(key, digest),
{
    let words: Vec<u64> = vec![key, digest];
    proof {
        assert(words@ =~= seq![key, digest]);
    }
    hash_of_words(&words)
}

} // verus!
