//! The digest function of the chain model: a deterministic 64-bit mixer.
//!
//! Nothing in the library depends on what the digests are, only on the facts
//! that the function is deterministic and that collisions are treated as
//! impossible. The contracts therefore speak of the digest through the
//! `closed` spec functions below, keeping its value opaque to callers, and
//! the executable functions are proved to compute exactly those values.

use vstd::prelude::*;

use crate::header::Header;

verus! {

/// The starting value of every digest computation.
pub const DIGEST_SEED: u64 = 0x243F_6A88_85A3_08D3;

const MIX_STEP: u64 = 0x9E37_79B9_7F4A_7C15;

const MIX_FACTOR_1: u64 = 0xBF58_476D_1CE4_E5B9;

const MIX_FACTOR_2: u64 = 0x94D0_49BB_1331_11EB;

/// One scrambling round: an avalanche permutation of the 64-bit state.
closed spec fn spec_scramble(z: u64) -> u64 {
    let a = vstd::wrapping::u64_specs::wrapping_add(z, MIX_STEP);
    let b = vstd::wrapping::u64_specs::wrapping_mul(a ^ (a >> 30), MIX_FACTOR_1);
    let c = vstd::wrapping::u64_specs::wrapping_mul(b ^ (b >> 27), MIX_FACTOR_2);
    c ^ (c >> 31)
}

fn scramble(z: u64) -> (r: u64)
    ensures
        r == spec_scramble(z),
{
    let a = z.wrapping_add(MIX_STEP);
    let b = (a ^ (a >> 30)).wrapping_mul(MIX_FACTOR_1);
    let c = (b ^ (b >> 27)).wrapping_mul(MIX_FACTOR_2);
    c ^ (c >> 31)
}

/// The digest of a header with a plain 64-bit consensus digest, as the
/// contracts of the proof-of-work engine and the fork-choice rules see it.
pub closed spec fn spec_hash_header(h: Header<u64>) -> u64 {
    let a = spec_scramble(DIGEST_SEED ^ h.parent);
    let b = spec_scramble(a ^ h.height);
    let c = spec_scramble(b ^ h.state_root);
    let d = spec_scramble(c ^ h.extrinsics_root);
    spec_scramble(d ^ h.consensus_digest)
}

/// The digest of a header, absorbing its five fields in order.
pub fn hash_header(h: &Header<u64>) -> (r: u64)
    ensures
        r == spec_hash_header(*h),
{
    let a = scramble(DIGEST_SEED ^ h.parent);
    let b = scramble(a ^ h.height);
    let c = scramble(b ^ h.state_root);
    let d = scramble(c ^ h.extrinsics_root);
    scramble(d ^ h.consensus_digest)
}

/// The digest of a sequence of words.
pub closed spec fn spec_hash_words(words: Seq<u64>) -> u64
    decreases words.len(),
{
    if words.len() == 0 {
        spec_scramble(DIGEST_SEED)
    } else {
        spec_scramble(spec_hash_words(words.drop_last()) ^ words.last())
    }
}

/// The digest of a slice of words, absorbing them left to right.
pub fn hash_words(words: &[u64]) -> (r: u64)
    ensures
        r == spec_hash_words(words@),
{
    let mut acc = scramble(DIGEST_SEED);
    let mut i: usize = 0;
    while i < words.len()
        invariant
            i <= words@.len(),
            acc == spec_hash_words(words@.subrange(0, i as int)),
        decreases words@.len() - i,
    {
        proof {
            assert(words@.subrange(0, i as int + 1).drop_last() =~= words@.subrange(0, i as int));
        }
        acc = scramble(acc ^ words[i]);
        i = i + 1;
    }
    proof {
        assert(words@.subrange(0, words@.len() as int) =~= words@);
    }
    acc
}

} // verus!
