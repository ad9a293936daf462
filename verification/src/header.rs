//! The block model: a header generic over its consensus digest, and a block
//! as a header plus a body of extrinsics.
//!
//! A header with digest type `()` is a partial header, still awaiting its
//! seal; the consensus engines turn it into a sealed header by attaching a
//! digest. Headers with a plain `u64` digest form the proof-of-work-style
//! chains that the fork-choice rules compare.

use vstd::prelude::*;

use crate::hashing::{hash_header, hash_words, spec_hash_header, spec_hash_words};

verus! {

/// A block header. `parent` is the digest of the parent header, `height` is
/// the distance from genesis, the two roots commit to the block's content,
/// and `consensus_digest` carries whatever the consensus engine in use needs
/// to check the seal.
#[derive(Clone, Copy, Debug, PartialEq, Eq)]
pub struct Header<D> {
    pub parent: u64,
    pub height: u64,
    pub state_root: u64,
    pub extrinsics_root: u64,
    pub consensus_digest: D,
}

/// The same header with its digest replaced.
pub open spec fn with_digest<D, E>(h: Header<D>, digest: E) -> Header<E> {
    Header {
        parent: h.parent,
        height: h.height,
        state_root: h.state_root,
        extrinsics_root: h.extrinsics_root,
        consensus_digest: digest,
    }
}

/// Attach a digest to a header, keeping every other field.
pub fn attach_digest<D, E>(h: &Header<D>, digest: E) -> (r: Header<E>)
    ensures
        r == with_digest(*h, digest),
{
    Header {
        parent: h.parent,
        height: h.height,
        state_root: h.state_root,
        extrinsics_root: h.extrinsics_root,
        consensus_digest: digest,
    }
}

impl Header<u64> {
    /// The genesis header: height zero, no parent, empty commitments.
    pub fn genesis() -> (h: Header<u64>)
        ensures
            h == (Header {
                parent: 0u64,
                height: 0u64,
                state_root: 0u64,
                extrinsics_root: 0u64,
                consensus_digest: 0u64,
            }),
    {
        Header { parent: 0, height: 0, state_root: 0, extrinsics_root: 0, consensus_digest: 0 }
    }

    /// A child header at the next height, pointing at this header by its
    /// digest and carrying the given commitments, with an unmined (zero)
    /// consensus digest.
    pub fn child(&self, extrinsics_root: u64, state_root: u64) -> (h: Header<u64>)
        requires
            self.height < u64::MAX,
        ensures
            h.parent == spec_hash_header(*self),
            h.height == self.height + 1,
            h.state_root == state_root,
            h.extrinsics_root == extrinsics_root,
            h.consensus_digest == 0u64,
    {
        Header {
            parent: hash_header(self),
            height: self.height + 1,
            state_root,
            extrinsics_root,
            consensus_digest: 0,
        }
    }
}

/// A block: a header plus the batch of extrinsics it commits to. The model
/// keeps no ledger state, so a child block commits to its body alone.
#[derive(Debug)]
pub struct Block {
    pub header: Header<u64>,
    pub body: Vec<u64>,
}

impl Block {
    /// The genesis block: the genesis header and an empty body.
    pub fn genesis() -> (b: Block)
        ensures
            b.header == (Header {
                parent: 0u64,
                height: 0u64,
                state_root: 0u64,
                extrinsics_root: 0u64,
                consensus_digest: 0u64,
            }),
            b.body@ == Seq::<u64>::empty(),
    {
        Block { header: Header::genesis(), body: Vec::new() }
    }

    /// A child block carrying the given extrinsics; both content roots are
    /// the digest of the body.
    pub fn child(&self, body: Vec<u64>) -> (b: Block)
        requires
            self.header.height < u64::MAX,
        ensures
            b.header.parent == spec_hash_header(self.header),
            b.header.height == self.header.height + 1,
            b.header.state_root == spec_hash_words(body@),
            b.header.extrinsics_root == spec_hash_words(body@),
            b.header.consensus_digest == 0u64,
            b.body@ == body@,
    {
        let root = hash_words(body.as_slice());
        Block { header: self.header.child(root, root), body }
    }
}

} // verus!
