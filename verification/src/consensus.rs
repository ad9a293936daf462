//! The consensus contract: deciding whether a header's seal is valid given
//! its parent's digest, and sealing a partial header.
//!
//! An engine is pure and stateless beyond the configuration it was built
//! with. `validate` is a total predicate — a malformed header is rejected,
//! never a panic — and `seal` returns `None` when sealing is impossible
//! (an empty authority set, a violated precondition of the engine), never
//! an error path.

use vstd::prelude::*;

use crate::header::Header;

verus! {

/// A consensus identity: an opaque, equality-comparable token standing in
/// for a public key. Attaching one to a header is this model's signature.
#[derive(Clone, Copy, Debug, PartialEq, Eq, Structural)]
pub enum ConsensusAuthority {
    Alice,
    Bob,
    Charlie,
}

/// A consensus engine over a digest type of its choosing.
pub trait Consensus: Sized {
    type Digest: Copy;

    /// Which headers the engine accepts, given the parent's digest.
    spec fn valid(&self, parent_digest: Self::Digest, header: Header<Self::Digest>) -> bool;

    /// What sealing a partial header yields: `seals_to` pins the outcome
    /// down, including exactly when sealing succeeds.
    spec fn seals_to(
        &self,
        parent_digest: Self::Digest,
        partial_header: Header<()>,
        sealed: Option<Header<Self::Digest>>,
    ) -> bool;

    fn validate(&self, parent_digest: &Self::Digest, header: &Header<Self::Digest>) -> (r: bool)
        ensures
            r == self.valid(*parent_digest, *header),
    ;

    fn seal(&self, parent_digest: &Self::Digest, partial_header: Header<()>) -> (sealed: Option<
        Header<Self::Digest>,
    >)
        ensures
            self.seals_to(*parent_digest, partial_header, sealed),
    ;

    /// Sealing only attaches a digest: every field of the partial header
    /// survives into the sealed header. Each engine proves this of its own
    /// `seals_to`, so that engines composing an arbitrary inner engine can
    /// rely on it.
    proof fn lemma_seal_preserves_fields(
        &self,
        parent_digest: Self::Digest,
        partial_header: Header<()>,
        sealed: Option<Header<Self::Digest>>,
    )
        requires
            self.seals_to(parent_digest, partial_header, sealed),
        ensures
            sealed matches Some(h) ==> {
                &&& h.parent == partial_header.parent
                &&& h.height == partial_header.height
                &&& h.state_root == partial_header.state_root
                &&& h.extrinsics_root == partial_header.extrinsics_root
            },
    ;
}

} // verus!
