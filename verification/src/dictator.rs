//! The simplest consensus engine: a single fixed authority. A header is
//! valid exactly when it carries the dictator's signature, and sealing
//! always succeeds by stamping the dictator's identity — genesis included,
//! since there is no inner engine to exempt it.

use vstd::prelude::*;

use crate::consensus::{Consensus, ConsensusAuthority};
use crate::header::{attach_digest, with_digest, Header};

verus! {

/// A consensus engine that accepts exactly the headers signed by its one
/// configured identity.
#[derive(Clone, Copy, Debug)]
pub struct DictatorConsensus {
    pub dictator: ConsensusAuthority,
}

impl Consensus for DictatorConsensus {
    type Digest = ConsensusAuthority;

    open spec fn valid(
        &self,
        parent_digest: ConsensusAuthority,
        header: Header<ConsensusAuthority>,
    ) -> bool {
        header.consensus_digest == self.dictator
    }

    open spec fn seals_to(
        &self,
        parent_digest: ConsensusAuthority,
        partial_header: Header<()>,
        sealed: Option<Header<ConsensusAuthority>>,
    ) -> bool {
        sealed == Some(with_digest(partial_header, self.dictator))
    }

    /// Check that the header is signed by the dictator.
    fn validate(
        &self,
        parent_digest: &ConsensusAuthority,
        header: &Header<ConsensusAuthority>,
    ) -> (r: bool) {
        header.consensus_digest == self.dictator
    }

    /// Stamp the partial header with the dictator's identity.
    fn seal(&self, parent_digest: &ConsensusAuthority, partial_header: Header<()>) -> (sealed:
        Option<Header<ConsensusAuthority>>) {
        Some(attach_digest(&partial_header, self.dictator))
    }

    proof fn lemma_seal_preserves_fields(
        &self,
        parent_digest: ConsensusAuthority,
        partial_header: Header<()>,
        sealed: Option<Header<ConsensusAuthority>>,
    ) {
    }
}

} // verus!
