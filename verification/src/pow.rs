//! A proof-of-work consensus engine. A header is valid when its digest
//! (over all five fields, nonce included) falls below the engine's
//! threshold; sealing searches nonces from zero upward and stamps the first
//! one that works. The search is exhaustive: sealing returns `None` exactly
//! when no nonce at all brings the header below the threshold.

use vstd::prelude::*;

use crate::consensus::Consensus;
use crate::hashing::{hash_header, spec_hash_header};
use crate::header::{with_digest, Header};

verus! {

/// The proof-of-work threshold used by [`moderate_difficulty_pow`]: about
/// one in a thousand nonces succeeds.
pub const MODERATE_POW_THRESHOLD: u64 = u64::MAX / 1000;

/// A proof-of-work engine: lower thresholds demand more work.
#[derive(Clone, Copy, Debug)]
pub struct Pow {
    pub threshold: u64,
}

impl Consensus for Pow {
    type Digest = u64;

    open spec fn valid(&self, parent_digest: u64, header: Header<u64>) -> bool {
        spec_hash_header(header) < self.threshold
    }

    open spec fn seals_to(
        &self,
        parent_digest: u64,
        partial_header: Header<()>,
        sealed: Option<Header<u64>>,
    ) -> bool {
        match sealed {
            Some(h) => {
                &&& h == with_digest(partial_header, h.consensus_digest)
                &&& spec_hash_header(h) < self.threshold
                &&& forall|n: u64|
                    n < h.consensus_digest ==> spec_hash_header(
                        #[trigger] with_digest(partial_header, n),
                    ) >= self.threshold
            },
            None => forall|n: u64|
                spec_hash_header(#[trigger] with_digest(partial_header, n)) >= self.threshold,
        }
    }

    /// Check that the header's digest meets the threshold.
    fn validate(&self, parent_digest: &u64, header: &Header<u64>) -> (r: bool) {
        hash_header(header) < self.threshold
    }

    /// Mine: try nonces from zero upward and seal with the first one whose
    /// digest meets the threshold; report failure only after all of them.
    fn seal(&self, parent_digest: &u64, partial_header: Header<()>) -> (sealed: Option<
        Header<u64>,
    >) {
        let mut nonce: u64 = 0;
        loop
            invariant
                forall|n: u64|
                    n < nonce ==> spec_hash_header(#[trigger] with_digest(partial_header, n))
                        >= self.threshold,
            decreases u64::MAX - nonce,
        {
            let candidate = Header {
                parent: partial_header.parent,
                height: partial_header.height,
                state_root: partial_header.state_root,
                extrinsics_root: partial_header.extrinsics_root,
                consensus_digest: nonce,
            };
            proof {
                assert(candidate == with_digest(partial_header, nonce));
            }
            if hash_header(&candidate) < self.threshold {
                return Some(candidate);
            }
            if nonce == u64::MAX {
                proof {
                    assert forall|n: u64|
                        spec_hash_header(#[trigger] with_digest(partial_header, n))
                            >= self.threshold by {
                        if n < u64::MAX {
                        } else {
                            assert(with_digest(partial_header, n) == candidate);
                        }
                    }
                }
                return None;
            }
            nonce = nonce + 1;
        }
    }

    proof fn lemma_seal_preserves_fields(
        &self,
        parent_digest: u64,
        partial_header: Header<()>,
        sealed: Option<Header<u64>>,
    ) {
    }
}

/// A proof-of-work engine at a difficulty moderate enough for tests to
/// mine against.
pub fn moderate_difficulty_pow() -> (p: Pow)
    ensures
        p.threshold == MODERATE_POW_THRESHOLD,
{
    Pow { threshold: MODERATE_POW_THRESHOLD }
}

} // verus!
