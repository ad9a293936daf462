//! A consensus engine that interleaves proof-of-work and proof-of-authority
//! blocks: even heights are authority-signed, odd heights are mined. The
//! two inner engines use different digest types, so the headers of this
//! engine carry a tagged union of the two; a digest whose tag does not
//! match the parity of its height is rejected outright, without consulting
//! either inner engine.
//!
//! The two inner digest types cannot describe each other's parents, so each
//! inner engine is handed a fixed sentinel parent digest. Neither inner
//! engine reads its parent digest, which is what makes this simplification
//! sound; it is kept deliberately, as the cross-type parent reference has
//! no meaning in this composition.

use vstd::prelude::*;

use crate::consensus::{Consensus, ConsensusAuthority};
use crate::header::{attach_digest, with_digest, Header};
use crate::poa::SimplePoa;
use crate::pow::Pow;

verus! {

/// The digest of an alternating chain: a proof-of-work nonce on odd
/// heights, an authority signature on even heights.
#[derive(Clone, Copy, Debug, PartialEq, Eq, Structural)]
pub enum PowOrPoaDigest {
    Pow(u64),
    Poa(ConsensusAuthority),
}

impl PowOrPoaDigest {
    /// Project onto the proof-of-work variant; reading the wrong variant
    /// fails explicitly rather than coercing.
    pub fn as_pow_nonce(self) -> (r: Option<u64>)
        ensures
            r == (match self {
                PowOrPoaDigest::Pow(nonce) => Some(nonce),
                PowOrPoaDigest::Poa(_) => None::<u64>,
            }),
    {
        match self {
            PowOrPoaDigest::Pow(nonce) => Some(nonce),
            PowOrPoaDigest::Poa(_) => None,
        }
    }

    /// Project onto the proof-of-authority variant.
    pub fn as_poa_signature(self) -> (r: Option<ConsensusAuthority>)
        ensures
            r == (match self {
                PowOrPoaDigest::Pow(_) => None::<ConsensusAuthority>,
                PowOrPoaDigest::Poa(authority) => Some(authority),
            }),
    {
        match self {
            PowOrPoaDigest::Pow(_) => None,
            PowOrPoaDigest::Poa(authority) => Some(authority),
        }
    }
}

/// The sentinel parent digest handed to the proof-of-authority engine,
/// which ignores it.
pub open spec fn poa_sentinel() -> ConsensusAuthority {
    ConsensusAuthority::Alice
}

/// Alternates between the two engines by height parity: even heights go to
/// the authority engine, odd heights to the miner.
pub struct AlternatingPowPoa {
    pub pow: Pow,
    pub poa: SimplePoa,
}

impl AlternatingPowPoa {
    /// An alternating engine over the two given inner engines.
    pub fn new(pow: Pow, poa: SimplePoa) -> (engine: Self)
        ensures
            engine.pow == pow,
            engine.poa == poa,
    {
        AlternatingPowPoa { pow, poa }
    }
}

impl Consensus for AlternatingPowPoa {
    type Digest = PowOrPoaDigest;

    open spec fn valid(
        &self,
        parent_digest: PowOrPoaDigest,
        header: Header<PowOrPoaDigest>,
    ) -> bool {
        match header.consensus_digest {
            PowOrPoaDigest::Poa(authority) => header.height % 2 == 0 && self.poa.valid(
                poa_sentinel(),
                with_digest(header, authority),
            ),
            PowOrPoaDigest::Pow(nonce) => header.height % 2 == 1 && self.pow.valid(
                0,
                with_digest(header, nonce),
            ),
        }
    }

    open spec fn seals_to(
        &self,
        parent_digest: PowOrPoaDigest,
        partial_header: Header<()>,
        sealed: Option<Header<PowOrPoaDigest>>,
    ) -> bool {
        if partial_header.height % 2 == 0 {
            match sealed {
                Some(h) => match h.consensus_digest {
                    PowOrPoaDigest::Poa(authority) => self.poa.seals_to(
                        poa_sentinel(),
                        partial_header,
                        Some(with_digest(h, authority)),
                    ),
                    PowOrPoaDigest::Pow(_) => false,
                },
                None => self.poa.seals_to(
                    poa_sentinel(),
                    partial_header,
                    None::<Header<ConsensusAuthority>>,
                ),
            }
        } else {
            match sealed {
                Some(h) => match h.consensus_digest {
                    PowOrPoaDigest::Pow(nonce) => self.pow.seals_to(
                        0,
                        partial_header,
                        Some(with_digest(h, nonce)),
                    ),
                    PowOrPoaDigest::Poa(_) => false,
                },
                None => self.pow.seals_to(0, partial_header, None::<Header<u64>>),
            }
        }
    }

    /// Project the digest onto the variant the height's parity demands —
    /// rejecting a mismatched tag outright — and delegate to the matching
    /// inner engine on a reconstructed header.
    fn validate(&self, parent_digest: &PowOrPoaDigest, header: &Header<PowOrPoaDigest>) -> (r:
        bool) {
        if header.height % 2 == 0 {
            match header.consensus_digest.as_poa_signature() {
                Some(authority) => {
                    let poa_header = attach_digest(header, authority);
                    self.poa.validate(&ConsensusAuthority::Alice, &poa_header)
                },
                None => false,
            }
        } else {
            match header.consensus_digest.as_pow_nonce() {
                Some(nonce) => {
                    let pow_header = attach_digest(header, nonce);
                    self.pow.validate(&0, &pow_header)
                },
                None => false,
            }
        }
    }

    /// Seal with the engine the height's parity selects and wrap its digest
    /// into the union; an inner failure is an unsealable condition here too.
    fn seal(&self, parent_digest: &PowOrPoaDigest, partial_header: Header<()>) -> (sealed: Option<
        Header<PowOrPoaDigest>,
    >) {
        if partial_header.height % 2 == 0 {
            match self.poa.seal(&ConsensusAuthority::Alice, partial_header) {
                Some(h) => Some(attach_digest(&h, PowOrPoaDigest::Poa(h.consensus_digest))),
                None => None,
            }
        } else {
            match self.pow.seal(&0, partial_header) {
                Some(h) => Some(attach_digest(&h, PowOrPoaDigest::Pow(h.consensus_digest))),
                None => None,
            }
        }
    }

    proof fn lemma_seal_preserves_fields(
        &self,
        parent_digest: PowOrPoaDigest,
        partial_header: Header<()>,
        sealed: Option<Header<PowOrPoaDigest>>,
    ) {
        if partial_header.height % 2 == 0 {
            match sealed {
                Some(h) => match h.consensus_digest {
                    PowOrPoaDigest::Poa(authority) => {
                        self.poa.lemma_seal_preserves_fields(
                            poa_sentinel(),
                            partial_header,
                            Some(with_digest(h, authority)),
                        );
                    },
                    PowOrPoaDigest::Pow(_) => {},
                },
                None => {},
            }
        } else {
            match sealed {
                Some(h) => match h.consensus_digest {
                    PowOrPoaDigest::Pow(nonce) => {
                        self.pow.lemma_seal_preserves_fields(
                            0,
                            partial_header,
                            Some(with_digest(h, nonce)),
                        );
                    },
                    PowOrPoaDigest::Poa(_) => {},
                },
                None => {},
            }
        }
    }
}

} // verus!
