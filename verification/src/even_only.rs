//! A higher-order consensus engine: it wraps any inner engine and adds the
//! rule that a valid header's state root must be even. A decorator only
//! adds constraints — it never accepts a header its inner engine rejects —
//! and when its own rule already fails it short-circuits, sparing the inner
//! engine the work.

use vstd::prelude::*;

use crate::consensus::Consensus;
use crate::hashing::{hash_header, spec_hash_header};
use crate::header::Header;
use crate::pow::{moderate_difficulty_pow, MODERATE_POW_THRESHOLD};

verus! {

/// Requires the state root to be even, on top of everything the inner
/// engine requires.
pub struct EvenOnly<Inner: Consensus> {
    /// The engine whose rules are enforced in addition to the parity rule.
    pub inner: Inner,
}

impl<Inner: Consensus> Consensus for EvenOnly<Inner> {
    type Digest = Inner::Digest;

    open spec fn valid(
        &self,
        parent_digest: Inner::Digest,
        header: Header<Inner::Digest>,
    ) -> bool {
        self.inner.valid(parent_digest, header) && header.state_root % 2 == 0
    }

    open spec fn seals_to(
        &self,
        parent_digest: Inner::Digest,
        partial_header: Header<()>,
        sealed: Option<Header<Inner::Digest>>,
    ) -> bool {
        if partial_header.state_root % 2 != 0 {
            sealed is None
        } else {
            self.inner.seals_to(parent_digest, partial_header, sealed)
        }
    }

    /// Accept only what the inner engine accepts, and only with an even
    /// state root.
    fn validate(&self, parent_digest: &Inner::Digest, header: &Header<Inner::Digest>) -> (r:
        bool) {
        if !self.inner.validate(parent_digest, header) {
            return false;
        }
        header.state_root % 2 == 0
    }

    /// Refuse an odd state root before delegating to the inner engine.
    fn seal(&self, parent_digest: &Inner::Digest, partial_header: Header<()>) -> (sealed: Option<
        Header<Inner::Digest>,
    >) {
        if partial_header.state_root % 2 != 0 {
            return None;
        }
        self.inner.seal(parent_digest, partial_header)
    }

    proof fn lemma_seal_preserves_fields(
        &self,
        parent_digest: Inner::Digest,
        partial_header: Header<()>,
        sealed: Option<Header<Inner::Digest>>,
    ) {
        if partial_header.state_root % 2 == 0 {
            self.inner.lemma_seal_preserves_fields(parent_digest, partial_header, sealed);
        }
    }
}

/// The decorator never accepts a header its inner engine rejects.
pub proof fn lemma_even_only_refines_inner<Inner: Consensus>(
    engine: EvenOnly<Inner>,
    parent_digest: Inner::Digest,
    header: Header<Inner::Digest>,
)
    requires
        !engine.inner.valid(parent_digest, header),
    ensures
        !engine.valid(parent_digest, header),
{
}

/// The decorator never accepts an odd state root, however the inner engine
/// would have judged the header.
pub proof fn lemma_even_only_rejects_odd_state_root<Inner: Consensus>(
    engine: EvenOnly<Inner>,
    parent_digest: Inner::Digest,
    header: Header<Inner::Digest>,
)
    requires
        header.state_root % 2 != 0,
    ensures
        !engine.valid(parent_digest, header),
{
}

/// Whatever the inner engine, a header sealed by the decorator has an even
/// state root.
pub proof fn lemma_even_only_seal_keeps_state_root_even<Inner: Consensus>(
    engine: EvenOnly<Inner>,
    parent_digest: Inner::Digest,
    partial_header: Header<()>,
    sealed: Option<Header<Inner::Digest>>,
)
    requires
        engine.seals_to(parent_digest, partial_header, sealed),
    ensures
        sealed matches Some(h) ==> h.state_root % 2 == 0,
{
    if partial_header.state_root % 2 == 0 {
        engine.inner.lemma_seal_preserves_fields(parent_digest, partial_header, sealed);
    }
}

/// A ten-header chain mined to the moderate proof-of-work difficulty whose
/// state roots are not all even: valid for the inner engine throughout,
/// partly invalid once wrapped in [`EvenOnly`]. Mining can in principle
/// exhaust every nonce, so the chain is optional.
pub fn almost_valid_but_not_all_even() -> (r: Option<Vec<Header<u64>>>)
    ensures
        r matches Some(headers) ==> {
            &&& headers@.len() == 10
            &&& forall|i: int|
                0 <= i < 10 ==> spec_hash_header(#[trigger] headers@[i]) < MODERATE_POW_THRESHOLD
            &&& headers@[0].state_root == 123
            &&& forall|i: int| 1 <= i < 10 ==> (#[trigger] headers@[i]).state_root == i
        },
{
    let pow = moderate_difficulty_pow();
    let mut headers: Vec<Header<u64>> = Vec::new();
    let first_partial: Header<()> = Header {
        parent: 123,
        height: 123,
        state_root: 123,
        extrinsics_root: 123,
        consensus_digest: (),
    };
    match pow.seal(&123, first_partial) {
        Some(h) => {
            headers.push(h);
        },
        None => {
            return None;
        },
    }
    let mut i: u64 = 1;
    while i < 10
        invariant
            pow.threshold == MODERATE_POW_THRESHOLD,
            1 <= i <= 10,
            headers@.len() == i,
            forall|j: int|
                0 <= j < i ==> spec_hash_header(#[trigger] headers@[j]) < MODERATE_POW_THRESHOLD,
            headers@[0].state_root == 123,
            forall|j: int| 1 <= j < i ==> (#[trigger] headers@[j]).state_root == j,
            forall|j: int| 0 <= j < i ==> (#[trigger] headers@[j]).height == 123 + j,
        decreases 10 - i,
    {
        let last = headers[headers.len() - 1];
        let partial: Header<()> = Header {
            parent: hash_header(&last),
            height: last.height + 1,
            state_root: i,
            extrinsics_root: i,
            consensus_digest: (),
        };
        match pow.seal(&last.consensus_digest, partial) {
            Some(h) => {
                headers.push(h);
            },
            None => {
                return None;
            },
        }
        i = i + 1;
    }
    Some(headers)
}

} // verus!
