//! Proof-of-authority engines: a set of identities is allowed to sign
//! blocks, instead of a single dictator or an open mining race.
//!
//! Three schedules are offered. [`SimplePoa`] accepts any member of the
//! set. [`PoaRoundRobinByHeight`] accepts exactly one signer per height,
//! rotating through the set; genesis is exempt. [`PoaRoundRobinBySlot`]
//! rotates through discrete time slots instead: a header carries the slot
//! it was signed for, slots must strictly increase from parent to child
//! (skipping slots is allowed, repeating or rewinding them is not), and the
//! signer must be the one scheduled for that slot.

use vstd::prelude::*;

use crate::consensus::{Consensus, ConsensusAuthority};
use crate::header::{attach_digest, with_digest, Header};

verus! {

/// Any authority in the set may sign any header. Sealing stamps the first
/// authority, and fails only when the set is empty.
pub struct SimplePoa {
    pub authorities: Vec<ConsensusAuthority>,
}

fn contains_authority(authorities: &Vec<ConsensusAuthority>, a: ConsensusAuthority) -> (r: bool)
    ensures
        r == authorities@.contains(a),
{
    let mut i: usize = 0;
    while i < authorities.len()
        invariant
            i <= authorities@.len(),
            forall|j: int| 0 <= j < i ==> authorities@[j] != a,
        decreases authorities@.len() - i,
    {
        if authorities[i] == a {
            return true;
        }
        i = i + 1;
    }
    false
}

impl Consensus for SimplePoa {
    type Digest = ConsensusAuthority;

    open spec fn valid(
        &self,
        parent_digest: ConsensusAuthority,
        header: Header<ConsensusAuthority>,
    ) -> bool {
        self.authorities@.contains(header.consensus_digest)
    }

    open spec fn seals_to(
        &self,
        parent_digest: ConsensusAuthority,
        partial_header: Header<()>,
        sealed: Option<Header<ConsensusAuthority>>,
    ) -> bool {
        if self.authorities@.len() == 0 {
            sealed is None
        } else {
            sealed == Some(with_digest(partial_header, self.authorities@[0]))
        }
    }

    /// Check that some authority in the set signed the header.
    fn validate(
        &self,
        parent_digest: &ConsensusAuthority,
        header: &Header<ConsensusAuthority>,
    ) -> (r: bool) {
        contains_authority(&self.authorities, header.consensus_digest)
    }

    /// Stamp the first authority, or fail on an empty set.
    fn seal(&self, parent_digest: &ConsensusAuthority, partial_header: Header<()>) -> (sealed:
        Option<Header<ConsensusAuthority>>) {
        if self.authorities.len() == 0 {
            return None;
        }
        Some(attach_digest(&partial_header, self.authorities[0]))
    }

    proof fn lemma_seal_preserves_fields(
        &self,
        parent_digest: ConsensusAuthority,
        partial_header: Header<()>,
        sealed: Option<Header<ConsensusAuthority>>,
    ) {
    }
}

/// The authority scheduled for a 1-based turn number: turn `t` falls to
/// `authorities[(t - 1) mod len]`.
pub open spec fn scheduled_authority(authorities: Seq<ConsensusAuthority>, turn: u64) -> ConsensusAuthority
    recommends
        authorities.len() > 0,
        turn >= 1,
{
    authorities[((turn - 1) as int) % (authorities.len() as int)]
}

fn scheduled_authority_exec(authorities: &Vec<ConsensusAuthority>, turn: u64) -> (a:
    ConsensusAuthority)
    requires
        authorities@.len() > 0,
        turn >= 1,
    ensures
        a == scheduled_authority(authorities@, turn),
{
    let pos = ((turn - 1) % (authorities.len() as u64)) as usize;
    authorities[pos]
}

/// One authority is valid at each height, rotating through the set in
/// order; genesis needs no seal and is always valid.
pub struct PoaRoundRobinByHeight {
    pub authorities: Vec<ConsensusAuthority>,
}

impl Consensus for PoaRoundRobinByHeight {
    type Digest = ConsensusAuthority;

    open spec fn valid(
        &self,
        parent_digest: ConsensusAuthority,
        header: Header<ConsensusAuthority>,
    ) -> bool {
        if header.height == 0 {
            true
        } else if self.authorities@.len() == 0 {
            false
        } else {
            header.consensus_digest == scheduled_authority(self.authorities@, header.height)
        }
    }

    open spec fn seals_to(
        &self,
        parent_digest: ConsensusAuthority,
        partial_header: Header<()>,
        sealed: Option<Header<ConsensusAuthority>>,
    ) -> bool {
        if partial_header.height == 0 || self.authorities@.len() == 0 {
            sealed is None
        } else {
            sealed == Some(
                with_digest(
                    partial_header,
                    scheduled_authority(self.authorities@, partial_header.height),
                ),
            )
        }
    }

    /// Genesis is always valid; any other header must be signed by the
    /// authority whose turn its height is.
    fn validate(
        &self,
        parent_digest: &ConsensusAuthority,
        header: &Header<ConsensusAuthority>,
    ) -> (r: bool) {
        if header.height == 0 {
            return true;
        }
        if self.authorities.len() == 0 {
            return false;
        }
        let expected = scheduled_authority_exec(&self.authorities, header.height);
        expected == header.consensus_digest
    }

    /// Stamp the authority whose turn the height is; genesis takes no seal,
    /// and an empty set cannot sign.
    fn seal(&self, parent_digest: &ConsensusAuthority, partial_header: Header<()>) -> (sealed:
        Option<Header<ConsensusAuthority>>) {
        if partial_header.height == 0 || self.authorities.len() == 0 {
            return None;
        }
        let signer = scheduled_authority_exec(&self.authorities, partial_header.height);
        Some(attach_digest(&partial_header, signer))
    }

    proof fn lemma_seal_preserves_fields(
        &self,
        parent_digest: ConsensusAuthority,
        partial_header: Header<()>,
        sealed: Option<Header<ConsensusAuthority>>,
    ) {
    }
}

/// The digest of the slot-based rotation: the slot the header was signed
/// for, and the signature itself.
#[derive(Clone, Copy, Debug, PartialEq, Eq, Structural)]
pub struct SlotDigest {
    pub slot: u64,
    pub signature: ConsensusAuthority,
}

/// Authorities take turns by time slot rather than by height, so a silent
/// authority only loses its slot instead of halting the chain. A child's
/// slot must exceed its parent's: slots may be skipped, never repeated or
/// rewound.
pub struct PoaRoundRobinBySlot {
    pub authorities: Vec<ConsensusAuthority>,
}

impl Consensus for PoaRoundRobinBySlot {
    type Digest = SlotDigest;

    open spec fn valid(&self, parent_digest: SlotDigest, header: Header<SlotDigest>) -> bool {
        if header.height == 0 {
            true
        } else if self.authorities@.len() == 0 {
            false
        } else {
            &&& header.consensus_digest.slot > parent_digest.slot
            &&& header.consensus_digest.signature == scheduled_authority(
                self.authorities@,
                header.consensus_digest.slot,
            )
        }
    }

    open spec fn seals_to(
        &self,
        parent_digest: SlotDigest,
        partial_header: Header<()>,
        sealed: Option<Header<SlotDigest>>,
    ) -> bool {
        if partial_header.height == 0 || self.authorities@.len() == 0 || parent_digest.slot
            == u64::MAX {
            sealed is None
        } else {
            sealed == Some(
                with_digest(
                    partial_header,
                    SlotDigest {
                        slot: (parent_digest.slot + 1) as u64,
                        signature: scheduled_authority(
                            self.authorities@,
                            (parent_digest.slot + 1) as u64,
                        ),
                    },
                ),
            )
        }
    }

    /// Genesis is always valid; any other header must advance the slot and
    /// be signed by the authority whose turn that slot is. A slot of zero
    /// can never advance past its parent, so it is rejected here without
    /// ever computing `slot - 1`.
    fn validate(&self, parent_digest: &SlotDigest, header: &Header<SlotDigest>) -> (r: bool) {
        if header.height == 0 {
            return true;
        }
        if self.authorities.len() == 0 {
            return false;
        }
        let slot = header.consensus_digest.slot;
        if slot <= parent_digest.slot {
            return false;
        }
        let expected = scheduled_authority_exec(&self.authorities, slot);
        expected == header.consensus_digest.signature
    }

    /// Seal for the slot after the parent's. Genesis takes no seal, an
    /// empty set cannot sign, and a parent already at the last slot leaves
    /// no slot to sign for.
    fn seal(&self, parent_digest: &SlotDigest, partial_header: Header<()>) -> (sealed: Option<
        Header<SlotDigest>,
    >) {
        if partial_header.height == 0 || self.authorities.len() == 0 || parent_digest.slot
            == u64::MAX {
            return None;
        }
        let slot = parent_digest.slot + 1;
        let signature = scheduled_authority_exec(&self.authorities, slot);
        Some(attach_digest(&partial_header, SlotDigest { slot, signature }))
    }

    proof fn lemma_seal_preserves_fields(
        &self,
        parent_digest: SlotDigest,
        partial_header: Header<()>,
        sealed: Option<Header<SlotDigest>>,
    ) {
    }
}

/// A header with the given digest and height, over fixed content roots and
/// parent reference.
pub fn create_header(digest: ConsensusAuthority, height: u64) -> (h: Header<ConsensusAuthority>)
    ensures
        h == (Header {
            parent: 123u64,
            height: height,
            state_root: 123u64,
            extrinsics_root: 123u64,
            consensus_digest: digest,
        }),
{
    Header { parent: 123, height, state_root: 123, extrinsics_root: 123, consensus_digest: digest }
}

/// Genesis is exempt under the height rotation: a genesis header is always
/// accepted, and sealing one is always refused.
pub proof fn lemma_round_robin_by_height_genesis(
    engine: PoaRoundRobinByHeight,
    parent_digest: ConsensusAuthority,
    header: Header<ConsensusAuthority>,
    partial_header: Header<()>,
    sealed: Option<Header<ConsensusAuthority>>,
)
    requires
        header.height == 0,
        partial_header.height == 0,
        engine.seals_to(parent_digest, partial_header, sealed),
    ensures
        engine.valid(parent_digest, header),
        sealed is None,
{
}

/// At a positive height, with a nonempty authority set, the one valid
/// signer is the authority whose turn that height is: a header signed by
/// anyone else is rejected.
pub proof fn lemma_round_robin_by_height_unique_signer(
    engine: PoaRoundRobinByHeight,
    parent_digest: ConsensusAuthority,
    header: Header<ConsensusAuthority>,
)
    requires
        header.height > 0,
        engine.authorities@.len() > 0,
    ensures
        engine.valid(parent_digest, header) <==> header.consensus_digest == scheduled_authority(
            engine.authorities@,
            header.height,
        ),
{
}

/// Genesis is exempt under the slot rotation as well.
pub proof fn lemma_round_robin_by_slot_genesis(
    engine: PoaRoundRobinBySlot,
    parent_digest: SlotDigest,
    header: Header<SlotDigest>,
    partial_header: Header<()>,
    sealed: Option<Header<SlotDigest>>,
)
    requires
        header.height == 0,
        partial_header.height == 0,
        engine.seals_to(parent_digest, partial_header, sealed),
    ensures
        engine.valid(parent_digest, header),
        sealed is None,
{
}

/// A header whose slot repeats or rewinds its parent's slot is rejected,
/// no matter who signed it.
pub proof fn lemma_round_robin_by_slot_needs_increasing_slot(
    engine: PoaRoundRobinBySlot,
    parent_digest: SlotDigest,
    header: Header<SlotDigest>,
)
    requires
        header.height > 0,
        header.consensus_digest.slot <= parent_digest.slot,
    ensures
        !engine.valid(parent_digest, header),
{
}

/// Skipping slots is allowed: any slot beyond the parent's is accepted,
/// provided its scheduled authority signed — and only then.
pub proof fn lemma_round_robin_by_slot_accepts_skipped_slots(
    engine: PoaRoundRobinBySlot,
    parent_digest: SlotDigest,
    header: Header<SlotDigest>,
)
    requires
        header.height > 0,
        engine.authorities@.len() > 0,
        header.consensus_digest.slot > parent_digest.slot,
    ensures
        engine.valid(parent_digest, header) <==> header.consensus_digest.signature
            == scheduled_authority(engine.authorities@, header.consensus_digest.slot),
{
}

} // verus!
