use chaincore::alternating::{AlternatingPowPoa, PowOrPoaDigest};
use chaincore::consensus::{Consensus, ConsensusAuthority};
use chaincore::dictator::DictatorConsensus;
use chaincore::even_only::{almost_valid_but_not_all_even, EvenOnly};
use chaincore::header::Header;
use chaincore::poa::{create_header, PoaRoundRobinByHeight, PoaRoundRobinBySlot, SimplePoa, SlotDigest};
use chaincore::pow::moderate_difficulty_pow;

#[test]
fn simple_poa_validate() {
    let poa = SimplePoa {
        authorities: vec![ConsensusAuthority::Alice, ConsensusAuthority::Bob],
    };

    let valid_header = create_header(ConsensusAuthority::Alice, 1);
    let invalid_header = create_header(ConsensusAuthority::Charlie, 1);

    assert!(poa.validate(&ConsensusAuthority::Alice, &valid_header));
    assert!(!poa.validate(&ConsensusAuthority::Alice, &invalid_header));
}

#[test]
fn simple_poa_seal() {
    let poa = SimplePoa { authorities: vec![ConsensusAuthority::Alice] };

    let partial_header = Header::<()> {
        consensus_digest: (),
        height: 1,
        parent: 123,
        state_root: 123,
        extrinsics_root: 123,
    };

    if let Some(sealed_header) = poa.seal(&ConsensusAuthority::Alice, partial_header) {
        assert_eq!(sealed_header.consensus_digest, ConsensusAuthority::Alice);
    } else {
        panic!("Seal method failed");
    }
}

#[test]
fn poa_round_robin_validate() {
    let poa = PoaRoundRobinByHeight {
        authorities: vec![ConsensusAuthority::Alice, ConsensusAuthority::Bob],
    };

    // Test genesis block (height 0)
    let genesis_header = create_header(ConsensusAuthority::Alice, 0);
    assert!(
        poa.validate(&ConsensusAuthority::Alice, &genesis_header),
        "Genesis block should always be valid"
    );

    // Test validation for non-genesis blocks
    let valid_header_alice = create_header(ConsensusAuthority::Alice, 1);
    let valid_header_bob = create_header(ConsensusAuthority::Bob, 2);
    let invalid_header = create_header(ConsensusAuthority::Charlie, 3);

    assert!(
        poa.validate(&ConsensusAuthority::Alice, &valid_header_alice),
        "Header should be valid for Alice at height 1"
    );
    assert!(
        poa.validate(&ConsensusAuthority::Bob, &valid_header_bob),
        "Header should be valid for Bob at height 2"
    );
    assert!(
        !poa.validate(&ConsensusAuthority::Alice, &invalid_header),
        "Header should be invalid for Charlie at any height"
    );
}

#[test]
fn poa_round_robin_seal() {
    let poa = PoaRoundRobinByHeight {
        authorities: vec![ConsensusAuthority::Alice, ConsensusAuthority::Bob],
    };

    // Seal for non-genesis blocks
    let partial_header_1 = Header::<()> {
        height: 1,
        consensus_digest: (),
        parent: 123,
        state_root: 123,
        extrinsics_root: 123,
    };
    let partial_header_2 = Header::<()> {
        height: 2,
        extrinsics_root: 123,
        state_root: 123,
        parent: 123,
        consensus_digest: (),
    };
    let partial_header_3 = Header::<()> {
        height: 3,
        extrinsics_root: 123,
        state_root: 123,
        parent: 123,
        consensus_digest: (),
    };

    // Testing sealing for height 1 (Alice)
    if let Some(sealed_header_1) = poa.seal(&ConsensusAuthority::Alice, partial_header_1) {
        assert_eq!(
            sealed_header_1.consensus_digest,
            ConsensusAuthority::Alice,
            "Sealed header for height 1 should be Alice"
        );
    } else {
        panic!("Seal method failed for height 1");
    }

    // Testing sealing for height 2 (Bob)
    if let Some(sealed_header_2) = poa.seal(&ConsensusAuthority::Bob, partial_header_2) {
        assert_eq!(
            sealed_header_2.consensus_digest,
            ConsensusAuthority::Bob,
            "Sealed header for height 2 should be Bob"
        );
    } else {
        panic!("Seal method failed for height 2");
    }

    // Testing sealing for height 3 (Alice)
    if let Some(sealed_header_3) = poa.seal(&ConsensusAuthority::Alice, partial_header_3) {
        assert_eq!(
            sealed_header_3.consensus_digest,
            ConsensusAuthority::Alice,
            "Sealed header for height 3 should be Alice"
        );
    } else {
        panic!("Seal method failed for height 3");
    }

    // Test for genesis block (height 0)
    let genesis_partial_header = Header::<()> {
        height: 0,
        consensus_digest: (),
        parent: 123,
        state_root: 123,
        extrinsics_root: 123,
    };
    assert!(
        poa.seal(&ConsensusAuthority::Alice, genesis_partial_header).is_none(),
        "Genesis block should not be sealed"
    );
}

#[test]
fn test_almost_valid_but_not_all_even() {
    // Create an instance of EvenOnly with PoW as the inner consensus mechanism
    let pow = moderate_difficulty_pow();
    let even_only = EvenOnly { inner: pow };

    // Generate headers using the almost_valid_but_not_all_even function
    let headers = almost_valid_but_not_all_even().expect("mining failed");
    println!("headers: {:?}", headers);

    let mut parent_digest = 0u64;
    // Iterate over headers and validate each header using EvenOnly
    for header in headers {
        let is_valid_even_only = even_only.validate(&parent_digest, &header);
        let is_valid_pow = even_only.inner.validate(&parent_digest, &header);

        parent_digest = header.consensus_digest;

        // Assert that headers with an even state_root are valid, and odd ones are not
        assert_eq!(is_valid_even_only, header.state_root % 2 == 0);

        // Assert that headers are valid according to the inner consensus engine
        assert!(is_valid_pow);
    }
}

#[test]
fn dictator_accepts_only_its_own_signature() {
    let engine = DictatorConsensus { dictator: ConsensusAuthority::Alice };

    // a header signed by anyone else is invalid at every height
    for height in [0, 1, 7, 1000] {
        let bob_header = create_header(ConsensusAuthority::Bob, height);
        assert!(!engine.validate(&ConsensusAuthority::Alice, &bob_header));
        let alice_header = create_header(ConsensusAuthority::Alice, height);
        assert!(engine.validate(&ConsensusAuthority::Alice, &alice_header));
    }

    // sealing always succeeds and always stamps the dictator
    let partial_header = Header::<()> {
        height: 4,
        consensus_digest: (),
        parent: 123,
        state_root: 123,
        extrinsics_root: 123,
    };
    let sealed = engine
        .seal(&ConsensusAuthority::Alice, partial_header)
        .expect("dictator seal always succeeds");
    assert_eq!(sealed.consensus_digest, ConsensusAuthority::Alice);
    assert_eq!(sealed.height, 4);
}

#[test]
fn simple_poa_seal_fails_on_empty_set() {
    let poa = SimplePoa { authorities: vec![] };
    let partial_header = Header::<()> {
        height: 1,
        consensus_digest: (),
        parent: 123,
        state_root: 123,
        extrinsics_root: 123,
    };
    assert!(poa.seal(&ConsensusAuthority::Alice, partial_header).is_none());
}

#[test]
fn poa_round_robin_empty_set_rejects_and_cannot_seal() {
    let poa = PoaRoundRobinByHeight { authorities: vec![] };
    let header = create_header(ConsensusAuthority::Alice, 1);
    assert!(!poa.validate(&ConsensusAuthority::Alice, &header));
    let partial_header = Header::<()> {
        height: 1,
        consensus_digest: (),
        parent: 123,
        state_root: 123,
        extrinsics_root: 123,
    };
    assert!(poa.seal(&ConsensusAuthority::Alice, partial_header).is_none());
}

fn slot_header(slot: u64, signature: ConsensusAuthority, height: u64) -> Header<SlotDigest> {
    Header {
        parent: 123,
        height,
        state_root: 123,
        extrinsics_root: 123,
        consensus_digest: SlotDigest { slot, signature },
    }
}

#[test]
fn poa_by_slot_requires_strictly_increasing_slots() {
    let poa = PoaRoundRobinBySlot {
        authorities: vec![ConsensusAuthority::Alice, ConsensusAuthority::Bob],
    };
    let parent = SlotDigest { slot: 3, signature: ConsensusAuthority::Alice };

    // repeated and rewound slots are rejected regardless of the signer
    assert!(!poa.validate(&parent, &slot_header(3, ConsensusAuthority::Bob, 1)));
    assert!(!poa.validate(&parent, &slot_header(2, ConsensusAuthority::Bob, 1)));
    assert!(!poa.validate(&parent, &slot_header(0, ConsensusAuthority::Bob, 1)));

    // the next slot is valid for its scheduled authority only: slot 4 is Bob's turn
    assert!(poa.validate(&parent, &slot_header(4, ConsensusAuthority::Bob, 1)));
    assert!(!poa.validate(&parent, &slot_header(4, ConsensusAuthority::Alice, 1)));

    // skipping ahead is fine when the signer matches the slot: slot 7 is Alice's turn
    assert!(poa.validate(&parent, &slot_header(7, ConsensusAuthority::Alice, 1)));
    assert!(!poa.validate(&parent, &slot_header(7, ConsensusAuthority::Bob, 1)));

    // genesis is exempt
    assert!(poa.validate(&parent, &slot_header(0, ConsensusAuthority::Charlie, 0)));
}

#[test]
fn poa_by_slot_seals_the_next_slot() {
    let poa = PoaRoundRobinBySlot {
        authorities: vec![ConsensusAuthority::Alice, ConsensusAuthority::Bob],
    };
    let parent = SlotDigest { slot: 3, signature: ConsensusAuthority::Alice };
    let partial_header = Header::<()> {
        height: 1,
        consensus_digest: (),
        parent: 123,
        state_root: 123,
        extrinsics_root: 123,
    };
    let sealed = poa.seal(&parent, partial_header).expect("sealing the next slot succeeds");
    assert_eq!(sealed.consensus_digest, SlotDigest { slot: 4, signature: ConsensusAuthority::Bob });

    // genesis takes no seal
    let genesis_partial = Header::<()> {
        height: 0,
        consensus_digest: (),
        parent: 123,
        state_root: 123,
        extrinsics_root: 123,
    };
    assert!(poa.seal(&parent, genesis_partial).is_none());

    // a parent at the last slot leaves nothing to sign for
    let exhausted = SlotDigest { slot: u64::MAX, signature: ConsensusAuthority::Alice };
    assert!(poa.seal(&exhausted, partial_header).is_none());
}

#[test]
fn even_only_adds_its_rule_to_the_inner_engine() {
    let engine = EvenOnly { inner: DictatorConsensus { dictator: ConsensusAuthority::Alice } };

    let odd_root = create_header(ConsensusAuthority::Alice, 1); // state_root 123 is odd
    assert!(!engine.validate(&ConsensusAuthority::Alice, &odd_root));

    let mut header = create_header(ConsensusAuthority::Alice, 1);
    header.state_root = 4;
    assert!(engine.validate(&ConsensusAuthority::Alice, &header));

    // the inner engine's rejection still stands, even with an even state root
    let mut bob_header = create_header(ConsensusAuthority::Bob, 1);
    bob_header.state_root = 4;
    assert!(!engine.validate(&ConsensusAuthority::Alice, &bob_header));

    // sealing an odd state root fails before the inner engine runs
    let odd_partial = Header::<()> {
        height: 1,
        consensus_digest: (),
        parent: 123,
        state_root: 123,
        extrinsics_root: 123,
    };
    assert!(engine.seal(&ConsensusAuthority::Alice, odd_partial).is_none());

    // sealing an even state root delegates to the inner engine
    let even_partial = Header::<()> {
        height: 1,
        consensus_digest: (),
        parent: 123,
        state_root: 4,
        extrinsics_root: 123,
    };
    let sealed = engine
        .seal(&ConsensusAuthority::Alice, even_partial)
        .expect("inner dictator always seals");
    assert_eq!(sealed.state_root, 4);
    assert_eq!(sealed.consensus_digest, ConsensusAuthority::Alice);
}

#[test]
fn alternating_rejects_mismatched_digest_tags() {
    let engine = AlternatingPowPoa::new(
        moderate_difficulty_pow(),
        SimplePoa { authorities: vec![ConsensusAuthority::Alice] },
    );
    let parent = PowOrPoaDigest::Poa(ConsensusAuthority::Alice);

    // a signature at an odd (proof-of-work) height is rejected outright
    let poa_at_odd = Header {
        parent: 123,
        height: 1,
        state_root: 123,
        extrinsics_root: 123,
        consensus_digest: PowOrPoaDigest::Poa(ConsensusAuthority::Alice),
    };
    assert!(!engine.validate(&parent, &poa_at_odd));

    // a nonce at an even (authority) height is rejected outright
    let pow_at_even = Header {
        parent: 123,
        height: 2,
        state_root: 123,
        extrinsics_root: 123,
        consensus_digest: PowOrPoaDigest::Pow(5),
    };
    assert!(!engine.validate(&parent, &pow_at_even));
}

#[test]
fn alternating_seals_by_height_parity() {
    let engine = AlternatingPowPoa::new(
        moderate_difficulty_pow(),
        SimplePoa { authorities: vec![ConsensusAuthority::Alice] },
    );
    let parent = PowOrPoaDigest::Pow(0);

    // an even height is signed by the authority engine
    let even_partial = Header::<()> {
        height: 2,
        consensus_digest: (),
        parent: 123,
        state_root: 123,
        extrinsics_root: 123,
    };
    let signed = engine.seal(&parent, even_partial).expect("authority sealing succeeds");
    assert_eq!(signed.consensus_digest, PowOrPoaDigest::Poa(ConsensusAuthority::Alice));
    assert!(engine.validate(&parent, &signed));

    // an odd height is mined
    let odd_partial = Header::<()> {
        height: 3,
        consensus_digest: (),
        parent: 123,
        state_root: 123,
        extrinsics_root: 123,
    };
    let mined = engine.seal(&parent, odd_partial).expect("mining succeeds");
    assert!(matches!(mined.consensus_digest, PowOrPoaDigest::Pow(_)));
    assert!(engine.validate(&parent, &mined));

    // an empty authority set cannot seal the even heights
    let unsealable = AlternatingPowPoa::new(
        moderate_difficulty_pow(),
        SimplePoa { authorities: vec![] },
    );
    assert!(unsealable.seal(&parent, even_partial).is_none());
}

#[test]
fn round_robin_by_height_schedule_has_period_of_the_set() {
    let poa = PoaRoundRobinByHeight {
        authorities: vec![
            ConsensusAuthority::Alice,
            ConsensusAuthority::Bob,
            ConsensusAuthority::Charlie,
        ],
    };
    let expected = [
        (1, ConsensusAuthority::Alice),
        (2, ConsensusAuthority::Bob),
        (3, ConsensusAuthority::Charlie),
        (4, ConsensusAuthority::Alice),
    ];
    for (height, authority) in expected {
        assert!(poa.validate(&ConsensusAuthority::Alice, &create_header(authority, height)));
    }
}
