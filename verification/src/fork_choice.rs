//! Fork choice: when several valid chains are observed, which one should a
//! client extend? There are several meaningful notions of "best", so the
//! rule is a trait. Each rule scores a chain and selects, among the
//! candidates, the first one of maximal score.
//!
//! The chains compared need not share a genesis — comparing only the
//! divergent suffixes of two sibling chains is equally meaningful. The
//! rules assume their inputs are structurally valid and do not re-verify
//! them.

use vstd::prelude::*;

use crate::hashing::{hash_header, hash_words, spec_hash_header};
use crate::header::{with_digest, Block, Header};

verus! {

/// The proof-of-work threshold of the heaviest-chain rule: a header's work
/// is how far below this value its digest lies.
pub const THRESHOLD: u64 = u64::MAX / 100;

/// The work a single header embodies: the further its digest lies below
/// the threshold, the more attempts finding it took on average. A digest
/// at or above the threshold embodies no work.
pub open spec fn header_work(h: Header<u64>) -> int {
    if spec_hash_header(h) < THRESHOLD {
        THRESHOLD - spec_hash_header(h)
    } else {
        0
    }
}

/// The accumulated work of a chain: the sum of its headers' work.
pub open spec fn chain_work(chain: Seq<Header<u64>>) -> int
    decreases chain.len(),
{
    if chain.len() == 0 {
        0
    } else {
        chain_work(chain.drop_last()) + header_work(chain.last())
    }
}

/// How many headers of the chain have an even digest.
pub open spec fn even_hash_count(chain: Seq<Header<u64>>) -> int
    decreases chain.len(),
{
    if chain.len() == 0 {
        0
    } else {
        even_hash_count(chain.drop_last()) + (
        if spec_hash_header(chain.last()) % 2 == 0 {
            1int
        } else {
            0int
        })
    }
}

proof fn lemma_chain_work_bound(chain: Seq<Header<u64>>)
    ensures
        0 <= chain_work(chain) <= chain.len() * (THRESHOLD as int),
    decreases chain.len(),
{
    if chain.len() > 0 {
        lemma_chain_work_bound(chain.drop_last());
        assert((chain.len() - 1) * (THRESHOLD as int) + (THRESHOLD as int) == chain.len() * (
        THRESHOLD as int)) by (nonlinear_arith);
    }
}

proof fn lemma_even_hash_count_bound(chain: Seq<Header<u64>>)
    ensures
        0 <= even_hash_count(chain) <= chain.len(),
    decreases chain.len(),
{
    if chain.len() > 0 {
        lemma_even_hash_count_bound(chain.drop_last());
    }
}

/// The sequences of headers the candidate slices hold.
pub open spec fn chain_views(chains: Seq<&[Header<u64>]>) -> Seq<Seq<Header<u64>>> {
    Seq::new(chains.len(), |i: int| chains[i]@)
}

/// A rule for judging which of several candidate chains is best.
pub trait ForkChoice: Sized {
    /// The score this rule assigns to a chain; of two chains, the one with
    /// the strictly higher score is the better.
    spec fn chain_score(chain: Seq<Header<u64>>) -> int;

    /// Is the first chain strictly better than the second?
    fn first_chain_is_better(chain_1: &[Header<u64>], chain_2: &[Header<u64>]) -> (r: bool)
        ensures
            r == (Self::chain_score(chain_1@) > Self::chain_score(chain_2@)),
    ;

    /// Of the given candidates, the first one of maximal score: no
    /// candidate scores higher, and every earlier candidate scores lower.
    fn best_chain<'a>(candidate_chains: &[&'a [Header<u64>]]) -> (best: &'a [Header<u64>])
        requires
            candidate_chains@.len() > 0,
        ensures
            ({
                let chains = chain_views(candidate_chains@);
                exists|i: int|
                    #![trigger chains[i]]
                    {
                        &&& 0 <= i < chains.len()
                        &&& best@ == chains[i]
                        &&& forall|j: int|
                            0 <= j < chains.len() ==> Self::chain_score(#[trigger] chains[j])
                                <= Self::chain_score(chains[i])
                        &&& forall|j: int|
                            0 <= j < i ==> Self::chain_score(#[trigger] chains[j])
                                < Self::chain_score(chains[i])
                    }
            }),
    ;
}

/// What `best_chain` guarantees, named: `best` stands at position `i`, no
/// candidate scores higher, and every candidate before `i` scores lower.
pub open spec fn is_first_best<F: ForkChoice>(
    chains: Seq<Seq<Header<u64>>>,
    best: Seq<Header<u64>>,
    i: int,
) -> bool {
    &&& 0 <= i < chains.len()
    &&& best == chains[i]
    &&& forall|j: int|
        0 <= j < chains.len() ==> F::chain_score(#[trigger] chains[j]) <= F::chain_score(chains[i])
    &&& forall|j: int| 0 <= j < i ==> F::chain_score(#[trigger] chains[j]) < F::chain_score(chains[i])
}

/// The selection contract pins its result down: two selections from the
/// same candidates stand at the same position and are the same chain.
pub proof fn lemma_best_chain_unique<F: ForkChoice>(
    chains: Seq<Seq<Header<u64>>>,
    best_1: Seq<Header<u64>>,
    i_1: int,
    best_2: Seq<Header<u64>>,
    i_2: int,
)
    requires
        is_first_best::<F>(chains, best_1, i_1),
        is_first_best::<F>(chains, best_2, i_2),
    ensures
        i_1 == i_2,
        best_1 == best_2,
{
}

/// Selection is idempotent: offered only the chain it previously selected,
/// any rule selects that same chain again.
pub proof fn lemma_best_chain_idempotent<F: ForkChoice>(
    chains: Seq<Seq<Header<u64>>>,
    best: Seq<Header<u64>>,
    i: int,
)
    requires
        is_first_best::<F>(chains, best, i),
    ensures
        is_first_best::<F>(seq![best], best, 0),
        forall|again: Seq<Header<u64>>, k: int|
            #![trigger is_first_best::<F>(seq![best], again, k)]
            is_first_best::<F>(seq![best], again, k) ==> again == best,
{
}

/// Appending a header never lowers a chain's accumulated work, and
/// appending one whose digest is below the threshold strictly raises it.
pub proof fn lemma_chain_work_monotone(chain: Seq<Header<u64>>, h: Header<u64>)
    ensures
        chain_work(chain.push(h)) == chain_work(chain) + header_work(h),
        chain_work(chain.push(h)) >= chain_work(chain),
        spec_hash_header(h) < THRESHOLD ==> chain_work(chain.push(h)) > chain_work(chain),
{
    assert(chain.push(h).drop_last() =~= chain);
}

/// A chain whose headers all hash at or above the threshold embodies no
/// work at all.
pub proof fn lemma_chain_work_zero_above_threshold(chain: Seq<Header<u64>>)
    requires
        forall|i: int| 0 <= i < chain.len() ==> spec_hash_header(#[trigger] chain[i]) >= THRESHOLD,
    ensures
        chain_work(chain) == 0,
    decreases chain.len(),
{
    if chain.len() > 0 {
        assert forall|i: int|
            0 <= i < chain.drop_last().len() implies spec_hash_header(
            #[trigger] chain.drop_last()[i],
        ) >= THRESHOLD by {
            assert(chain.drop_last()[i] == chain[i]);
        }
        lemma_chain_work_zero_above_threshold(chain.drop_last());
        assert(chain.last() == chain[chain.len() - 1]);
    }
}

fn header_work_exec(h: &Header<u64>) -> (w: u64)
    ensures
        w == header_work(*h),
{
    let digest = hash_header(h);
    if digest < THRESHOLD {
        THRESHOLD - digest
    } else {
        0
    }
}

fn total_work(chain: &[Header<u64>]) -> (w: u128)
    ensures
        w == chain_work(chain@),
{
    let mut acc: u128 = 0;
    let mut i: usize = 0;
    while i < chain.len()
        invariant
            i <= chain@.len(),
            acc == chain_work(chain@.subrange(0, i as int)),
        decreases chain@.len() - i,
    {
        proof {
            assert(chain@.subrange(0, i as int + 1).drop_last() =~= chain@.subrange(0, i as int));
            lemma_chain_work_bound(chain@.subrange(0, i as int));
            assert((i as int) * (THRESHOLD as int) + (THRESHOLD as int) <= u128::MAX)
                by (nonlinear_arith)
                requires
                    0 <= (i as int) < 0x1_0000_0000_0000_0000,
                    0 <= (THRESHOLD as int) < 0x1_0000_0000_0000_0000,
            ;
        }
        let hw = header_work_exec(&chain[i]);
        acc = acc + (hw as u128);
        i = i + 1;
    }
    proof {
        assert(chain@.subrange(0, chain@.len() as int) =~= chain@);
    }
    acc
}

fn count_even_hashes(chain: &[Header<u64>]) -> (c: usize)
    ensures
        c == even_hash_count(chain@),
{
    let mut count: usize = 0;
    let mut i: usize = 0;
    while i < chain.len()
        invariant
            i <= chain@.len(),
            count == even_hash_count(chain@.subrange(0, i as int)),
        decreases chain@.len() - i,
    {
        proof {
            assert(chain@.subrange(0, i as int + 1).drop_last() =~= chain@.subrange(0, i as int));
            lemma_even_hash_count_bound(chain@.subrange(0, i as int));
        }
        if hash_header(&chain[i]) % 2 == 0 {
            count = count + 1;
        }
        i = i + 1;
    }
    proof {
        assert(chain@.subrange(0, chain@.len() as int) =~= chain@);
    }
    count
}

/// The best chain is simply the longest one.
pub struct LongestChainRule;

impl ForkChoice for LongestChainRule {
    open spec fn chain_score(chain: Seq<Header<u64>>) -> int {
        chain.len() as int
    }

    fn first_chain_is_better(chain_1: &[Header<u64>], chain_2: &[Header<u64>]) -> (r: bool) {
        chain_1.len() > chain_2.len()
    }

    fn best_chain<'a>(candidate_chains: &[&'a [Header<u64>]]) -> (best: &'a [Header<u64>]) {
        let ghost chains = chain_views(candidate_chains@);
        let mut best_idx: usize = 0;
        let mut best_len = candidate_chains[0].len();
        proof {
            assert(chains[0] == candidate_chains@[0]@);
        }
        let mut i: usize = 1;
        while i < candidate_chains.len()
            invariant
                chains == chain_views(candidate_chains@),
                chains.len() == candidate_chains@.len(),
                1 <= i <= candidate_chains@.len(),
                best_idx < i,
                best_len == chains[best_idx as int].len(),
                forall|j: int|
                    0 <= j < i ==> (#[trigger] chains[j]).len() <= chains[best_idx as int].len(),
                forall|j: int|
                    0 <= j < best_idx ==> (#[trigger] chains[j]).len()
                        < chains[best_idx as int].len(),
            decreases candidate_chains@.len() - i,
        {
            proof {
                assert(chains[i as int] == candidate_chains@[i as int]@);
            }
            let len_i = candidate_chains[i].len();
            if len_i > best_len {
                best_idx = i;
                best_len = len_i;
            }
            i = i + 1;
        }
        let result = candidate_chains[best_idx];
        proof {
            assert(result@ == chains[best_idx as int]);
            let sel = best_idx as int;
            assert(0 <= sel < chains.len() && result@ == chains[sel] && (forall|j: int|
                0 <= j < chains.len() ==> Self::chain_score(#[trigger] chains[j])
                    <= Self::chain_score(chains[sel])) && (forall|j: int|
                0 <= j < sel ==> Self::chain_score(#[trigger] chains[j]) < Self::chain_score(
                    chains[sel],
                )));
        }
        result
    }
}

/// The best chain is the one with the most accumulated work: in a
/// proof-of-work setting, the hardest one to produce.
pub struct HeaviestChainRule;

impl ForkChoice for HeaviestChainRule {
    open spec fn chain_score(chain: Seq<Header<u64>>) -> int {
        chain_work(chain)
    }

    fn first_chain_is_better(chain_1: &[Header<u64>], chain_2: &[Header<u64>]) -> (r: bool) {
        total_work(chain_1) > total_work(chain_2)
    }

    fn best_chain<'a>(candidate_chains: &[&'a [Header<u64>]]) -> (best: &'a [Header<u64>]) {
        let ghost chains = chain_views(candidate_chains@);
        let mut best_idx: usize = 0;
        let mut best_work = total_work(candidate_chains[0]);
        proof {
            assert(chains[0] == candidate_chains@[0]@);
        }
        let mut i: usize = 1;
        while i < candidate_chains.len()
            invariant
                chains == chain_views(candidate_chains@),
                chains.len() == candidate_chains@.len(),
                1 <= i <= candidate_chains@.len(),
                best_idx < i,
                best_work == chain_work(chains[best_idx as int]),
                forall|j: int|
                    0 <= j < i ==> chain_work(#[trigger] chains[j]) <= chain_work(
                        chains[best_idx as int],
                    ),
                forall|j: int|
                    0 <= j < best_idx ==> chain_work(#[trigger] chains[j]) < chain_work(
                        chains[best_idx as int],
                    ),
            decreases candidate_chains@.len() - i,
        {
            proof {
                assert(chains[i as int] == candidate_chains@[i as int]@);
            }
            let work = total_work(candidate_chains[i]);
            if work > best_work {
                best_idx = i;
                best_work = work;
            }
            i = i + 1;
        }
        let result = candidate_chains[best_idx];
        proof {
            assert(result@ == chains[best_idx as int]);
            let sel = best_idx as int;
            assert(0 <= sel < chains.len() && result@ == chains[sel] && (forall|j: int|
                0 <= j < chains.len() ==> Self::chain_score(#[trigger] chains[j])
                    <= Self::chain_score(chains[sel])) && (forall|j: int|
                0 <= j < sel ==> Self::chain_score(#[trigger] chains[j]) < Self::chain_score(
                    chains[sel],
                )));
        }
        result
    }
}

/// The best chain is the one with the most headers whose digest is even: a
/// stand-in for rules that count blocks of a preferred kind, such as
/// primary-authored blocks or authority-signed blocks in a hybrid chain.
pub struct MostBlocksWithEvenHash;

impl ForkChoice for MostBlocksWithEvenHash {
    open spec fn chain_score(chain: Seq<Header<u64>>) -> int {
        even_hash_count(chain)
    }

    fn first_chain_is_better(chain_1: &[Header<u64>], chain_2: &[Header<u64>]) -> (r: bool) {
        count_even_hashes(chain_1) > count_even_hashes(chain_2)
    }

    fn best_chain<'a>(candidate_chains: &[&'a [Header<u64>]]) -> (best: &'a [Header<u64>]) {
        let ghost chains = chain_views(candidate_chains@);
        let mut best_idx: usize = 0;
        let mut best_count = count_even_hashes(candidate_chains[0]);
        proof {
            assert(chains[0] == candidate_chains@[0]@);
        }
        let mut i: usize = 1;
        while i < candidate_chains.len()
            invariant
                chains == chain_views(candidate_chains@),
                chains.len() == candidate_chains@.len(),
                1 <= i <= candidate_chains@.len(),
                best_idx < i,
                best_count == even_hash_count(chains[best_idx as int]),
                forall|j: int|
                    0 <= j < i ==> even_hash_count(#[trigger] chains[j]) <= even_hash_count(
                        chains[best_idx as int],
                    ),
                forall|j: int|
                    0 <= j < best_idx ==> even_hash_count(#[trigger] chains[j]) < even_hash_count(
                        chains[best_idx as int],
                    ),
            decreases candidate_chains@.len() - i,
        {
            proof {
                assert(chains[i as int] == candidate_chains@[i as int]@);
            }
            let count = count_even_hashes(candidate_chains[i]);
            if count > best_count {
                best_idx = i;
                best_count = count;
            }
            i = i + 1;
        }
        let result = candidate_chains[best_idx];
        proof {
            assert(result@ == chains[best_idx as int]);
            let sel = best_idx as int;
            assert(0 <= sel < chains.len() && result@ == chains[sel] && (forall|j: int|
                0 <= j < chains.len() ==> Self::chain_score(#[trigger] chains[j])
                    <= Self::chain_score(chains[sel])) && (forall|j: int|
                0 <= j < sel ==> Self::chain_score(#[trigger] chains[j]) < Self::chain_score(
                    chains[sel],
                )));
        }
        result
    }
}

/// A nonce improves a block under mining when it brings the header's digest
/// below the given threshold and below the header's previous digest.
pub open spec fn mined_improves(orig: Header<u64>, threshold: u64, nonce: u64) -> bool {
    let h = with_digest(orig, nonce);
    spec_hash_header(h) < threshold && spec_hash_header(h) < spec_hash_header(orig)
}

/// Re-mine a block to a harder difficulty: try nonces from zero upward and
/// keep the first one that lowers the header's digest below both the
/// threshold and its previous value. When no nonce improves the block, the
/// search ends with the last nonce in place.
pub fn mine_extra_hard(block: &mut Block, threshold: u64)
    ensures
        final(block).body@ == old(block).body@,
        final(block).header.parent == old(block).header.parent,
        final(block).header.height == old(block).header.height,
        final(block).header.state_root == old(block).header.state_root,
        final(block).header.extrinsics_root == old(block).header.extrinsics_root,
        (exists|n: u64| mined_improves(old(block).header, threshold, n)) ==> {
            let d = final(block).header.consensus_digest;
            &&& mined_improves(old(block).header, threshold, d)
            &&& forall|m: u64| m < d ==> !mined_improves(old(block).header, threshold, m)
        },
        !(exists|n: u64| mined_improves(old(block).header, threshold, n))
            ==> final(block).header.consensus_digest == u64::MAX,
{
    let ghost orig = old(block).header;
    let old_hash = hash_header(&block.header);
    let mut nonce: u64 = 0;
    loop
        invariant
            block.body@ == old(block).body@,
            orig == old(block).header,
            block.header.parent == orig.parent,
            block.header.height == orig.height,
            block.header.state_root == orig.state_root,
            block.header.extrinsics_root == orig.extrinsics_root,
            old_hash == spec_hash_header(orig),
            forall|m: u64| m < nonce ==> !mined_improves(orig, threshold, m),
        decreases u64::MAX - nonce,
    {
        block.header.consensus_digest = nonce;
        proof {
            assert(block.header == with_digest(orig, nonce));
        }
        let new_hash = hash_header(&block.header);
        if old_hash > new_hash && new_hash < threshold {
            return ;
        }
        if nonce == u64::MAX {
            proof {
                assert forall|m: u64| !mined_improves(orig, threshold, m) by {
                    if m == u64::MAX {
                        assert(with_digest(orig, m) == block.header);
                    }
                }
            }
            return ;
        }
        nonce = nonce + 1;
    }
}

/// Adjacent headers link up: each one names its predecessor's digest as
/// its parent and sits one height above it.
pub open spec fn linked(chain: Seq<Header<u64>>) -> bool {
    forall|i: int|
        1 <= i < chain.len() ==> ((#[trigger] chain[i]).parent == spec_hash_header(chain[i - 1])
            && chain[i].height == chain[i - 1].height + 1)
}

proof fn lemma_linked_extend(chain: Seq<Header<u64>>, h: Header<u64>)
    requires
        linked(chain),
        chain.len() > 0,
        h.parent == spec_hash_header(chain.last()),
        h.height == chain.last().height + 1,
    ensures
        linked(chain.push(h)),
{
    let extended = chain.push(h);
    assert forall|i: int|
        1 <= i < extended.len() implies ((#[trigger] extended[i]).parent == spec_hash_header(
        extended[i - 1],
    ) && extended[i].height == extended[i - 1].height + 1) by {
        if i < chain.len() {
            assert(extended[i] == chain[i]);
            assert(extended[i - 1] == chain[i - 1]);
        } else {
            assert(extended[i] == h);
            assert(extended[i - 1] == chain[i - 1]);
            assert(chain[i - 1] == chain.last());
        }
    }
}

/// Two linked chains sharing a three-header, genesis-rooted prefix: the
/// first suffix is longer, while every header of the second is mined below
/// a tenth of the threshold, so the second suffix embodies far more work.
/// Mining can in principle fail to reach that difficulty, so the fork is
/// optional.
pub fn create_fork_one_side_longer_other_side_heavier() -> (r: Option<
    (Vec<Header<u64>>, Vec<Header<u64>>, Vec<Header<u64>>),
>)
    ensures
        r matches Some(fork) ==> {
            &&& fork.0@.len() == 3
            &&& fork.1@.len() == 5
            &&& fork.2@.len() == 4
            &&& fork.0@[0] == (Header {
                parent: 0u64,
                height: 0u64,
                state_root: 0u64,
                extrinsics_root: 0u64,
                consensus_digest: 0u64,
            })
            &&& linked(fork.0@ + fork.1@)
            &&& linked(fork.0@ + fork.2@)
            &&& forall|i: int|
                0 <= i < fork.2@.len() ==> spec_hash_header(#[trigger] fork.2@[i]) < THRESHOLD / 10
        },
{
    let mut prefix: Vec<Header<u64>> = Vec::new();
    let g = Header::genesis();
    prefix.push(g);
    let words_1 = vec![1u64, 2u64, 3u64];
    let h1 = g.child(hash_words(words_1.as_slice()), 6);
    prefix.push(h1);
    proof {
        lemma_linked_extend(seq![g], h1);
        assert(prefix@ =~= seq![g].push(h1));
    }
    let words_2 = vec![3u64, 4u64, 5u64];
    let h2 = h1.child(hash_words(words_2.as_slice()), 18);
    prefix.push(h2);
    proof {
        lemma_linked_extend(seq![g].push(h1), h2);
        assert(prefix@ =~= seq![g].push(h1).push(h2));
    }

    let mut longer: Vec<Header<u64>> = Vec::new();
    let mut tip = h2;
    let mut k: u64 = 0;
    while k < 5
        invariant
            prefix@.len() == 3,
            k <= 5,
            longer@.len() == k,
            linked(prefix@ + longer@),
            (prefix@ + longer@).last() == tip,
            tip.height == 2 + k,
        decreases 5 - k,
    {
        let words = vec![k];
        let next = tip.child(hash_words(words.as_slice()), 18 + k);
        proof {
            lemma_linked_extend(prefix@ + longer@, next);
            assert((prefix@ + longer@).push(next) =~= prefix@ + longer@.push(next));
        }
        longer.push(next);
        tip = next;
        k = k + 1;
    }

    let mut heavier: Vec<Header<u64>> = Vec::new();
    let mut mined_tip = h2;
    let mut m: u64 = 0;
    while m < 4
        invariant
            prefix@.len() == 3,
            m <= 4,
            heavier@.len() == m,
            linked(prefix@ + heavier@),
            (prefix@ + heavier@).last() == mined_tip,
            mined_tip.height == 2 + m,
            forall|i: int|
                0 <= i < heavier@.len() ==> spec_hash_header(#[trigger] heavier@[i]) < THRESHOLD
                    / 10,
        decreases 4 - m,
    {
        let words = vec![m];
        let next = mined_tip.child(hash_words(words.as_slice()), 28 + m);
        let mut block = Block { header: next, body: vec![m] };
        mine_extra_hard(&mut block, THRESHOLD / 10);
        if !(hash_header(&block.header) < THRESHOLD / 10) {
            return None;
        }
        proof {
            lemma_linked_extend(prefix@ + heavier@, block.header);
            assert((prefix@ + heavier@).push(block.header) =~= prefix@ + heavier@.push(
                block.header,
            ));
        }
        let tip_header = block.header;
        heavier.push(tip_header);
        mined_tip = tip_header;
        m = m + 1;
    }

    Some((prefix, longer, heavier))
}

} // verus!
