//! A small on-chain governance system: users submit proposals, each open for
//! votes until a stated time unit, and every user may vote at most once per
//! proposal. Time advances one unit at a time. Invalid actions — voting on an
//! unknown or expired proposal, voting twice, back-dating a proposal — leave
//! the state unchanged.

use vstd::prelude::*;

use crate::state_machine::{bump, bump_exec, StateMachine, User};

verus! {

/// A proposal under vote. Its `id` is one more than the number of proposals
/// that existed when it was added, and it accepts votes while
/// `pending_until_time_unit` has not passed.
#[derive(Debug)]
pub struct Proposal {
    pub id: u64,
    pub proposed_action: String,
    pub proposed_by: User,
    pub pending_until_time_unit: u64,
}

impl Clone for Proposal {
    fn clone(&self) -> (res: Self)
        ensures
            res == *self,
    {
        Proposal {
            id: self.id,
            proposed_action: self.proposed_action.clone(),
            proposed_by: self.proposed_by,
            pending_until_time_unit: self.pending_until_time_unit,
        }
    }
}

#[derive(Clone, Copy, Debug, PartialEq, Eq, Structural)]
pub enum VoteType {
    Aye,
    Nay,
}

/// One user's vote on one proposal.
#[derive(Clone, Copy, Debug, PartialEq, Eq, Structural)]
pub struct Vote {
    pub proposal_id: u64,
    pub vote: VoteType,
    pub user: User,
}

/// The governance ledger: all proposals ever added, all votes ever cast, and
/// how many time units have passed.
#[derive(Debug)]
pub struct GovernanceState {
    pub proposals: Vec<Proposal>,
    pub votes: Vec<Vote>,
    pub time_units_passed: u64,
}

/// Some proposal with this id exists and still accepts votes.
pub open spec fn pending(s: GovernanceState, proposal_id: u64) -> bool {
    exists|i: int|
        0 <= i < s.proposals@.len() && (#[trigger] s.proposals@[i]).id == proposal_id
            && s.proposals@[i].pending_until_time_unit >= s.time_units_passed
}

/// The user has already cast some vote on this proposal.
pub open spec fn voted(s: GovernanceState, proposal_id: u64, user: User) -> bool {
    exists|i: int|
        0 <= i < s.votes@.len() && (#[trigger] s.votes@[i]).proposal_id == proposal_id
            && s.votes@[i].user == user
}

/// All three components of the state agree.
pub open spec fn gov_unchanged(s: GovernanceState, r: GovernanceState) -> bool {
    r.proposals@ == s.proposals@ && r.votes@ == s.votes@ && r.time_units_passed
        == s.time_units_passed
}

/// What casting a vote does: when the proposal is pending and the user has
/// not voted on it yet, the vote is appended; otherwise nothing changes.
pub open spec fn vote_rel(
    s: GovernanceState,
    r: GovernanceState,
    proposal_id: u64,
    user: User,
    vote: VoteType,
) -> bool {
    if pending(s, proposal_id) && !voted(s, proposal_id, user) {
        &&& r.votes@ == s.votes@.push(Vote { proposal_id, vote, user })
        &&& r.proposals@ == s.proposals@
        &&& r.time_units_passed == s.time_units_passed
    } else {
        gov_unchanged(s, r)
    }
}

fn clone_proposals(v: &Vec<Proposal>) -> (r: Vec<Proposal>)
    ensures
        r@ == v@,
{
    let mut r: Vec<Proposal> = Vec::new();
    let mut i: usize = 0;
    while i < v.len()
        invariant
            i <= v@.len(),
            r@ == v@.subrange(0, i as int),
        decreases v@.len() - i,
    {
        r.push(v[i].clone());
        proof {
            assert(r@ =~= v@.subrange(0, i as int + 1));
        }
        i = i + 1;
    }
    proof {
        assert(v@.subrange(0, v@.len() as int) =~= v@);
    }
    r
}

fn clone_votes(v: &Vec<Vote>) -> (r: Vec<Vote>)
    ensures
        r@ == v@,
{
    let mut r: Vec<Vote> = Vec::new();
    let mut i: usize = 0;
    while i < v.len()
        invariant
            i <= v@.len(),
            r@ == v@.subrange(0, i as int),
        decreases v@.len() - i,
    {
        r.push(v[i]);
        proof {
            assert(r@ =~= v@.subrange(0, i as int + 1));
        }
        i = i + 1;
    }
    proof {
        assert(v@.subrange(0, v@.len() as int) =~= v@);
    }
    r
}

impl Clone for GovernanceState {
    fn clone(&self) -> (res: Self)
        ensures
            gov_unchanged(*self, res),
    {
        GovernanceState {
            proposals: clone_proposals(&self.proposals),
            votes: clone_votes(&self.votes),
            time_units_passed: self.time_units_passed,
        }
    }
}

impl GovernanceState {
    /// The initial state: no proposals, no votes, time at zero.
    pub fn new() -> (s: GovernanceState)
        ensures
            s.proposals@ == Seq::<Proposal>::empty(),
            s.votes@ == Seq::<Vote>::empty(),
            s.time_units_passed == 0,
    {
        GovernanceState { proposals: Vec::new(), votes: Vec::new(), time_units_passed: 0 }
    }

    /// Advance the clock by one unit, saturating at `u64::MAX`.
    pub fn one_time_unit_passed(&mut self)
        ensures
            final(self).proposals@ == old(self).proposals@,
            final(self).votes@ == old(self).votes@,
            final(self).time_units_passed == bump(old(self).time_units_passed),
    {
        self.time_units_passed = bump_exec(self.time_units_passed);
    }

    /// Record a vote in favor. The caller checks that the vote is allowed.
    pub fn vote_in_favor(&mut self, proposal_id: u64, user: User)
        ensures
            final(self).votes@ == old(self).votes@.push(
                Vote { proposal_id, vote: VoteType::Aye, user },
            ),
            final(self).proposals@ == old(self).proposals@,
            final(self).time_units_passed == old(self).time_units_passed,
    {
        let vote = Vote { proposal_id, vote: VoteType::Aye, user };
        self.votes.push(vote);
    }

    /// Record a vote against. The caller checks that the vote is allowed.
    pub fn vote_against(&mut self, proposal_id: u64, user: User)
        ensures
            final(self).votes@ == old(self).votes@.push(
                Vote { proposal_id, vote: VoteType::Nay, user },
            ),
            final(self).proposals@ == old(self).proposals@,
            final(self).time_units_passed == old(self).time_units_passed,
    {
        let vote = Vote { proposal_id, vote: VoteType::Nay, user };
        self.votes.push(vote);
    }

    /// Append a proposal whose id is one more than the current count,
    /// saturating at `u64::MAX`.
    pub fn add_proposal(&mut self, proposed_action: String, user: User, pending_until_time_unit: u64)
        ensures
            final(self).proposals@ == old(self).proposals@.push(
                Proposal {
                    id: bump(old(self).proposals@.len() as u64),
                    proposed_action: proposed_action,
                    proposed_by: user,
                    pending_until_time_unit: pending_until_time_unit,
                },
            ),
            final(self).votes@ == old(self).votes@,
            final(self).time_units_passed == old(self).time_units_passed,
    {
        let count = self.proposals.len() as u64;
        let proposal = Proposal {
            id: bump_exec(count),
            proposed_action,
            proposed_by: user,
            pending_until_time_unit,
        };
        self.proposals.push(proposal);
    }

    pub fn proposal_exists_and_pending(&self, proposal_id: u64) -> (r: bool)
        ensures
            r == pending(*self, proposal_id),
    {
        let mut i: usize = 0;
        while i < self.proposals.len()
            invariant
                i <= self.proposals@.len(),
                forall|j: int|
                    0 <= j < i ==> !((#[trigger] self.proposals@[j]).id == proposal_id
                        && self.proposals@[j].pending_until_time_unit >= self.time_units_passed),
            decreases self.proposals@.len() - i,
        {
            if self.proposals[i].id == proposal_id && self.proposals[i].pending_until_time_unit
                >= self.time_units_passed {
                return true;
            }
            i = i + 1;
        }
        false
    }

    pub fn has_user_voted(&self, proposal_id: u64, user: &User) -> (r: bool)
        ensures
            r == voted(*self, proposal_id, *user),
    {
        let mut i: usize = 0;
        while i < self.votes.len()
            invariant
                i <= self.votes@.len(),
                forall|j: int|
                    0 <= j < i ==> !((#[trigger] self.votes@[j]).proposal_id == proposal_id
                        && self.votes@[j].user == *user),
            decreases self.votes@.len() - i,
        {
            if self.votes[i].proposal_id == proposal_id && self.votes[i].user == *user {
                return true;
            }
            i = i + 1;
        }
        false
    }
}

/// The governance actions users can take.
pub enum GovernanceAction {
    /// One unit of time passes.
    OneTimeUnitPassed,
    /// Vote in favor of the proposal with the given id.
    VoteInFavor(u64, User),
    /// Vote against the proposal with the given id.
    VoteAgainst(u64, User),
    /// Submit a proposal: its text, its author, and the time unit until
    /// which it accepts votes.
    AddProposal(String, User, u64),
}

impl StateMachine for GovernanceState {
    type State = GovernanceState;

    type Transition = GovernanceAction;

    open spec fn next_rel(s: GovernanceState, t: GovernanceAction, r: GovernanceState) -> bool {
        match t {
            GovernanceAction::OneTimeUnitPassed => {
                &&& r.proposals@ == s.proposals@
                &&& r.votes@ == s.votes@
                &&& r.time_units_passed == bump(s.time_units_passed)
            },
            GovernanceAction::VoteInFavor(proposal_id, user) => vote_rel(
                s,
                r,
                proposal_id,
                user,
                VoteType::Aye,
            ),
            GovernanceAction::VoteAgainst(proposal_id, user) => vote_rel(
                s,
                r,
                proposal_id,
                user,
                VoteType::Nay,
            ),
            GovernanceAction::AddProposal(proposed_action, user, pending_until_time_unit) => {
                if pending_until_time_unit >= s.time_units_passed {
                    &&& r.proposals@ == s.proposals@.push(
                        Proposal {
                            id: bump(s.proposals@.len() as u64),
                            proposed_action: proposed_action,
                            proposed_by: user,
                            pending_until_time_unit: pending_until_time_unit,
                        },
                    )
                    &&& r.votes@ == s.votes@
                    &&& r.time_units_passed == s.time_units_passed
                } else {
                    gov_unchanged(s, r)
                }
            },
        }
    }

    fn next_state(starting_state: &GovernanceState, t: &GovernanceAction) -> (new_state:
        GovernanceState) {
        match t {
            GovernanceAction::OneTimeUnitPassed => {
                let mut new_state = starting_state.clone();
                new_state.one_time_unit_passed();
                new_state
            },
            GovernanceAction::VoteInFavor(proposal_id, user) => {
                if starting_state.proposal_exists_and_pending(*proposal_id)
                    && !starting_state.has_user_voted(*proposal_id, user) {
                    let mut new_state = starting_state.clone();
                    new_state.vote_in_favor(*proposal_id, *user);
                    new_state
                } else {
                    starting_state.clone()
                }
            },
            GovernanceAction::VoteAgainst(proposal_id, user) => {
                if starting_state.proposal_exists_and_pending(*proposal_id)
                    && !starting_state.has_user_voted(*proposal_id, user) {
                    let mut new_state = starting_state.clone();
                    new_state.vote_against(*proposal_id, *user);
                    new_state
                } else {
                    starting_state.clone()
                }
            },
            GovernanceAction::AddProposal(proposed_action, user, pending_until_time_unit) => {
                if *pending_until_time_unit >= starting_state.time_units_passed {
                    let mut new_state = starting_state.clone();
                    new_state.add_proposal(
                        proposed_action.clone(),
                        *user,
                        *pending_until_time_unit,
                    );
                    new_state
                } else {
                    starting_state.clone()
                }
            },
        }
    }
}

} // verus!
