//! The common shape of the two ledgers: a pure, deterministic state
//! machine whose transition function never panics and never mutates its
//! input, together with the closed set of user identities that the ledgers
//! share, and the saturating counters they use for serial numbers and clocks.

use vstd::prelude::*;

verus! {

/// A participant in the ledgers: an opaque, equality-comparable identity
/// token standing in for a public key.
#[derive(Clone, Copy, Debug, PartialEq, Eq, Structural)]
pub enum User {
    Alice,
    Bob,
    Charlie,
    Noah,
}

/// A deterministic state machine. `next_state` is a total function: invalid
/// transitions leave the state unchanged rather than failing.
pub trait StateMachine {
    type State;

    type Transition;

    /// How a new state may relate to the starting state under a transition.
    /// Every implementation pins the new state down completely (up to the
    /// abstraction its contracts are stated over).
    spec fn next_rel(starting_state: Self::State, t: Self::Transition, new_state: Self::State) -> bool;

    fn next_state(starting_state: &Self::State, t: &Self::Transition) -> (new_state: Self::State)
        ensures
            Self::next_rel(*starting_state, *t, new_state),
    ;
}

/// One step of a counter that saturates at `u64::MAX` instead of overflowing.
pub open spec fn bump(counter: u64) -> u64 {
    if counter == u64::MAX {
        counter
    } else {
        (counter + 1) as u64
    }
}

/// `n` steps of the saturating counter.
pub open spec fn bump_by(counter: u64, n: nat) -> u64 {
    if counter + n >= u64::MAX {
        u64::MAX
    } else {
        (counter + n) as u64
    }
}

/// Taking one more step commutes with the closed form of `bump_by`.
pub proof fn lemma_bump_by_step(counter: u64, n: nat)
    ensures
        bump(bump_by(counter, n)) == bump_by(counter, n + 1),
{
}

pub fn bump_exec(counter: u64) -> (r: u64)
    ensures
        r == bump(counter),
{
    if counter == u64::MAX {
        counter
    } else {
        counter + 1
    }
}

} // verus!
