//! A small, fully verified block-validation and chain-selection library.
//!
//! The crate has three parts:
//!
//! * two self-contained ledger state machines (a bill-based cash system in
//!   [`cash`] and a governance/voting system in [`governance`]), both behind
//!   one [`state_machine::StateMachine`] contract;
//! * a pluggable consensus layer: the [`consensus::Consensus`] contract with
//!   interchangeable engines (a single dictator, an authority set, round-robin
//!   rotation by height or by time slot, proof of work) and two composite
//!   engines (a parity-enforcing decorator and a height-alternating
//!   proof-of-work / proof-of-authority hybrid);
//! * chain selection: the [`fork_choice::ForkChoice`] contract with three
//!   rules (longest chain, heaviest chain by accumulated work, most headers
//!   with an even digest).
//!
//! Identities are opaque tokens, not cryptographic keys, and the header digest
//! function in [`hashing`] is an ordinary deterministic mixer: the point of
//! the crate is the verified composition of validation and selection rules,
//! not cryptography.

pub mod alternating;
pub mod cash;
pub mod consensus;
pub mod dictator;
pub mod even_only;
pub mod fork_choice;
pub mod governance;
pub mod hashing;
pub mod header;
pub mod poa;
pub mod pow;
pub mod state_machine;
