//! Custody exchange of a non-fungible asset for a fixed supply of fungible fractions.
//!
//! `protocol` decides the two operations from account data and returns the token
//! instructions to perform; `ledger` is a token ledger that applies such instructions
//! all or nothing; `laws` states what a lock and a redemption guarantee together.
//! The ledger is a simplified model of the token program (owner signatures only; no
//! delegates, frozen holdings or close authorities), not linked to the real one.

pub mod key;
pub mod token_layout;
pub mod protocol;
pub mod ledger;
pub mod laws;
