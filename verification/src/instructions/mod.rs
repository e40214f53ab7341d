//! The three operations. A vote and a release each come in two steps: the first checks
//! and hands out the order for the token ledger, the second takes the ledger's answer
//! and writes the ballot.

pub mod close;
pub mod initialize_candidate;
pub mod vote;
