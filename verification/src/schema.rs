//! The records that the operations read and write.

use crate::address::Address;
use vstd::prelude::*;

verus! {

/// A candidate: a voting window and the asset that its escrow accepts.
#[derive(Clone, Copy, Debug, PartialEq, Eq)]
pub struct Candidate {
    /// The identity of the candidate.
    pub id: Address,
    /// The asset that may be locked for the candidate.
    pub mint: Address,
    /// The first moment of the window.
    pub start_date: i64,
    /// The first moment after the window.
    pub end_date: i64,
    /// Who created the candidate.
    pub authority: Address,
}

impl Candidate {
    /// The window `[start_date, end_date)` is not empty.
    pub open spec fn wf(self) -> bool {
        self.start_date < self.end_date
    }
}

/// What one voter has locked for one candidate.
#[derive(Clone, Copy, Debug, PartialEq, Eq)]
pub struct Ballot {
    /// The candidate that the amount is locked for.
    pub candidate: Address,
    /// The voter who locked it.
    pub voter: Address,
    /// The locked amount.
    pub amount: u64,
}

/// What the operations read of a token account on the ledger.
#[derive(Clone, Copy, Debug, PartialEq, Eq)]
pub struct TokenAccount {
    /// Where the account lives.
    pub address: Address,
    /// The asset that it holds.
    pub mint: Address,
    /// Who may move the asset out of it.
    pub owner: Address,
}

} // verus!
