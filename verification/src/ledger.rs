//! The store of ballot records. A record is created when a voter first locks an amount
//! for a candidate and destroyed when the lock is released; the store never holds two
//! records for one pair.

use crate::address::Address;
use crate::ballots::{
    ballot_of, credit_result, credited, is_for, lemma_credited_ballots, lemma_credited_locked,
    lemma_credited_unique, lemma_position_at, lemma_released_ballots, lemma_released_locked,
    lemma_released_unique, locked, position, released, unique_keys,
};
use crate::errors::ErrorCode;
use crate::schema::Ballot;
use vstd::prelude::*;

verus! {

/// The live ballots of all candidates.
pub struct BallotLedger {
    ballots: Vec<Ballot>,
}

impl View for BallotLedger {
    type V = Seq<Ballot>;

    closed spec fn view(&self) -> Seq<Ballot> {
        self.ballots@
    }
}

impl BallotLedger {
    #[verifier::type_invariant]
    spec fn inv(self) -> bool {
        unique_keys(self.ballots@)
    }

    /// A ledger without ballots.
    pub fn new() -> (ledger: BallotLedger)
        ensures
            ledger@ == Seq::<Ballot>::empty(),
    {
        BallotLedger { ballots: Vec::new() }
    }

    /// The number of live ballots.
    pub fn len(&self) -> (len: usize)
        ensures
            len == self@.len(),
    {
        self.ballots.len()
    }

    fn find(&self, candidate: &Address, voter: &Address) -> (found: Option<usize>)
        ensures
            unique_keys(self@),
            match found {
                Some(i) => position(self@, *candidate, *voter) == Some(i as int) && i < self@.len(),
                None => position(self@, *candidate, *voter) is None,
            },
    {
        proof {
            use_type_invariant(self);
        }
        let mut i: usize = 0;
        while i < self.ballots.len()
            invariant
                i <= self.ballots@.len(),
                unique_keys(self.ballots@),
                forall|k: int| 0 <= k < i ==> !is_for(#[trigger] self.ballots@[k], *candidate, *voter),
            decreases self.ballots@.len() - i,
        {
            if self.ballots[i].candidate == *candidate && self.ballots[i].voter == *voter {
                proof {
                    lemma_position_at(self.ballots@, i as int);
                }
                return Some(i);
            }
            i += 1;
        }
        None
    }

    /// The ballot of `voter` for `candidate`, if there is one.
    pub fn get(&self, candidate: &Address, voter: &Address) -> (found: Option<Ballot>)
        ensures
            unique_keys(self@),
            found == ballot_of(self@, *candidate, *voter),
    {
        match self.find(candidate, voter) {
            Some(i) => Some(self.ballots[i]),
            None => None,
        }
    }

    /// The sum of the amounts of all ballots for `candidate`.
    pub fn locked(&self, candidate: &Address) -> (total: u128)
        ensures
            total == locked(self@, *candidate),
    {
        let mut total: u128 = 0;
        let mut i: usize = 0;
        while i < self.ballots.len()
            invariant
                i <= self.ballots@.len(),
                total == locked(self.ballots@.take(i as int), *candidate),
                total <= i * 0xffff_ffff_ffff_ffff,
            decreases self.ballots@.len() - i,
        {
            proof {
                assert(self.ballots@.take(i + 1).drop_last() =~= self.ballots@.take(i as int));
                assert(i * 0xffff_ffff_ffff_ffff + 0xffff_ffff_ffff_ffff <= 0xffff_ffff_ffff_ffff
                    * 0xffff_ffff_ffff_ffff + 0xffff_ffff_ffff_ffff) by (nonlinear_arith)
                    requires
                        i <= 0xffff_ffff_ffff_ffff,
                ;
            }
            if self.ballots[i].candidate == *candidate {
                total = total + self.ballots[i].amount as u128;
            }
            i += 1;
        }
        assert(self.ballots@.take(i as int) =~= self.ballots@);
        total
    }

    /// Locks `amount` more of `voter` for `candidate`: creates the ballot if there is
    /// none, else adds to it. Returns the ballot as it now stands, or `AmountOverflow`,
    /// with the ledger unchanged, where the sum does not fit.
    pub fn credit(&mut self, candidate: Address, voter: Address, amount: u64) -> (outcome: Result<
        Ballot,
        ErrorCode,
    >)
        ensures
            unique_keys(old(self)@),
            unique_keys(final(self)@),
            outcome == credit_result(old(self)@, candidate, voter, amount),
            final(self)@ == credited(old(self)@, candidate, voter, amount),
            outcome matches Ok(ballot) ==> {
                &&& ballot_of(final(self)@, candidate, voter) == Some(ballot)
                &&& locked(final(self)@, candidate) == locked(old(self)@, candidate) + amount
            },
    {
        let found = self.find(&candidate, &voter);
        proof {
            lemma_credited_unique(self.ballots@, candidate, voter, amount);
            if credit_result(self.ballots@, candidate, voter, amount) is Ok {
                lemma_credited_ballots(self.ballots@, candidate, voter, amount, candidate, voter);
                lemma_credited_locked(self.ballots@, candidate, voter, amount, candidate);
            }
        }
        let mut ballots: Vec<Ballot> = Vec::new();
        std::mem::swap(&mut ballots, &mut self.ballots);
        let outcome = match found {
            Some(i) => {
                match ballots[i].amount.checked_add(amount) {
                    Some(total) => {
                        let ballot = Ballot { candidate, voter, amount: total };
                        ballots.set(i, ballot);
                        Ok(ballot)
                    },
                    None => Err(ErrorCode::AmountOverflow),
                }
            },
            None => {
                let ballot = Ballot { candidate, voter, amount };
                ballots.push(ballot);
                Ok(ballot)
            },
        };
        self.ballots = ballots;
        outcome
    }

    /// Destroys the ballot of `voter` for `candidate` and returns it as it last stood;
    /// `None`, with the ledger unchanged, where there is none.
    pub fn release(&mut self, candidate: &Address, voter: &Address) -> (gone: Option<Ballot>)
        ensures
            unique_keys(old(self)@),
            unique_keys(final(self)@),
            gone == ballot_of(old(self)@, *candidate, *voter),
            final(self)@ == released(old(self)@, *candidate, *voter),
            ballot_of(final(self)@, *candidate, *voter) is None,
            gone matches Some(ballot) ==> locked(final(self)@, *candidate) + ballot.amount
                == locked(old(self)@, *candidate),
    {
        let found = self.find(candidate, voter);
        proof {
            lemma_released_unique(self.ballots@, *candidate, *voter);
            lemma_released_ballots(self.ballots@, *candidate, *voter, *candidate, *voter);
            lemma_released_locked(self.ballots@, *candidate, *voter, *candidate);
        }
        let mut ballots: Vec<Ballot> = Vec::new();
        std::mem::swap(&mut ballots, &mut self.ballots);
        let gone = match found {
            Some(i) => Some(ballots.remove(i)),
            None => None,
        };
        self.ballots = ballots;
        gone
    }
}

} // verus!
