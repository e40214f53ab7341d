//! Ballots as a sequence of records: what it means to find a voter's ballot, to lock
//! more on it and to destroy it, what is locked for a candidate in all, and how these
//! go together.

use crate::address::Address;
use crate::errors::ErrorCode;
use crate::schema::Ballot;
use vstd::prelude::*;

verus! {

/// Whether `ballot` is the ballot of `voter` for `candidate`.
pub open spec fn is_for(ballot: Ballot, candidate: Address, voter: Address) -> bool {
    ballot.candidate == candidate && ballot.voter == voter
}

/// No two ballots share a candidate and a voter.
pub open spec fn unique_keys(ballots: Seq<Ballot>) -> bool {
    forall|i: int, j: int|
        0 <= i < j < ballots.len() ==> !is_for(
            #[trigger] ballots[i],
            (#[trigger] ballots[j]).candidate,
            ballots[j].voter,
        )
}

/// Where the ballot of `voter` for `candidate` stands among `ballots`, if there is one.
pub open spec fn position(ballots: Seq<Ballot>, candidate: Address, voter: Address) -> Option<
    int,
> {
    if exists|i: int| 0 <= i < ballots.len() && is_for(#[trigger] ballots[i], candidate, voter) {
        Some(
            choose|i: int| 0 <= i < ballots.len() && is_for(#[trigger] ballots[i], candidate, voter),
        )
    } else {
        None
    }
}

/// The ballot of `voter` for `candidate`, if there is one.
pub open spec fn ballot_of(ballots: Seq<Ballot>, candidate: Address, voter: Address) -> Option<
    Ballot,
> {
    match position(ballots, candidate, voter) {
        Some(i) => Some(ballots[i]),
        None => None,
    }
}

/// What `ballot` adds to the amount locked for `candidate`.
pub open spec fn share(ballot: Ballot, candidate: Address) -> nat {
    if ballot.candidate == candidate {
        ballot.amount as nat
    } else {
        0
    }
}

/// The sum of the amounts of all ballots for `candidate`.
pub open spec fn locked(ballots: Seq<Ballot>, candidate: Address) -> nat
    decreases ballots.len(),
{
    if ballots.len() == 0 {
        0
    } else {
        locked(ballots.drop_last(), candidate) + share(ballots.last(), candidate)
    }
}

/// The ballot of `voter` for `candidate` after `amount` more has been locked, or
/// `AmountOverflow` where the sum does not fit.
pub open spec fn credit_result(
    ballots: Seq<Ballot>,
    candidate: Address,
    voter: Address,
    amount: u64,
) -> Result<Ballot, ErrorCode> {
    let held: int = match ballot_of(ballots, candidate, voter) {
        Some(ballot) => ballot.amount as int,
        None => 0,
    };
    if held + amount > u64::MAX {
        Err(ErrorCode::AmountOverflow)
    } else {
        Ok(Ballot { candidate, voter, amount: (held + amount) as u64 })
    }
}

/// The ballots after `voter` has locked `amount` more for `candidate`: the voter's
/// ballot grows in place, or a new one is added at the end. Nothing changes where the
/// sum does not fit.
pub open spec fn credited(
    ballots: Seq<Ballot>,
    candidate: Address,
    voter: Address,
    amount: u64,
) -> Seq<Ballot> {
    match credit_result(ballots, candidate, voter, amount) {
        Err(_) => ballots,
        Ok(ballot) => match position(ballots, candidate, voter) {
            Some(i) => ballots.update(i, ballot),
            None => ballots.push(ballot),
        },
    }
}

/// The ballots after the ballot of `voter` for `candidate` has been destroyed.
pub open spec fn released(ballots: Seq<Ballot>, candidate: Address, voter: Address) -> Seq<
    Ballot,
> {
    match position(ballots, candidate, voter) {
        Some(i) => ballots.remove(i),
        None => ballots,
    }
}

/// Among ballots with unique keys, the ballot at `i` is the one found for its own
/// candidate and voter.
pub proof fn lemma_position_at(ballots: Seq<Ballot>, i: int)
    requires
        unique_keys(ballots),
        0 <= i < ballots.len(),
    ensures
        position(ballots, ballots[i].candidate, ballots[i].voter) == Some(i),
{
    let candidate = ballots[i].candidate;
    let voter = ballots[i].voter;
    assert(is_for(ballots[i], candidate, voter));
    let found = choose|k: int| 0 <= k < ballots.len() && is_for(#[trigger] ballots[k], candidate, voter);
    if found < i {
        assert(!is_for(ballots[found], ballots[i].candidate, ballots[i].voter));
    } else if i < found {
        assert(!is_for(ballots[i], ballots[found].candidate, ballots[found].voter));
    }
}

/// A ballot that is found is the ballot of that voter for that candidate.
pub proof fn lemma_position_is_for(ballots: Seq<Ballot>, candidate: Address, voter: Address)
    ensures
        match position(ballots, candidate, voter) {
            Some(i) => 0 <= i < ballots.len() && is_for(ballots[i], candidate, voter),
            None => forall|k: int| 0 <= k < ballots.len() ==> !is_for(#[trigger] ballots[k], candidate, voter),
        },
{
}

/// Adding a ballot at the end adds its share.
pub proof fn lemma_locked_push(ballots: Seq<Ballot>, ballot: Ballot, candidate: Address)
    ensures
        locked(ballots.push(ballot), candidate) == locked(ballots, candidate) + share(
            ballot,
            candidate,
        ),
{
    assert(ballots.push(ballot).drop_last() =~= ballots);
}

/// Replacing the ballot at `i` takes its share out and puts the new share in.
pub proof fn lemma_locked_update(ballots: Seq<Ballot>, i: int, ballot: Ballot, candidate: Address)
    requires
        0 <= i < ballots.len(),
    ensures
        locked(ballots.update(i, ballot), candidate) + share(ballots[i], candidate) == locked(
            ballots,
            candidate,
        ) + share(ballot, candidate),
    decreases ballots.len(),
{
    let after = ballots.update(i, ballot);
    if i == ballots.len() - 1 {
        assert(after.drop_last() =~= ballots.drop_last());
    } else {
        assert(after.drop_last() =~= ballots.drop_last().update(i, ballot));
        lemma_locked_update(ballots.drop_last(), i, ballot, candidate);
    }
}

/// Removing the ballot at `i` takes its share out.
pub proof fn lemma_locked_remove(ballots: Seq<Ballot>, i: int, candidate: Address)
    requires
        0 <= i < ballots.len(),
    ensures
        locked(ballots.remove(i), candidate) + share(ballots[i], candidate) == locked(
            ballots,
            candidate,
        ),
    decreases ballots.len(),
{
    let after = ballots.remove(i);
    if i == ballots.len() - 1 {
        assert(after =~= ballots.drop_last());
    } else {
        assert(after.drop_last() =~= ballots.drop_last().remove(i));
        assert(after.last() == ballots.last());
        lemma_locked_remove(ballots.drop_last(), i, candidate);
    }
}

/// Locking more keeps the keys unique.
pub proof fn lemma_credited_unique(
    ballots: Seq<Ballot>,
    candidate: Address,
    voter: Address,
    amount: u64,
)
    requires
        unique_keys(ballots),
    ensures
        unique_keys(credited(ballots, candidate, voter, amount)),
{
    let after = credited(ballots, candidate, voter, amount);
    lemma_position_is_for(ballots, candidate, voter);
    assert forall|i: int, j: int| 0 <= i < j < after.len() implies !is_for(
        #[trigger] after[i],
        (#[trigger] after[j]).candidate,
        after[j].voter,
    ) by {
        if j < ballots.len() {
            assert(!is_for(ballots[i], ballots[j].candidate, ballots[j].voter));
        }
    }
}

/// Releasing a ballot keeps the keys unique.
pub proof fn lemma_released_unique(ballots: Seq<Ballot>, candidate: Address, voter: Address)
    requires
        unique_keys(ballots),
    ensures
        unique_keys(released(ballots, candidate, voter)),
{
    let after = released(ballots, candidate, voter);
    match position(ballots, candidate, voter) {
        Some(at) => {
            lemma_position_is_for(ballots, candidate, voter);
            assert forall|i: int, j: int| 0 <= i < j < after.len() implies !is_for(
                #[trigger] after[i],
                (#[trigger] after[j]).candidate,
                after[j].voter,
            ) by {
                let from_i = if i < at { i } else { i + 1 };
                let from_j = if j < at { j } else { j + 1 };
                assert(!is_for(ballots[from_i], ballots[from_j].candidate, ballots[from_j].voter));
            }
        },
        None => {},
    }
}

/// After a lock the voter's ballot is the one returned, and every other ballot is as
/// it was.
pub proof fn lemma_credited_ballots(
    ballots: Seq<Ballot>,
    candidate: Address,
    voter: Address,
    amount: u64,
    other_candidate: Address,
    other_voter: Address,
)
    requires
        unique_keys(ballots),
        credit_result(ballots, candidate, voter, amount) is Ok,
    ensures
        ballot_of(credited(ballots, candidate, voter, amount), candidate, voter) == Some(
            credit_result(ballots, candidate, voter, amount)->Ok_0,
        ),
        other_candidate != candidate || other_voter != voter ==> ballot_of(
            credited(ballots, candidate, voter, amount),
            other_candidate,
            other_voter,
        ) == ballot_of(ballots, other_candidate, other_voter),
{
    let after = credited(ballots, candidate, voter, amount);
    lemma_credited_unique(ballots, candidate, voter, amount);
    lemma_position_is_for(ballots, candidate, voter);
    let at = match position(ballots, candidate, voter) {
        Some(i) => i,
        None => ballots.len() as int,
    };
    lemma_position_at(after, at);
    if other_candidate != candidate || other_voter != voter {
        lemma_position_is_for(ballots, other_candidate, other_voter);
        match position(ballots, other_candidate, other_voter) {
            Some(k) => {
                assert(after[k] == ballots[k]);
                lemma_position_at(after, k);
            },
            None => {
                assert forall|k: int| 0 <= k < after.len() implies !is_for(
                    #[trigger] after[k],
                    other_candidate,
                    other_voter,
                ) by {
                    if k < ballots.len() && k != at {
                        assert(!is_for(ballots[k], other_candidate, other_voter));
                    }
                }
            },
        }
    }
}

/// After a release the voter has no ballot for the candidate, and every other ballot
/// is as it was.
pub proof fn lemma_released_ballots(
    ballots: Seq<Ballot>,
    candidate: Address,
    voter: Address,
    other_candidate: Address,
    other_voter: Address,
)
    requires
        unique_keys(ballots),
    ensures
        ballot_of(released(ballots, candidate, voter), candidate, voter) is None,
        other_candidate != candidate || other_voter != voter ==> ballot_of(
            released(ballots, candidate, voter),
            other_candidate,
            other_voter,
        ) == ballot_of(ballots, other_candidate, other_voter),
{
    let after = released(ballots, candidate, voter);
    lemma_released_unique(ballots, candidate, voter);
    lemma_position_is_for(ballots, candidate, voter);
    match position(ballots, candidate, voter) {
        Some(at) => {
            assert forall|k: int| 0 <= k < after.len() implies !is_for(
                #[trigger] after[k],
                candidate,
                voter,
            ) by {
                let from = if k < at { k } else { k + 1 };
                if from < at {
                    assert(!is_for(ballots[from], ballots[at].candidate, ballots[at].voter));
                } else {
                    assert(!is_for(ballots[at], ballots[from].candidate, ballots[from].voter));
                }
            }
            if other_candidate != candidate || other_voter != voter {
                lemma_position_is_for(ballots, other_candidate, other_voter);
                match position(ballots, other_candidate, other_voter) {
                    Some(k) => {
                        let to = if k < at { k } else { k - 1 };
                        assert(after[to] == ballots[k]);
                        lemma_position_at(after, to);
                    },
                    None => {
                        assert forall|k: int| 0 <= k < after.len() implies !is_for(
                            #[trigger] after[k],
                            other_candidate,
                            other_voter,
                        ) by {
                            let from = if k < at { k } else { k + 1 };
                            assert(!is_for(ballots[from], other_candidate, other_voter));
                        }
                    },
                }
            }
        },
        None => {},
    }
}

/// A lock that fits raises the amount locked for the candidate by what was locked, and
/// changes the amount locked for no other candidate.
pub proof fn lemma_credited_locked(
    ballots: Seq<Ballot>,
    candidate: Address,
    voter: Address,
    amount: u64,
    other: Address,
)
    requires
        credit_result(ballots, candidate, voter, amount) is Ok,
    ensures
        locked(credited(ballots, candidate, voter, amount), candidate) == locked(
            ballots,
            candidate,
        ) + amount,
        other != candidate ==> locked(credited(ballots, candidate, voter, amount), other)
            == locked(ballots, other),
{
    let ballot = credit_result(ballots, candidate, voter, amount)->Ok_0;
    lemma_position_is_for(ballots, candidate, voter);
    match position(ballots, candidate, voter) {
        Some(i) => {
            lemma_locked_update(ballots, i, ballot, candidate);
            lemma_locked_update(ballots, i, ballot, other);
        },
        None => {
            lemma_locked_push(ballots, ballot, candidate);
            lemma_locked_push(ballots, ballot, other);
        },
    }
}

/// A release lowers the amount locked for the candidate by what the ballot held, and
/// changes the amount locked for no other candidate.
pub proof fn lemma_released_locked(
    ballots: Seq<Ballot>,
    candidate: Address,
    voter: Address,
    other: Address,
)
    ensures
        locked(released(ballots, candidate, voter), candidate) + (match ballot_of(
            ballots,
            candidate,
            voter,
        ) {
            Some(ballot) => ballot.amount as nat,
            None => 0,
        }) == locked(ballots, candidate),
        other != candidate ==> locked(released(ballots, candidate, voter), other) == locked(
            ballots,
            other,
        ),
{
    lemma_position_is_for(ballots, candidate, voter);
    match position(ballots, candidate, voter) {
        Some(i) => {
            lemma_locked_remove(ballots, i, candidate);
            lemma_locked_remove(ballots, i, other);
        },
        None => {},
    }
}

} // verus!
