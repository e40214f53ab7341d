//! A token-weighted, time-windowed voting escrow.
//!
//! A candidate opens a window `[start_date, end_date)`. Voters lock tokens in the
//! candidate's escrow account; once the window has ended each voter takes back what
//! they locked, under an authority that is derived from the candidate's identity and
//! for which nobody holds a key.
//!
//! The token ledger and the clock are not part of this library. An operation that
//! moves tokens hands out a [`gateway::TransferOrder`]; whoever drives the operation
//! carries the order out and hands the ledger's answer to the operation's second step.

use vstd::prelude::*;

pub mod accounts;
pub mod address;
pub mod authority;
pub mod ballots;
pub mod errors;
pub mod gateway;
pub mod instructions;
pub mod laws;
pub mod ledger;
pub mod schema;
pub mod time_gate;

use crate::address::Address;
use crate::authority::{derived, treasurer_seed};
use crate::errors::ErrorCode;
use crate::gateway::{planned, TransferOrder};
use crate::instructions::close::{close_order, Close};
use crate::instructions::initialize_candidate::registration;
use crate::instructions::vote::{vote_order, Vote, VotePolicy};
use crate::ledger::BallotLedger;
use crate::schema::Candidate;

verus! {

/// Creates a candidate that accepts `mint` in the window `[start_date, end_date)`.
pub fn initialize_candidate(
    candidate_id: Address,
    mint: Address,
    start_date: i64,
    end_date: i64,
    authority: Address,
) -> (created: Result<Candidate, ErrorCode>)
    ensures
        created == registration(candidate_id, mint, start_date, end_date, authority),
{
    crate::instructions::initialize_candidate::exec(
        candidate_id,
        mint,
        start_date,
        end_date,
        authority,
    )
}

/// Begins a vote of `amount` at `now`: checks, and hands out the order that moves the
/// amount into the candidate's escrow account.
pub fn vote(
    ctx: &Vote,
    ledger: &BallotLedger,
    policy: &VotePolicy,
    program_id: &Address,
    now: i64,
    amount: u64,
) -> (decision: Result<TransferOrder, ErrorCode>)
    ensures
        planned(decision) == vote_order(
            *ctx,
            ledger@,
            *policy,
            derived(treasurer_seed(), ctx.candidate.id, *program_id),
            now,
            amount,
        ),
{
    crate::instructions::vote::exec(ctx, ledger, policy, program_id, now, amount)
}

/// Begins a release at `now`: checks, and hands out the order that moves what the
/// voter locked back to the voter.
pub fn close(ctx: &Close, ledger: &BallotLedger, program_id: &Address, now: i64) -> (decision:
    Result<TransferOrder, ErrorCode>)
    ensures
        planned(decision) == close_order(
            *ctx,
            ledger@,
            derived(treasurer_seed(), ctx.candidate.id, *program_id),
            now,
        ),
        now < ctx.candidate.end_date ==> decision == Err::<TransferOrder, ErrorCode>(
            ErrorCode::NotEndedCandidate,
        ),
{
    crate::instructions::close::exec(ctx, ledger, program_id, now)
}

} // verus!
