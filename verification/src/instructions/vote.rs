//! The vote: a voter locks an amount in a candidate's escrow account.

use crate::accounts::{accounts_refusal, check_accounts};
use crate::address::Address;
use crate::authority::{derived, treasurer, treasurer_seed, DerivedAuthority};
use crate::ballots::{credit_result, credited};
use crate::errors::ErrorCode;
use crate::gateway::{planned, refusal, refusal_of, Receipt, TransferOrder, TransferOrderView};
use crate::ledger::BallotLedger;
use crate::schema::{Ballot, Candidate, TokenAccount};
use crate::time_gate::{is_active, phase_at, Phase};
use vstd::prelude::*;

verus! {

/// The accounts of a vote.
#[derive(Clone, Copy, Debug, PartialEq, Eq)]
pub struct Vote {
    /// The voter, who signs.
    pub authority: Address,
    /// The candidate that the voter locks for.
    pub candidate: Candidate,
    /// The authority over the candidate's escrow account.
    pub treasurer: Address,
    /// The asset.
    pub mint: Address,
    /// The candidate's escrow account, which receives.
    pub candidate_account_token: TokenAccount,
    /// The voter's own account, which gives.
    pub voter_token_account: TokenAccount,
}

/// What is left to the deployment to decide about votes.
#[derive(Clone, Copy, Debug, PartialEq, Eq)]
pub struct VotePolicy {
    /// Whether a vote is accepted only within the candidate's window. Where it is not,
    /// votes are accepted at any time, also after releases have begun.
    pub enforce_window: bool,
    /// Whether a vote of nothing is refused. Where it is not, such a vote creates a
    /// ballot that holds nothing.
    pub reject_zero: bool,
}

impl Default for VotePolicy {
    /// Votes at any time, but never of nothing.
    fn default() -> (policy: VotePolicy)
        ensures
            !policy.enforce_window,
            policy.reject_zero,
    {
        VotePolicy { enforce_window: false, reject_zero: true }
    }
}

/// Why a vote of `amount` is refused at `now`, if it is. In this order: the amount is
/// nothing (`ZeroAmount`) or the moment is outside the window (`NotActiveCandidate`),
/// each where the policy asks; the accounts do not fit; the voter's ballot cannot hold
/// that much more (`AmountOverflow`).
pub open spec fn vote_refusal(
    ctx: Vote,
    ballots: Seq<Ballot>,
    policy: VotePolicy,
    found: Option<DerivedAuthority>,
    now: i64,
    amount: u64,
) -> Option<ErrorCode> {
    if policy.reject_zero && amount == 0 {
        Some(ErrorCode::ZeroAmount)
    } else if policy.enforce_window && phase_at(ctx.candidate, now) != Phase::Active {
        Some(ErrorCode::NotActiveCandidate)
    } else {
        match accounts_refusal(
            ctx.authority,
            ctx.candidate,
            ctx.treasurer,
            ctx.mint,
            ctx.candidate_account_token,
            ctx.voter_token_account,
            found,
        ) {
            Some(code) => Some(code),
            None => if credit_result(ballots, ctx.candidate.id, ctx.authority, amount) is Err {
                Some(ErrorCode::AmountOverflow)
            } else {
                None
            },
        }
    }
}

/// What a vote decides: the error, or the order that moves `amount` from the voter's
/// account to the escrow account, signed by the voter.
pub open spec fn vote_order(
    ctx: Vote,
    ballots: Seq<Ballot>,
    policy: VotePolicy,
    found: Option<DerivedAuthority>,
    now: i64,
    amount: u64,
) -> Result<TransferOrderView, ErrorCode> {
    match vote_refusal(ctx, ballots, policy, found, now, amount) {
        Some(code) => Err(code),
        None => Ok(
            TransferOrderView {
                amount,
                from: ctx.voter_token_account.address,
                to: ctx.candidate_account_token.address,
                authority: ctx.authority,
                proof: None,
            },
        ),
    }
}

/// The first step of a vote, given what the derivation of the candidate's escrow
/// authority has `found`: checks, and hands out the order. Nothing is written.
pub fn authorize(
    ctx: &Vote,
    ledger: &BallotLedger,
    policy: &VotePolicy,
    found: Option<DerivedAuthority>,
    now: i64,
    amount: u64,
) -> (decision: Result<TransferOrder, ErrorCode>)
    ensures
        planned(decision) == vote_order(*ctx, ledger@, *policy, found, now, amount),
{
    if policy.reject_zero && amount == 0 {
        return Err(ErrorCode::ZeroAmount);
    }
    if policy.enforce_window && !is_active(&ctx.candidate, now) {
        return Err(ErrorCode::NotActiveCandidate);
    }
    if let Err(code) = check_accounts(
        &ctx.authority,
        &ctx.candidate,
        &ctx.treasurer,
        &ctx.mint,
        &ctx.candidate_account_token,
        &ctx.voter_token_account,
        found,
    ) {
        return Err(code);
    }
    let held: u64 = match ledger.get(&ctx.candidate.id, &ctx.authority) {
        Some(ballot) => ballot.amount,
        None => 0,
    };
    if held.checked_add(amount).is_none() {
        return Err(ErrorCode::AmountOverflow);
    }
    Ok(
        TransferOrder {
            amount,
            from: ctx.voter_token_account.address,
            to: ctx.candidate_account_token.address,
            authority: ctx.authority,
            proof: None,
        },
    )
}

/// The first step of a vote of `amount` at `now` under `program_id`: derives the
/// candidate's escrow authority, checks, and hands out the order. Nothing is written.
pub fn exec(
    ctx: &Vote,
    ledger: &BallotLedger,
    policy: &VotePolicy,
    program_id: &Address,
    now: i64,
    amount: u64,
) -> (decision: Result<TransferOrder, ErrorCode>)
    ensures
        planned(decision) == vote_order(
            *ctx,
            ledger@,
            *policy,
            derived(treasurer_seed(), ctx.candidate.id, *program_id),
            now,
            amount,
        ),
{
    let found = treasurer(&ctx.candidate.id, program_id);
    authorize(ctx, ledger, policy, found, now, amount)
}

/// What the second step of a vote returns for the ledger's answer: the voter's ballot
/// as it now stands, or the error.
pub open spec fn vote_settlement(
    ctx: Vote,
    ballots: Seq<Ballot>,
    amount: u64,
    receipt: Receipt,
) -> Result<Ballot, ErrorCode> {
    match receipt {
        Err(error) => Err(refusal_of(error)),
        Ok(_) => credit_result(ballots, ctx.candidate.id, ctx.authority, amount),
    }
}

/// The ballots after the second step of a vote: with `amount` more on the voter's
/// ballot where the ledger carried the order out, unchanged where it did not.
pub open spec fn vote_settled(
    ctx: Vote,
    ballots: Seq<Ballot>,
    amount: u64,
    receipt: Receipt,
) -> Seq<Ballot> {
    match receipt {
        Err(_) => ballots,
        Ok(_) => credited(ballots, ctx.candidate.id, ctx.authority, amount),
    }
}

/// The second step of a vote, with the token ledger's answer to the order. Where the
/// order was carried out, the voter's ballot is created with `amount`, or grows by it;
/// where it was not, nothing is written and the ledger's refusal is returned.
pub fn settle(ctx: &Vote, ledger: &mut BallotLedger, amount: u64, receipt: Receipt) -> (outcome:
    Result<Ballot, ErrorCode>)
    ensures
        outcome == vote_settlement(*ctx, old(ledger)@, amount, receipt),
        final(ledger)@ == vote_settled(*ctx, old(ledger)@, amount, receipt),
{
    match receipt {
        Err(error) => Err(refusal(error)),
        Ok(_) => ledger.credit(ctx.candidate.id, ctx.authority, amount),
    }
}

} // verus!
