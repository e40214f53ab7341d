//! The release: once the window has ended, a voter takes back what they locked.

use crate::accounts::{accounts_refusal, check_accounts};
use crate::address::Address;
use crate::authority::{
    derived, treasurer, treasurer_namespace, treasurer_seed, AuthorityProof, AuthorityProofView,
    DerivedAuthority,
};
use crate::ballots::{ballot_of, released};
use crate::errors::ErrorCode;
use crate::gateway::{planned, refusal, refusal_of, Receipt, TransferOrder, TransferOrderView};
use crate::ledger::BallotLedger;
use crate::schema::{Ballot, Candidate, TokenAccount};
use crate::time_gate::{has_ended, phase_at, Phase};
use vstd::prelude::*;

verus! {

/// The accounts of a release.
#[derive(Clone, Copy, Debug, PartialEq, Eq)]
pub struct Close {
    /// The voter, who signs.
    pub authority: Address,
    /// The candidate that the voter locked for.
    pub candidate: Candidate,
    /// The authority over the candidate's escrow account.
    pub treasurer: Address,
    /// The asset.
    pub mint: Address,
    /// The candidate's escrow account.
    pub candidate_account_token: TokenAccount,
    /// The voter's own account, which receives.
    pub voter_token_account: TokenAccount,
}

/// What a release leaves behind: the ballot as it was destroyed, and who gets the
/// deposit of its storage back.
#[derive(Clone, Copy, Debug, PartialEq, Eq)]
pub struct Release {
    /// The destroyed ballot, its amount at zero.
    pub ballot: Ballot,
    /// The amount that went back to the voter.
    pub returned: u64,
    /// Who receives the deposit of the ballot's storage: the voter.
    pub refund_to: Address,
}

/// Why a release is refused at `now`, if it is. The window decides first: before
/// `end_date` the answer is `NotEndedCandidate` whatever else is wrong. Then the
/// accounts must fit, and the voter must have a ballot.
pub open spec fn close_refusal(
    ctx: Close,
    ballots: Seq<Ballot>,
    found: Option<DerivedAuthority>,
    now: i64,
) -> Option<ErrorCode> {
    if phase_at(ctx.candidate, now) != Phase::Ended {
        Some(ErrorCode::NotEndedCandidate)
    } else {
        match accounts_refusal(
            ctx.authority,
            ctx.candidate,
            ctx.treasurer,
            ctx.mint,
            ctx.candidate_account_token,
            ctx.voter_token_account,
            found,
        ) {
            Some(code) => Some(code),
            None => if ballot_of(ballots, ctx.candidate.id, ctx.authority) is None {
                Some(ErrorCode::BallotNotFound)
            } else {
                None
            },
        }
    }
}

/// What a release decides at `now`: the error, or the order that moves all that the
/// voter's ballot holds from the escrow account to the voter's account, signed by the
/// derived authority with its proof.
pub open spec fn close_order(
    ctx: Close,
    ballots: Seq<Ballot>,
    found: Option<DerivedAuthority>,
    now: i64,
) -> Result<TransferOrderView, ErrorCode> {
    match close_refusal(ctx, ballots, found, now) {
        Some(code) => Err(code),
        None => Ok(
            TransferOrderView {
                amount: ballot_of(ballots, ctx.candidate.id, ctx.authority)->Some_0.amount,
                from: ctx.candidate_account_token.address,
                to: ctx.voter_token_account.address,
                authority: ctx.treasurer,
                proof: Some(
                    AuthorityProofView {
                        namespace: treasurer_seed(),
                        id: ctx.candidate.id,
                        bump: found->Some_0.bump,
                    },
                ),
            },
        ),
    }
}

/// The first step of a release, given what the derivation of the candidate's escrow
/// authority has `found`: checks, and hands out the order. Nothing is written.
pub fn authorize(
    ctx: &Close,
    ledger: &BallotLedger,
    found: Option<DerivedAuthority>,
    now: i64,
) -> (decision: Result<TransferOrder, ErrorCode>)
    ensures
        planned(decision) == close_order(*ctx, ledger@, found, now),
        now < ctx.candidate.end_date ==> decision == Err::<TransferOrder, ErrorCode>(
            ErrorCode::NotEndedCandidate,
        ),
{
    if !has_ended(&ctx.candidate, now) {
        return Err(ErrorCode::NotEndedCandidate);
    }
    let bump = match check_accounts(
        &ctx.authority,
        &ctx.candidate,
        &ctx.treasurer,
        &ctx.mint,
        &ctx.candidate_account_token,
        &ctx.voter_token_account,
        found,
    ) {
        Ok(bound) => bound.bump,
        Err(code) => { return Err(code); },
    };
    match ledger.get(&ctx.candidate.id, &ctx.authority) {
        None => Err(ErrorCode::BallotNotFound),
        Some(ballot) => Ok(
            TransferOrder {
                amount: ballot.amount,
                from: ctx.candidate_account_token.address,
                to: ctx.voter_token_account.address,
                authority: ctx.treasurer,
                proof: Some(
                    AuthorityProof { namespace: treasurer_namespace(), id: ctx.candidate.id, bump },
                ),
            },
        ),
    }
}

/// The first step of a release at `now` under `program_id`: derives the candidate's
/// escrow authority, checks, and hands out the order. Nothing is written.
pub fn exec(ctx: &Close, ledger: &BallotLedger, program_id: &Address, now: i64) -> (decision:
    Result<TransferOrder, ErrorCode>)
    ensures
        planned(decision) == close_order(
            *ctx,
            ledger@,
            derived(treasurer_seed(), ctx.candidate.id, *program_id),
            now,
        ),
        now < ctx.candidate.end_date ==> decision == Err::<TransferOrder, ErrorCode>(
            ErrorCode::NotEndedCandidate,
        ),
{
    let found = treasurer(&ctx.candidate.id, program_id);
    authorize(ctx, ledger, found, now)
}

/// What the second step of a release returns for the ledger's answer.
pub open spec fn close_settlement(ctx: Close, ballots: Seq<Ballot>, receipt: Receipt) -> Result<
    Release,
    ErrorCode,
> {
    match receipt {
        Err(error) => Err(refusal_of(error)),
        Ok(_) => match ballot_of(ballots, ctx.candidate.id, ctx.authority) {
            None => Err(ErrorCode::BallotNotFound),
            Some(ballot) => Ok(
                Release {
                    ballot: Ballot { candidate: ballot.candidate, voter: ballot.voter, amount: 0 },
                    returned: ballot.amount,
                    refund_to: ctx.authority,
                },
            ),
        },
    }
}

/// The ballots after the second step of a release: without the voter's ballot where
/// the ledger carried the order out, unchanged where it did not.
pub open spec fn close_settled(ctx: Close, ballots: Seq<Ballot>, receipt: Receipt) -> Seq<
    Ballot,
> {
    match receipt {
        Err(_) => ballots,
        Ok(_) => released(ballots, ctx.candidate.id, ctx.authority),
    }
}

/// The second step of a release, with the token ledger's answer to the order. Where the
/// order was carried out, the voter's ballot is set to zero and destroyed; where it was
/// not, the ballot stays as it is and the ledger's refusal is returned.
pub fn settle(ctx: &Close, ledger: &mut BallotLedger, receipt: Receipt) -> (outcome: Result<
    Release,
    ErrorCode,
>)
    ensures
        outcome == close_settlement(*ctx, old(ledger)@, receipt),
        final(ledger)@ == close_settled(*ctx, old(ledger)@, receipt),
{
    match receipt {
        Err(error) => Err(refusal(error)),
        Ok(_) => match ledger.release(&ctx.candidate.id, &ctx.authority) {
            None => Err(ErrorCode::BallotNotFound),
            Some(ballot) => Ok(
                Release {
                    ballot: Ballot { candidate: ballot.candidate, voter: ballot.voter, amount: 0 },
                    returned: ballot.amount,
                    refund_to: ctx.authority,
                },
            ),
        },
    }
}

} // verus!
