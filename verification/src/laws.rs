//! What holds of the operations taken together.
//!
//! The token ledger is modelled by the balances of its accounts. It answers an order
//! by carrying it out in full or not at all ([`settled`]), and it carries out no order
//! that the giving account cannot cover.

use crate::address::Address;
use crate::authority::DerivedAuthority;
use crate::ballots::{
    ballot_of, credit_result, lemma_credited_ballots, lemma_credited_locked,
    lemma_credited_unique, lemma_position_is_for, lemma_released_ballots, lemma_released_locked,
    locked, unique_keys,
};
use crate::errors::ErrorCode;
use crate::gateway::{settled, Receipt, TransferOrderView};
use crate::instructions::close::{close_order, close_settled, close_settlement, Close};
use crate::instructions::vote::{vote_order, vote_settled, vote_settlement, Vote, VotePolicy};
use crate::schema::Ballot;
use vstd::prelude::*;

verus! {

/// The escrow account holds exactly what is locked for the candidate.
pub open spec fn conserved(
    balances: Map<Address, int>,
    escrow: Address,
    ballots: Seq<Ballot>,
    candidate: Address,
) -> bool {
    balances[escrow] == locked(ballots, candidate)
}

/// The ballots and the balances after a whole vote: as they were where the first step
/// refused; else as the second step and the ledger's answer leave them.
pub open spec fn after_vote(
    ctx: Vote,
    ballots: Seq<Ballot>,
    policy: VotePolicy,
    found: Option<DerivedAuthority>,
    now: i64,
    amount: u64,
    receipt: Receipt,
    balances: Map<Address, int>,
) -> (Seq<Ballot>, Map<Address, int>) {
    match vote_order(ctx, ballots, policy, found, now, amount) {
        Err(_) => (ballots, balances),
        Ok(order) => (vote_settled(ctx, ballots, amount, receipt), settled(balances, order, receipt)),
    }
}

/// The ballots and the balances after a whole release: as they were where the first
/// step refused; else as the second step and the ledger's answer leave them.
pub open spec fn after_close(
    ctx: Close,
    ballots: Seq<Ballot>,
    found: Option<DerivedAuthority>,
    now: i64,
    receipt: Receipt,
    balances: Map<Address, int>,
) -> (Seq<Ballot>, Map<Address, int>) {
    match close_order(ctx, ballots, found, now) {
        Err(_) => (ballots, balances),
        Ok(order) => (close_settled(ctx, ballots, receipt), settled(balances, order, receipt)),
    }
}

/// A vote keeps the balance: if the escrow account of the candidate held what was
/// locked for the candidate before a vote, it does so after it, whether the vote was
/// refused, the ledger refused the order or the vote went through. A vote whose order
/// the ledger carried out is never refused in its second step.
pub proof fn vote_conserves(
    ctx: Vote,
    ballots: Seq<Ballot>,
    policy: VotePolicy,
    found: Option<DerivedAuthority>,
    now: i64,
    amount: u64,
    receipt: Receipt,
    balances: Map<Address, int>,
)
    requires
        conserved(balances, ctx.candidate_account_token.address, ballots, ctx.candidate.id),
    ensures
        ({
            let (ballots_after, balances_after) = after_vote(
                ctx,
                ballots,
                policy,
                found,
                now,
                amount,
                receipt,
                balances,
            );
            conserved(
                balances_after,
                ctx.candidate_account_token.address,
                ballots_after,
                ctx.candidate.id,
            )
        }),
        vote_order(ctx, ballots, policy, found, now, amount) is Ok && receipt is Ok
            ==> vote_settlement(ctx, ballots, amount, receipt) is Ok,
{
    if vote_order(ctx, ballots, policy, found, now, amount) is Ok && receipt is Ok {
        lemma_credited_locked(ballots, ctx.candidate.id, ctx.authority, amount, ctx.candidate.id);
    }
}

/// A release keeps the balance: if the escrow account of the candidate held what was
/// locked for the candidate before a release, it does so after it, whether the release
/// was refused, the ledger refused the order or the release went through. A release
/// whose order the ledger carried out is never refused in its second step.
pub proof fn close_conserves(
    ctx: Close,
    ballots: Seq<Ballot>,
    found: Option<DerivedAuthority>,
    now: i64,
    receipt: Receipt,
    balances: Map<Address, int>,
)
    requires
        conserved(balances, ctx.candidate_account_token.address, ballots, ctx.candidate.id),
    ensures
        ({
            let (ballots_after, balances_after) = after_close(
                ctx,
                ballots,
                found,
                now,
                receipt,
                balances,
            );
            conserved(
                balances_after,
                ctx.candidate_account_token.address,
                ballots_after,
                ctx.candidate.id,
            )
        }),
        close_order(ctx, ballots, found, now) is Ok && receipt is Ok ==> close_settlement(
            ctx,
            ballots,
            receipt,
        ) is Ok,
{
    if close_order(ctx, ballots, found, now) is Ok && receipt is Ok {
        lemma_released_locked(ballots, ctx.candidate.id, ctx.authority, ctx.candidate.id);
    }
}

/// A vote or a release for one candidate leaves what is locked for every other
/// candidate as it is.
pub proof fn other_candidates_untouched(
    vote: Vote,
    close: Close,
    ballots: Seq<Ballot>,
    amount: u64,
    receipt: Receipt,
    other: Address,
)
    ensures
        other != vote.candidate.id ==> locked(vote_settled(vote, ballots, amount, receipt), other)
            == locked(ballots, other),
        other != close.candidate.id ==> locked(close_settled(close, ballots, receipt), other)
            == locked(ballots, other),
{
    if receipt is Ok {
        if credit_result(ballots, vote.candidate.id, vote.authority, amount) is Ok {
            lemma_credited_locked(ballots, vote.candidate.id, vote.authority, amount, other);
        }
        lemma_released_locked(ballots, close.candidate.id, close.authority, other);
    }
}

/// Before the end of the window a release is refused with `NotEndedCandidate`, whoever
/// asks and whatever the accounts; its first step writes nothing, so every ballot
/// keeps its amount.
pub proof fn close_before_end_is_refused(
    ctx: Close,
    ballots: Seq<Ballot>,
    found: Option<DerivedAuthority>,
    now: i64,
)
    requires
        now < ctx.candidate.end_date,
    ensures
        close_order(ctx, ballots, found, now) == Err::<TransferOrderView, ErrorCode>(
            ErrorCode::NotEndedCandidate,
        ),
{
}

/// Votes add up: after two votes of one voter for one candidate that the ledger
/// carried out, the ballot holds what it held before and both amounts, and the escrow
/// account has grown by both amounts.
pub proof fn votes_accumulate(
    ctx: Vote,
    ballots: Seq<Ballot>,
    policy: VotePolicy,
    found: Option<DerivedAuthority>,
    now: i64,
    first: u64,
    second: u64,
    balances: Map<Address, int>,
)
    requires
        unique_keys(ballots),
        vote_order(ctx, ballots, policy, found, now, first) is Ok,
        vote_order(
            ctx,
            vote_settled(ctx, ballots, first, Ok(())),
            policy,
            found,
            now,
            second,
        ) is Ok,
    ensures
        ({
            let held: int = match ballot_of(ballots, ctx.candidate.id, ctx.authority) {
                Some(ballot) => ballot.amount as int,
                None => 0,
            };
            let middle = vote_settled(ctx, ballots, first, Ok(()));
            let after = vote_settled(ctx, middle, second, Ok(()));
            let first_order = vote_order(ctx, ballots, policy, found, now, first)->Ok_0;
            let second_order = vote_order(ctx, middle, policy, found, now, second)->Ok_0;
            let paid = settled(settled(balances, first_order, Ok(())), second_order, Ok(()));
            &&& ballot_of(after, ctx.candidate.id, ctx.authority) matches Some(ballot)
            &&& ballot.amount == held + first + second
            &&& vote_settlement(ctx, middle, second, Ok(())) == Ok::<Ballot, ErrorCode>(ballot)
            &&& paid[ctx.candidate_account_token.address] == balances[ctx.candidate_account_token.address]
                + first + second
        }),
{
    let candidate = ctx.candidate.id;
    let voter = ctx.authority;
    let middle = vote_settled(ctx, ballots, first, Ok(()));
    lemma_credited_ballots(ballots, candidate, voter, first, candidate, voter);
    lemma_credited_unique(ballots, candidate, voter, first);
    lemma_credited_ballots(middle, candidate, voter, second, candidate, voter);
}

/// After a release that the ledger carried out, the voter has no ballot for the
/// candidate any more, the ballot handed back stands at zero, and the voter's account
/// has grown by exactly what the ballot held before the release.
pub proof fn close_returns_what_was_locked(
    ctx: Close,
    ballots: Seq<Ballot>,
    found: Option<DerivedAuthority>,
    now: i64,
    balances: Map<Address, int>,
)
    requires
        unique_keys(ballots),
        close_order(ctx, ballots, found, now) is Ok,
    ensures
        ({
            let before = ballot_of(ballots, ctx.candidate.id, ctx.authority);
            let order = close_order(ctx, ballots, found, now)->Ok_0;
            let paid = settled(balances, order, Ok(()));
            &&& before matches Some(ballot)
            &&& close_settlement(ctx, ballots, Ok(())) matches Ok(release)
            &&& release.ballot.amount == 0
            &&& release.returned == ballot.amount
            &&& release.refund_to == ctx.authority
            &&& ballot_of(close_settled(ctx, ballots, Ok(())), ctx.candidate.id, ctx.authority) is None
            &&& paid[ctx.voter_token_account.address] == balances[ctx.voter_token_account.address]
                + ballot.amount
            &&& paid[ctx.candidate_account_token.address]
                == balances[ctx.candidate_account_token.address] - ballot.amount
        }),
{
    lemma_released_ballots(
        ballots,
        ctx.candidate.id,
        ctx.authority,
        ctx.candidate.id,
        ctx.authority,
    );
}

/// A release moves no one else's funds. A voter without a ballot for the candidate is
/// refused; an order that is handed out moves exactly what the asking voter's own
/// ballot holds, to an account of that voter; and the second step leaves the ballot
/// of every other voter, and every ballot for another candidate, as it is.
pub proof fn close_touches_only_own_ballot(
    ctx: Close,
    ballots: Seq<Ballot>,
    found: Option<DerivedAuthority>,
    now: i64,
    receipt: Receipt,
    other_candidate: Address,
    other_voter: Address,
)
    requires
        unique_keys(ballots),
    ensures
        ballot_of(ballots, ctx.candidate.id, ctx.authority) is None ==> close_order(
            ctx,
            ballots,
            found,
            now,
        ) is Err,
        close_order(ctx, ballots, found, now) matches Ok(order) ==> {
            &&& ballot_of(ballots, ctx.candidate.id, ctx.authority) matches Some(own)
            &&& order.amount == own.amount
            &&& own.voter == ctx.authority
            &&& order.to == ctx.voter_token_account.address
            &&& ctx.voter_token_account.owner == ctx.authority
        },
        other_candidate != ctx.candidate.id || other_voter != ctx.authority ==> ballot_of(
            close_settled(ctx, ballots, receipt),
            other_candidate,
            other_voter,
        ) == ballot_of(ballots, other_candidate, other_voter),
{
    lemma_position_is_for(ballots, ctx.candidate.id, ctx.authority);
    if receipt is Ok {
        lemma_released_ballots(
            ballots,
            ctx.candidate.id,
            ctx.authority,
            other_candidate,
            other_voter,
        );
    }
}

} // verus!
