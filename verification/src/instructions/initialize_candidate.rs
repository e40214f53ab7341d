//! The creation of a candidate.

use crate::address::Address;
use crate::errors::ErrorCode;
use crate::schema::Candidate;
use vstd::prelude::*;

verus! {

/// What the creation of a candidate returns: the candidate with the given fields as
/// they are, or `InvalidDateRange` where the window would be empty.
pub open spec fn registration(
    candidate_id: Address,
    mint: Address,
    start_date: i64,
    end_date: i64,
    authority: Address,
) -> Result<Candidate, ErrorCode> {
    if start_date < end_date {
        Ok(Candidate { id: candidate_id, mint, start_date, end_date, authority })
    } else {
        Err(ErrorCode::InvalidDateRange)
    }
}

/// Creates the candidate `candidate_id`, which accepts `mint` in the window
/// `[start_date, end_date)`. Its escrow account is the one that belongs to the authority
/// derived from `candidate_id`: votes and releases check that.
pub fn exec(
    candidate_id: Address,
    mint: Address,
    start_date: i64,
    end_date: i64,
    authority: Address,
) -> (created: Result<Candidate, ErrorCode>)
    ensures
        created == registration(candidate_id, mint, start_date, end_date, authority),
        created matches Ok(candidate) ==> candidate.wf(),
{
    if start_date < end_date {
        Ok(Candidate { id: candidate_id, mint, start_date, end_date, authority })
    } else {
        Err(ErrorCode::InvalidDateRange)
    }
}

} // verus!
