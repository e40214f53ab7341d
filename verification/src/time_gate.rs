//! Where a moment lies with respect to a candidate's window.

use crate::schema::Candidate;
use vstd::prelude::*;

verus! {

/// The three phases of a candidate.
#[derive(Clone, Copy, Debug, PartialEq, Eq, Structural)]
pub enum Phase {
    /// Before the window: `now < start_date`.
    Created,
    /// Within the window: `start_date <= now < end_date`.
    Active,
    /// Past the window: `end_date <= now`.
    Ended,
}

/// The phase of `candidate` at `now`. The end of the window decides first, so that a
/// candidate is `Ended` from `end_date` on whatever its `start_date`.
pub open spec fn phase_at(candidate: Candidate, now: i64) -> Phase {
    if now >= candidate.end_date {
        Phase::Ended
    } else if now >= candidate.start_date {
        Phase::Active
    } else {
        Phase::Created
    }
}

/// The phase of `candidate` at `now`.
pub fn phase(candidate: &Candidate, now: i64) -> (phase: Phase)
    ensures
        phase == phase_at(*candidate, now),
{
    if now >= candidate.end_date {
        Phase::Ended
    } else if now >= candidate.start_date {
        Phase::Active
    } else {
        Phase::Created
    }
}

/// Whether the window of `candidate` has ended at `now`.
pub fn has_ended(candidate: &Candidate, now: i64) -> (ended: bool)
    ensures
        ended == (now >= candidate.end_date),
        ended == (phase_at(*candidate, now) == Phase::Ended),
{
    now >= candidate.end_date
}

/// Whether `now` lies in the window of `candidate`.
pub fn is_active(candidate: &Candidate, now: i64) -> (active: bool)
    ensures
        active == (candidate.start_date <= now < candidate.end_date),
        active == (phase_at(*candidate, now) == Phase::Active),
{
    candidate.start_date <= now && now < candidate.end_date
}

} // verus!
