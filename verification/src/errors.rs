//! The errors of the three operations, and the kinds they fall into.

use vstd::prelude::*;

verus! {

/// Why an operation was refused. A refused operation changes nothing.
#[derive(Clone, Copy, Debug, PartialEq, Eq, Structural)]
pub enum ErrorCode {
    /// The window of a new candidate is empty or reversed.
    InvalidDateRange,
    /// A vote of nothing, where the policy refuses such votes.
    ZeroAmount,
    /// A vote outside the candidate's window, where the policy enforces the window.
    NotActiveCandidate,
    /// The candidate's window has not ended yet.
    NotEndedCandidate,
    /// The voter has no ballot for the candidate.
    BallotNotFound,
    /// A signer, an account's owner or a derived address is not the expected one.
    AuthorizationError,
    /// An account holds another asset than the candidate accepts.
    MintMismatch,
    /// The locked amount would no longer fit its field.
    AmountOverflow,
    /// The token ledger refused the transfer.
    ResourceError,
}

/// The four kinds of error.
#[derive(Clone, Copy, Debug, PartialEq, Eq, Structural)]
pub enum ErrorKind {
    /// Bad input.
    Validation,
    /// The state does not allow the operation yet, or no longer.
    Precondition,
    /// The caller may not do this.
    Authorization,
    /// The assets are not there, or not of the right sort.
    Resource,
}

impl ErrorCode {
    /// The kind of the error.
    pub open spec fn spec_kind(self) -> ErrorKind {
        match self {
            ErrorCode::InvalidDateRange | ErrorCode::ZeroAmount => ErrorKind::Validation,
            ErrorCode::NotActiveCandidate
            | ErrorCode::NotEndedCandidate
            | ErrorCode::BallotNotFound => ErrorKind::Precondition,
            ErrorCode::AuthorizationError => ErrorKind::Authorization,
            ErrorCode::MintMismatch
            | ErrorCode::AmountOverflow
            | ErrorCode::ResourceError => ErrorKind::Resource,
        }
    }

    /// The kind of the error.
    #[verifier::when_used_as_spec(spec_kind)]
    pub fn kind(self) -> (kind: ErrorKind)
        ensures
            kind == self.spec_kind(),
    {
        match self {
            ErrorCode::InvalidDateRange | ErrorCode::ZeroAmount => ErrorKind::Validation,
            ErrorCode::NotActiveCandidate
            | ErrorCode::NotEndedCandidate
            | ErrorCode::BallotNotFound => ErrorKind::Precondition,
            ErrorCode::AuthorizationError => ErrorKind::Authorization,
            ErrorCode::MintMismatch
            | ErrorCode::AmountOverflow
            | ErrorCode::ResourceError => ErrorKind::Resource,
        }
    }
}

} // verus!
