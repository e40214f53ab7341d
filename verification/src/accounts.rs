//! The checks that the accounts handed to an operation belong together, made before
//! anything is moved or written.

use crate::address::Address;
use crate::authority::DerivedAuthority;
use crate::errors::ErrorCode;
use crate::schema::{Candidate, TokenAccount};
use vstd::prelude::*;

verus! {

/// Why the accounts of a vote or a release do not fit the candidate, if they do not.
///
/// All of them must hold the candidate's asset (`MintMismatch`). `treasurer` must be
/// the authority `derived` from the candidate; the escrow account must belong to it and
/// the voter's account to the voter, who is `authority`; and the two accounts must
/// differ (`AuthorizationError`).
pub open spec fn accounts_refusal(
    authority: Address,
    candidate: Candidate,
    treasurer: Address,
    mint: Address,
    escrow: TokenAccount,
    wallet: TokenAccount,
    derived: Option<DerivedAuthority>,
) -> Option<ErrorCode> {
    if candidate.mint != mint || escrow.mint != mint || wallet.mint != mint {
        Some(ErrorCode::MintMismatch)
    } else if !(derived matches Some(found) && found.address == treasurer) {
        Some(ErrorCode::AuthorizationError)
    } else if escrow.owner != treasurer || wallet.owner != authority || escrow.address
        == wallet.address {
        Some(ErrorCode::AuthorizationError)
    } else {
        None
    }
}

/// Checks that the accounts of a vote or a release fit the candidate, and returns the
/// authority that the escrow account is bound to.
pub fn check_accounts(
    authority: &Address,
    candidate: &Candidate,
    treasurer: &Address,
    mint: &Address,
    escrow: &TokenAccount,
    wallet: &TokenAccount,
    derived: Option<DerivedAuthority>,
) -> (checked: Result<DerivedAuthority, ErrorCode>)
    ensures
        match accounts_refusal(
            *authority,
            *candidate,
            *treasurer,
            *mint,
            *escrow,
            *wallet,
            derived,
        ) {
            Some(code) => checked == Err::<DerivedAuthority, ErrorCode>(code),
            None => derived == Some(checked->Ok_0) && checked is Ok,
        },
{
    if candidate.mint != *mint || escrow.mint != *mint || wallet.mint != *mint {
        return Err(ErrorCode::MintMismatch);
    }
    let bound = match derived {
        Some(found) => {
            if found.address != *treasurer {
                return Err(ErrorCode::AuthorizationError);
            }
            found
        },
        None => { return Err(ErrorCode::AuthorizationError); },
    };
    if escrow.owner != *treasurer || wallet.owner != *authority || escrow.address
        == wallet.address {
        return Err(ErrorCode::AuthorizationError);
    }
    Ok(bound)
}

} // verus!
