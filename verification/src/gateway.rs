//! The transfer gateway: what the operations ask of the token ledger, and what the
//! ledger answers. The ledger itself is not part of this library; an order is carried
//! out by whoever drives the operation.

use crate::address::Address;
use crate::authority::{AuthorityProof, AuthorityProofView};
use crate::errors::ErrorCode;
use vstd::prelude::*;

verus! {

/// An order to move `amount` from one token account to another.
#[derive(Clone, Debug, PartialEq, Eq)]
pub struct TransferOrder {
    /// How much to move.
    pub amount: u64,
    /// The account that gives.
    pub from: Address,
    /// The account that receives.
    pub to: Address,
    /// Who authorizes the move out of `from`.
    pub authority: Address,
    /// `None` where `authority` signs for itself; the proof that signs for it where it
    /// is a derived address.
    pub proof: Option<AuthorityProof>,
}

/// A transfer order by its contents.
pub struct TransferOrderView {
    pub amount: u64,
    pub from: Address,
    pub to: Address,
    pub authority: Address,
    pub proof: Option<AuthorityProofView>,
}

impl View for TransferOrder {
    type V = TransferOrderView;

    open spec fn view(&self) -> TransferOrderView {
        TransferOrderView {
            amount: self.amount,
            from: self.from,
            to: self.to,
            authority: self.authority,
            proof: match self.proof {
                Some(proof) => Some(proof@),
                None => None,
            },
        }
    }
}

/// What an operation has decided, by its contents: the order to carry out, or the
/// error.
pub open spec fn planned(decision: Result<TransferOrder, ErrorCode>) -> Result<
    TransferOrderView,
    ErrorCode,
> {
    match decision {
        Ok(order) => Ok(order@),
        Err(code) => Err(code),
    }
}

/// Why the token ledger did not carry out an order.
#[derive(Clone, Copy, Debug, PartialEq, Eq, Structural)]
pub enum GatewayError {
    /// The signer or the proof does not authorize the move.
    Unauthorized,
    /// Anything else: the balance does not suffice, the assets differ.
    Rejected,
}

/// What the token ledger answers to an order.
pub type Receipt = Result<(), GatewayError>;

/// The error that an operation returns where the ledger refused its order.
pub open spec fn refusal_of(error: GatewayError) -> ErrorCode {
    match error {
        GatewayError::Unauthorized => ErrorCode::AuthorizationError,
        GatewayError::Rejected => ErrorCode::ResourceError,
    }
}

/// The error that an operation returns where the ledger refused its order.
pub fn refusal(error: GatewayError) -> (code: ErrorCode)
    ensures
        code == refusal_of(error),
{
    match error {
        GatewayError::Unauthorized => ErrorCode::AuthorizationError,
        GatewayError::Rejected => ErrorCode::ResourceError,
    }
}

/// The balances after `order` has been carried out in full.
pub open spec fn moved(balances: Map<Address, int>, order: TransferOrderView) -> Map<
    Address,
    int,
> {
    if order.from == order.to {
        balances
    } else {
        balances.insert(order.from, balances[order.from] - order.amount).insert(
            order.to,
            balances[order.to] + order.amount,
        )
    }
}

/// The balances after the ledger has answered `order`: a move applies in full or not
/// at all.
pub open spec fn settled(
    balances: Map<Address, int>,
    order: TransferOrderView,
    receipt: Receipt,
) -> Map<Address, int> {
    match receipt {
        Ok(_) => moved(balances, order),
        Err(_) => balances,
    }
}

} // verus!
