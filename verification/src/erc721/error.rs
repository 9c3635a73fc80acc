//! Why a call to the registry was refused.

use vstd::prelude::*;

verus! {

/// Failures of the minter's authority.
#[derive(Clone, Copy, Debug, PartialEq, Eq, Structural)]
pub enum OwnershipError {
    /// The registry has no minter, or the token has no owner.
    NoOwner,
    /// The caller is not the minter, or not the token's owner.
    NotOwner,
}

/// Failures of the store and of arithmetic.
#[derive(Clone, Copy, Debug, PartialEq, Eq, Structural)]
pub enum StdError {
    /// What was asked for is not recorded.
    NotFound,
    /// A count of tokens does not fit in 32 bits.
    Overflow,
}

/// The typed failures of the registry. A refused call changes nothing.
#[derive(Debug, PartialEq, Eq)]
pub enum ContractError {
    Std(StdError),
    Ownership(OwnershipError),
    /// The token identifier is taken.
    Claimed,
    /// The caller neither owns the token nor is approved for it.
    ApprovalNotFound { spender: String },
}

/// The mathematical value of a [`ContractError`].
pub enum ContractErrorView {
    Std(StdError),
    Ownership(OwnershipError),
    Claimed,
    ApprovalNotFound { spender: Seq<char> },
}

impl View for ContractError {
    type V = ContractErrorView;

    open spec fn view(&self) -> ContractErrorView {
        match self {
            ContractError::Std(e) => ContractErrorView::Std(*e),
            ContractError::Ownership(e) => ContractErrorView::Ownership(*e),
            ContractError::Claimed => ContractErrorView::Claimed,
            ContractError::ApprovalNotFound { spender } => ContractErrorView::ApprovalNotFound {
                spender: spender@,
            },
        }
    }
}

} // verus!
