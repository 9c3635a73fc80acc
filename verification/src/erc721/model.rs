//! The registry as a mathematical state machine: for each call, when it is
//! refused, the state it leads to, and the record it leaves.

use vstd::prelude::*;
use crate::erc721::error::{ContractError, ContractErrorView, OwnershipError, StdError};
use crate::erc721::msg::{Event, EventView};
use crate::erc721::state::{RegistryView, TokenId};

verus! {

/// What a call leaves behind: the state after it, and what the caller is
/// told.
pub struct Outcome {
    pub state: RegistryView,
    pub result: Result<EventView, ContractErrorView>,
}

/// A refused call changes nothing; an accepted one leads to `next` and
/// leaves the record `event`.
pub open spec fn outcome(
    pre: RegistryView,
    refusal: Option<ContractErrorView>,
    next: RegistryView,
    event: EventView,
) -> Outcome {
    match refusal {
        Some(e) => Outcome { state: pre, result: Err(e) },
        None => Outcome { state: next, result: Ok(event) },
    }
}

/// What the caller of a call is told, as a mathematical value.
pub open spec fn result_view(r: Result<Event, ContractError>) -> Result<
    EventView,
    ContractErrorView,
> {
    match r {
        Ok(event) => Ok(event@),
        Err(e) => Err(e@),
    }
}

/// Why `caller` may not mint, if it may not: the registry has no minter, or
/// the minter is another account.
pub open spec fn minter_refusal(pre: RegistryView, caller: Seq<char>) -> Option<
    ContractErrorView,
> {
    match pre.minter {
        None => Some(ContractErrorView::Ownership(OwnershipError::NoOwner)),
        Some(minter) => if caller != minter {
            Some(ContractErrorView::Ownership(OwnershipError::NotOwner))
        } else {
            None
        },
    }
}

/// Why `mint` is refused, if it is: the caller may not mint, the identifier
/// is taken, or the owner's count of tokens cannot grow.
pub open spec fn mint_refusal(
    pre: RegistryView,
    caller: Seq<char>,
    token_id: TokenId,
    owner: Seq<char>,
) -> Option<ContractErrorView> {
    if minter_refusal(pre, caller) is Some {
        minter_refusal(pre, caller)
    } else if pre.token_owner.dom().contains(token_id) {
        Some(ContractErrorView::Claimed)
    } else if pre.balance(owner) >= u32::MAX {
        Some(ContractErrorView::Std(StdError::Overflow))
    } else {
        None
    }
}

/// The state after an accepted `mint`: the token exists and `owner` owns it.
pub open spec fn after_mint(
    pre: RegistryView,
    token_id: TokenId,
    owner: Seq<char>,
) -> RegistryView {
    RegistryView { token_owner: pre.token_owner.insert(token_id, owner), ..pre }
}

/// The whole of `mint`.
pub open spec fn mint_outcome(
    pre: RegistryView,
    caller: Seq<char>,
    token_id: TokenId,
    owner: Seq<char>,
) -> Outcome {
    outcome(
        pre,
        mint_refusal(pre, caller, token_id, owner),
        after_mint(pre, token_id, owner),
        EventView::Mint { minter: caller, owner, token_id },
    )
}

/// Why `approve` is refused, if it is: the token does not exist, or the
/// caller does not own it.
pub open spec fn approve_refusal(pre: RegistryView, caller: Seq<char>, token_id: TokenId) -> Option<
    ContractErrorView,
> {
    if !pre.token_owner.dom().contains(token_id) {
        Some(ContractErrorView::Ownership(OwnershipError::NoOwner))
    } else if pre.token_owner[token_id] != caller {
        Some(ContractErrorView::Ownership(OwnershipError::NotOwner))
    } else {
        None
    }
}

/// The state after an accepted `approve`: `spender` is the one account
/// approved for the token.
pub open spec fn after_approve(
    pre: RegistryView,
    spender: Seq<char>,
    token_id: TokenId,
) -> RegistryView {
    RegistryView { token_approvals: pre.token_approvals.insert(token_id, spender), ..pre }
}

/// The whole of `approve`.
pub open spec fn approve_outcome(
    pre: RegistryView,
    caller: Seq<char>,
    spender: Seq<char>,
    token_id: TokenId,
) -> Outcome {
    outcome(
        pre,
        approve_refusal(pre, caller, token_id),
        after_approve(pre, spender, token_id),
        EventView::Approve { sender: caller, spender, token_id },
    )
}

/// Whether `caller` may move the token: it owns the token, or the owner
/// approved it.
pub open spec fn may_move(pre: RegistryView, caller: Seq<char>, token_id: TokenId) -> bool {
    ||| pre.token_owner[token_id] == caller
    ||| pre.token_approvals.dom().contains(token_id) && pre.token_approvals[token_id] == caller
}

/// Why `transfer_nft` is refused, if it is: the token does not exist, the
/// caller may not move it, or the recipient's count of tokens cannot grow.
pub open spec fn transfer_refusal(
    pre: RegistryView,
    caller: Seq<char>,
    recipient: Seq<char>,
    token_id: TokenId,
) -> Option<ContractErrorView> {
    if !pre.token_owner.dom().contains(token_id) {
        Some(ContractErrorView::Ownership(OwnershipError::NoOwner))
    } else if !may_move(pre, caller, token_id) {
        Some(ContractErrorView::ApprovalNotFound { spender: caller })
    } else if recipient != pre.token_owner[token_id] && pre.balance(recipient) >= u32::MAX {
        Some(ContractErrorView::Std(StdError::Overflow))
    } else {
        None
    }
}

/// The state after an accepted `transfer_nft`: `recipient` owns the token,
/// and nobody is approved for it.
pub open spec fn after_transfer(
    pre: RegistryView,
    recipient: Seq<char>,
    token_id: TokenId,
) -> RegistryView {
    RegistryView {
        token_owner: pre.token_owner.insert(token_id, recipient),
        token_approvals: pre.token_approvals.remove(token_id),
        ..pre
    }
}

/// The whole of `transfer_nft`.
pub open spec fn transfer_outcome(
    pre: RegistryView,
    caller: Seq<char>,
    recipient: Seq<char>,
    token_id: TokenId,
) -> Outcome {
    outcome(
        pre,
        transfer_refusal(pre, caller, recipient, token_id),
        after_transfer(pre, recipient, token_id),
        EventView::TransferNft { sender: caller, recipient, token_id },
    )
}

/// Why a transfer of custody from `from` is refused, if it is: the token
/// does not exist, `from` does not hold it, or the transfer itself is
/// refused.
pub open spec fn transfer_from_refusal(
    pre: RegistryView,
    caller: Seq<char>,
    from: Seq<char>,
    to: Seq<char>,
    token_id: TokenId,
) -> Option<ContractErrorView> {
    if !pre.token_owner.dom().contains(token_id) {
        Some(ContractErrorView::Ownership(OwnershipError::NoOwner))
    } else if pre.token_owner[token_id] != from {
        Some(ContractErrorView::Ownership(OwnershipError::NotOwner))
    } else {
        transfer_refusal(pre, caller, to, token_id)
    }
}

/// The whole of `transfer_from`.
pub open spec fn transfer_from_outcome(
    pre: RegistryView,
    caller: Seq<char>,
    from: Seq<char>,
    to: Seq<char>,
    token_id: TokenId,
) -> Outcome {
    outcome(
        pre,
        transfer_from_refusal(pre, caller, from, to, token_id),
        after_transfer(pre, to, token_id),
        EventView::TransferNft { sender: caller, recipient: to, token_id },
    )
}

} // verus!
