//! The messages that the registry takes, and the record it gives of a call
//! that it carried out.

use vstd::prelude::*;
use crate::erc721::state::TokenId;
use crate::types::Addr;

verus! {

/// What a registry is created with. Without a minter named, the sender
/// mints.
#[derive(Debug, PartialEq, Eq)]
pub struct InstantiateMsg {
    /// Name of the collection.
    pub name: String,
    /// Symbol of the collection.
    pub symbol: String,
    pub minter: Option<String>,
}

/// The calls that change the registry.
#[derive(Debug, PartialEq, Eq)]
pub enum ExecuteMsg {
    /// Moves a token to another account.
    TransferNft { recipient: String, token_id: TokenId },
    /// Lets `spender` move the token in the owner's place.
    Approve { spender: String, token_id: TokenId },
    /// Creates a token. Only the minter may do so.
    Mint { token_id: TokenId, owner: String },
}

/// The reads that the registry answers.
#[derive(Debug, PartialEq, Eq)]
pub enum QueryMsg {
    /// How many tokens an account owns.
    BalanceOf { owner: String },
    /// Who owns a token.
    OwnerOf { token_id: TokenId },
    /// Who is approved to move a token.
    Approval { token_id: TokenId },
    /// Who may mint.
    Minter {  },
}

/// Who may mint.
#[derive(Debug, PartialEq, Eq)]
pub struct MinterResponse {
    pub minter: Option<String>,
}

/// The record of one call that the registry carried out.
#[derive(Debug, PartialEq, Eq)]
pub enum Event {
    Mint { minter: Addr, owner: Addr, token_id: TokenId },
    Approve { sender: Addr, spender: Addr, token_id: TokenId },
    TransferNft { sender: Addr, recipient: Addr, token_id: TokenId },
}

/// The mathematical value of an [`Event`].
pub enum EventView {
    Mint { minter: Seq<char>, owner: Seq<char>, token_id: TokenId },
    Approve { sender: Seq<char>, spender: Seq<char>, token_id: TokenId },
    TransferNft { sender: Seq<char>, recipient: Seq<char>, token_id: TokenId },
}

impl View for Event {
    type V = EventView;

    open spec fn view(&self) -> EventView {
        match self {
            Event::Mint { minter, owner, token_id } => EventView::Mint {
                minter: minter@,
                owner: owner@,
                token_id: *token_id,
            },
            Event::Approve { sender, spender, token_id } => EventView::Approve {
                sender: sender@,
                spender: spender@,
                token_id: *token_id,
            },
            Event::TransferNft { sender, recipient, token_id } => EventView::TransferNft {
                sender: sender@,
                recipient: recipient@,
                token_id: *token_id,
            },
        }
    }
}

} // verus!
