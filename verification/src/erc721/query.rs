//! The reads that the registry answers.

use vstd::prelude::*;
use crate::erc721::error::StdError;
use crate::erc721::msg::{MinterResponse, QueryMsg};
use crate::erc721::state::{Erc721, RegistryView, TokenId};
use crate::types::Addr;

verus! {

/// How many tokens an account owns.
#[derive(Debug, PartialEq, Eq)]
pub struct BalanceOfResponse {
    /// Owner of the tokens
    pub owner: String,
    /// Token count
    pub count: u32,
}

/// Who owns a token.
#[derive(Debug, PartialEq, Eq)]
pub struct OwnerOfResponse {
    /// Owner of the token
    pub owner: String,
}

/// Who is approved to move a token, if anybody.
#[derive(Debug, PartialEq, Eq)]
pub struct ApprovalResponse {
    pub approver: Option<String>,
}

/// The answer to a read, by the kind of read.
#[derive(Debug, PartialEq, Eq)]
pub enum QueryResponse {
    Minter(MinterResponse),
    BalanceOf(BalanceOfResponse),
    OwnerOf(OwnerOfResponse),
    Approval(ApprovalResponse),
}

/// The account approved for token `token_id`, if it has one.
pub open spec fn approved_for(registry: RegistryView, token_id: TokenId) -> Option<Seq<char>> {
    if registry.token_approvals.dom().contains(token_id) {
        Some(registry.token_approvals[token_id])
    } else {
        None
    }
}

impl Erc721 {
    /// Answers a read. Only the owner of a token that does not exist cannot
    /// be told.
    pub fn query(&self, msg: QueryMsg) -> (r: Result<QueryResponse, StdError>)
        ensures
            match msg {
                QueryMsg::Minter {  } => r matches Ok(QueryResponse::Minter(answer))
                    && answer.minter.deep_view() == self@.minter,
                QueryMsg::BalanceOf { owner } => r matches Ok(QueryResponse::BalanceOf(answer))
                    && answer.owner@ == owner@ && answer.count == self@.balance(owner@),
                QueryMsg::OwnerOf { token_id } => if self@.token_owner.dom().contains(token_id) {
                    r matches Ok(QueryResponse::OwnerOf(answer)) && answer.owner@
                        == self@.token_owner[token_id]
                } else {
                    r matches Err(e) && e == StdError::NotFound
                },
                QueryMsg::Approval { token_id } => r matches Ok(QueryResponse::Approval(answer))
                    && answer.approver.deep_view() == approved_for(self@, token_id),
            },
    {
        match msg {
            QueryMsg::Minter {  } => Ok(QueryResponse::Minter(self.minter())),
            QueryMsg::BalanceOf { owner } => Ok(QueryResponse::BalanceOf(self.balance_of(owner))),
            QueryMsg::OwnerOf { token_id } => match self.owner_of(token_id) {
                Ok(answer) => Ok(QueryResponse::OwnerOf(answer)),
                Err(e) => Err(e),
            },
            QueryMsg::Approval { token_id } => Ok(QueryResponse::Approval(self.approval(token_id))),
        }
    }

    /// Who may mint.
    pub fn minter(&self) -> (r: MinterResponse)
        ensures
            r.minter.deep_view() == self@.minter,
    {
        MinterResponse {
            minter: match &self.minter {
                Some(minter) => Some(minter.clone().into_string()),
                None => None,
            },
        }
    }

    /// How many tokens `of` owns.
    pub fn balance_of(&self, of: String) -> (r: BalanceOfResponse)
        ensures
            r.owner@ == of@,
            r.count == self@.balance(of@),
    {
        let count = self.count_of(&Addr::unchecked(of.as_str()));
        BalanceOfResponse { owner: of, count }
    }

    /// Who owns token `token_id`. A token that does not exist is not found.
    pub fn owner_of(&self, token_id: TokenId) -> (r: Result<OwnerOfResponse, StdError>)
        ensures
            match r {
                Ok(answer) => self@.token_owner.dom().contains(token_id) && answer.owner@
                    == self@.token_owner[token_id],
                Err(e) => e == StdError::NotFound && !self@.token_owner.dom().contains(token_id),
            },
    {
        match self.find(token_id) {
            Some(i) => Ok(OwnerOfResponse { owner: self.tokens[i].owner.clone().into_string() }),
            None => Err(StdError::NotFound),
        }
    }

    /// Who is approved to move token `token_id`, if anybody.
    pub fn approval(&self, token_id: TokenId) -> (r: ApprovalResponse)
        ensures
            r.approver.deep_view() == approved_for(self@, token_id),
    {
        match self.find(token_id) {
            Some(i) => ApprovalResponse {
                approver: match &self.tokens[i].approved {
                    Some(spender) => Some(spender.clone().into_string()),
                    None => None,
                },
            },
            None => ApprovalResponse { approver: None },
        }
    }
}

} // verus!
