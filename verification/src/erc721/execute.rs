//! The calls that change the registry. Each one either is refused and
//! changes nothing, or is carried out whole.

use vstd::prelude::*;
use crate::erc721::error::{ContractError, OwnershipError, StdError};
use crate::erc721::model::{
    approve_outcome, mint_outcome, result_view, transfer_from_outcome, transfer_outcome,
};
use crate::erc721::msg::{Event, ExecuteMsg, InstantiateMsg};
use crate::erc721::state::{
    lemma_balance_after_mint, lemma_balance_after_transfer, lemma_owners_finite,
    lemma_push_token, lemma_replace_token, owned_by, owners_of, registry_of, Erc721,
    RegistryView, Token, TokenId,
};
use crate::types::{Addr, MessageInfo};

verus! {

/// The registry without tokens.
pub open spec fn empty(minter: Option<Seq<char>>) -> RegistryView {
    RegistryView { minter, token_owner: Map::empty(), token_approvals: Map::empty() }
}

proof fn lemma_no_tokens()
    ensures
        owners_of(Seq::<Token>::empty()) == Map::<TokenId, Seq<char>>::empty(),
        registry_of(None, Seq::<Token>::empty()).token_approvals == Map::<
            TokenId,
            Seq<char>,
        >::empty(),
        forall|owner: Seq<char>| #[trigger]
            owned_by(owners_of(Seq::<Token>::empty()), owner).len() == 0,
{
    let none = Seq::<Token>::empty();
    assert(owners_of(none) =~= Map::<TokenId, Seq<char>>::empty());
    assert(registry_of(None, none).token_approvals =~= Map::<TokenId, Seq<char>>::empty());
    assert forall|owner: Seq<char>| #[trigger] owned_by(owners_of(none), owner).len() == 0 by {
        assert(owned_by(owners_of(none), owner) =~= Set::<TokenId>::empty());
    }
}

impl Erc721 {
    /// Creates a registry without tokens, in which `minter` may mint.
    pub fn new(minter: Option<Addr>) -> (r: Erc721)
        ensures
            r@.wf(),
            r@ == empty(minter.deep_view()),
    {
        proof {
            lemma_no_tokens();
        }
        let r = Erc721 { minter, tokens: Vec::new() };
        proof {
            assert(r@.token_owner.dom() =~= Set::<TokenId>::empty());
            assert(r@.token_approvals.dom() =~= Set::<TokenId>::empty());
            assert(r@.token_approvals =~= Map::<TokenId, Seq<char>>::empty());
        }
        r
    }

    /// Creates the registry that `msg` describes. The minter is the account
    /// that `msg` names, or else the sender.
    pub fn instantiate(info: &MessageInfo, msg: InstantiateMsg) -> (r: Erc721)
        ensures
            r@.wf(),
            r@ == empty(
                Some(
                    match msg.minter {
                        Some(minter) => minter@,
                        None => info.sender@,
                    },
                ),
            ),
    {
        let minter = match msg.minter {
            Some(minter) => Addr::unchecked(minter.as_str()),
            None => info.sender.clone(),
        };
        Erc721::new(Some(minter))
    }

    /// Carries out one call in the name of the sender.
    pub fn execute(&mut self, info: &MessageInfo, msg: ExecuteMsg) -> (r: Result<
        Event,
        ContractError,
    >)
        ensures
            final(self)@.wf(),
            match msg {
                ExecuteMsg::Mint { token_id, owner } => {
                    &&& final(self)@ == mint_outcome(
                        old(self)@,
                        info.sender@,
                        token_id,
                        owner@,
                    ).state
                    &&& result_view(r) == mint_outcome(
                        old(self)@,
                        info.sender@,
                        token_id,
                        owner@,
                    ).result
                },
                ExecuteMsg::Approve { spender, token_id } => {
                    &&& final(self)@ == approve_outcome(
                        old(self)@,
                        info.sender@,
                        spender@,
                        token_id,
                    ).state
                    &&& result_view(r) == approve_outcome(
                        old(self)@,
                        info.sender@,
                        spender@,
                        token_id,
                    ).result
                },
                ExecuteMsg::TransferNft { recipient, token_id } => {
                    &&& final(self)@ == transfer_outcome(
                        old(self)@,
                        info.sender@,
                        recipient@,
                        token_id,
                    ).state
                    &&& result_view(r) == transfer_outcome(
                        old(self)@,
                        info.sender@,
                        recipient@,
                        token_id,
                    ).result
                },
            },
    {
        match msg {
            ExecuteMsg::Mint { token_id, owner } => {
                self.mint(&info.sender, token_id, &Addr::unchecked(owner.as_str()))
            },
            ExecuteMsg::Approve { spender, token_id } => {
                self.approve(&info.sender, &Addr::unchecked(spender.as_str()), token_id)
            },
            ExecuteMsg::TransferNft { recipient, token_id } => {
                self.transfer_nft(&info.sender, &Addr::unchecked(recipient.as_str()), token_id)
            },
        }
    }

    /// Creates token `token_id` and gives it to `owner`. Only the minter may
    /// do so, and only under an identifier that is free.
    pub fn mint(&mut self, caller: &Addr, token_id: TokenId, owner: &Addr) -> (r: Result<
        Event,
        ContractError,
    >)
        ensures
            final(self)@.wf(),
            final(self)@ == mint_outcome(old(self)@, caller@, token_id, owner@).state,
            result_view(r) == mint_outcome(old(self)@, caller@, token_id, owner@).result,
    {
        proof {
            use_type_invariant(&*self);
            self.lemma_wf();
        }
        match &self.minter {
            None => {
                return Err(ContractError::Ownership(OwnershipError::NoOwner));
            },
            Some(minter) => {
                if !(*minter == *caller) {
                    return Err(ContractError::Ownership(OwnershipError::NotOwner));
                }
            },
        }
        if self.find(token_id).is_some() {
            return Err(ContractError::Claimed);
        }
        if self.count_of(owner) == u32::MAX {
            return Err(ContractError::Std(StdError::Overflow));
        }
        let token = Token { id: token_id, owner: owner.clone(), approved: None };
        proof {
            lemma_no_tokens();
        }
        let mut tokens: Vec<Token> = Vec::new();
        std::mem::swap(&mut tokens, &mut self.tokens);
        proof {
            lemma_push_token(tokens@, token);
            lemma_owners_finite(tokens@);
            assert forall|who: Seq<char>| #[trigger]
                owned_by(owners_of(tokens@.push(token)), who).len() <= u32::MAX by {
                lemma_balance_after_mint(owners_of(tokens@), token_id, owner@, who);
            }
        }
        tokens.push(token);
        self.tokens = tokens;
        proof {
            self.lemma_wf();
        }
        Ok(Event::Mint { minter: caller.clone(), owner: owner.clone(), token_id })
    }

    /// Lets `spender` move token `token_id` in the owner's place. Only the
    /// owner may say so; an earlier approval is replaced.
    pub fn approve(&mut self, caller: &Addr, spender: &Addr, token_id: TokenId) -> (r: Result<
        Event,
        ContractError,
    >)
        ensures
            final(self)@.wf(),
            final(self)@ == approve_outcome(old(self)@, caller@, spender@, token_id).state,
            result_view(r) == approve_outcome(old(self)@, caller@, spender@, token_id).result,
    {
        proof {
            use_type_invariant(&*self);
            self.lemma_wf();
        }
        let i: usize = match self.find(token_id) {
            Some(i) => i,
            None => {
                return Err(ContractError::Ownership(OwnershipError::NoOwner));
            },
        };
        if !(self.tokens[i].owner == *caller) {
            return Err(ContractError::Ownership(OwnershipError::NotOwner));
        }
        let token = Token {
            id: token_id,
            owner: self.tokens[i].owner.clone(),
            approved: Some(spender.clone()),
        };
        proof {
            lemma_no_tokens();
        }
        let mut tokens: Vec<Token> = Vec::new();
        std::mem::swap(&mut tokens, &mut self.tokens);
        proof {
            lemma_replace_token(tokens@, i as int, token);
            assert(owners_of(tokens@.update(i as int, token)) =~= owners_of(tokens@));
        }
        tokens.set(i, token);
        self.tokens = tokens;
        proof {
            self.lemma_wf();
        }
        Ok(Event::Approve { sender: caller.clone(), spender: spender.clone(), token_id })
    }

    /// Moves token `token_id` to `recipient`. Only the owner and the account
    /// that the owner approved may do so. The approval ends with the move.
    pub fn transfer_nft(&mut self, caller: &Addr, recipient: &Addr, token_id: TokenId) -> (r:
        Result<Event, ContractError>)
        ensures
            final(self)@.wf(),
            final(self)@ == transfer_outcome(old(self)@, caller@, recipient@, token_id).state,
            result_view(r) == transfer_outcome(old(self)@, caller@, recipient@, token_id).result,
    {
        proof {
            use_type_invariant(&*self);
            self.lemma_wf();
        }
        let i: usize = match self.find(token_id) {
            Some(i) => i,
            None => {
                return Err(ContractError::Ownership(OwnershipError::NoOwner));
            },
        };
        let owns = self.tokens[i].owner == *caller;
        let approved = match &self.tokens[i].approved {
            Some(spender) => *spender == *caller,
            None => false,
        };
        if !(owns || approved) {
            return Err(ContractError::ApprovalNotFound { spender: caller.clone().into_string() });
        }
        if !(self.tokens[i].owner == *recipient) && self.count_of(recipient) == u32::MAX {
            return Err(ContractError::Std(StdError::Overflow));
        }
        let token = Token { id: token_id, owner: recipient.clone(), approved: None };
        proof {
            lemma_no_tokens();
        }
        let mut tokens: Vec<Token> = Vec::new();
        std::mem::swap(&mut tokens, &mut self.tokens);
        proof {
            lemma_replace_token(tokens@, i as int, token);
            lemma_owners_finite(tokens@);
            assert forall|who: Seq<char>| #[trigger]
                owned_by(owners_of(tokens@.update(i as int, token)), who).len() <= u32::MAX by {
                lemma_balance_after_transfer(owners_of(tokens@), token_id, recipient@, who);
            }
        }
        tokens.set(i, token);
        self.tokens = tokens;
        proof {
            self.lemma_wf();
        }
        Ok(Event::TransferNft { sender: caller.clone(), recipient: recipient.clone(), token_id })
    }

    /// Moves the custody of token `token_id` from `from` to `to`, in the
    /// name of `caller`. Fails closed: where `from` does not hold the token
    /// nothing moves, whoever calls.
    pub fn transfer_from(&mut self, caller: &Addr, from: &Addr, to: &Addr, token_id: TokenId) -> (r:
        Result<Event, ContractError>)
        ensures
            final(self)@.wf(),
            final(self)@ == transfer_from_outcome(old(self)@, caller@, from@, to@, token_id).state,
            result_view(r) == transfer_from_outcome(
                old(self)@,
                caller@,
                from@,
                to@,
                token_id,
            ).result,
    {
        proof {
            use_type_invariant(&*self);
            self.lemma_wf();
        }
        match self.find(token_id) {
            None => Err(ContractError::Ownership(OwnershipError::NoOwner)),
            Some(i) => {
                if !(self.tokens[i].owner == *from) {
                    Err(ContractError::Ownership(OwnershipError::NotOwner))
                } else {
                    self.transfer_nft(caller, to, token_id)
                }
            },
        }
    }
}

} // verus!
