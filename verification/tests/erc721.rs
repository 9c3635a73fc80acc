use nft_auction::erc721::error::{ContractError, OwnershipError, StdError};
use nft_auction::erc721::msg::{Event, ExecuteMsg, InstantiateMsg, MinterResponse, QueryMsg};
use nft_auction::erc721::query::{
    ApprovalResponse, BalanceOfResponse, OwnerOfResponse, QueryResponse,
};
use nft_auction::erc721::state::{Erc721, Token};
use nft_auction::types::{Addr, MessageInfo};

fn who(s: &str) -> Addr {
    Addr::unchecked(s)
}

fn from(sender: &str) -> MessageInfo {
    MessageInfo { sender: who(sender), funds: vec![] }
}

fn registry() -> Erc721 {
    Erc721::new(Some(who("minter")))
}

fn with_token() -> Erc721 {
    let mut registry = registry();
    registry.mint(&who("minter"), 7, &who("alice")).unwrap();
    registry
}

fn owner_of(registry: &Erc721, id: u32) -> Option<String> {
    registry.owner_of(id).ok().map(|answer| answer.owner)
}

#[test]
fn instantiate_names_the_minter_or_else_the_sender() {
    let named = Erc721::instantiate(
        &from("creator"),
        InstantiateMsg {
            name: "Items".to_string(),
            symbol: "ITM".to_string(),
            minter: Some("minter".to_string()),
        },
    );
    assert_eq!(named.minter(), MinterResponse { minter: Some("minter".to_string()) });
    let unnamed = Erc721::instantiate(
        &from("creator"),
        InstantiateMsg { name: "Items".to_string(), symbol: "ITM".to_string(), minter: None },
    );
    assert_eq!(unnamed.minter(), MinterResponse { minter: Some("creator".to_string()) });
    assert!(unnamed.tokens().is_empty());
}

#[test]
fn mint_records_the_owner() {
    let mut registry = registry();
    assert_eq!(
        registry.mint(&who("minter"), 7, &who("alice")),
        Ok(Event::Mint { minter: who("minter"), owner: who("alice"), token_id: 7 })
    );
    assert_eq!(owner_of(&registry, 7), Some("alice".to_string()));
    assert_eq!(registry.balance_of("alice".to_string()).count, 1);
    assert_eq!(registry.approval(7), ApprovalResponse { approver: None });
    assert_eq!(
        registry.tokens(),
        &vec![Token { id: 7, owner: who("alice"), approved: None }]
    );
}

#[test]
fn mint_by_another_account_is_refused() {
    let mut registry = registry();
    assert_eq!(
        registry.mint(&who("alice"), 7, &who("alice")),
        Err(ContractError::Ownership(OwnershipError::NotOwner))
    );
    assert!(registry.tokens().is_empty());
}

#[test]
fn mint_without_a_minter_is_refused() {
    let mut registry = Erc721::new(None);
    assert_eq!(
        registry.mint(&who("minter"), 7, &who("alice")),
        Err(ContractError::Ownership(OwnershipError::NoOwner))
    );
    assert_eq!(registry.minter(), MinterResponse { minter: None });
}

#[test]
fn mint_of_a_taken_identifier_is_refused() {
    let mut registry = with_token();
    assert_eq!(registry.mint(&who("minter"), 7, &who("bob")), Err(ContractError::Claimed));
    assert_eq!(owner_of(&registry, 7), Some("alice".to_string()));
    assert_eq!(registry.balance_of("bob".to_string()).count, 0);
    assert_eq!(
        registry.mint(&who("bob"), 7, &who("bob")),
        Err(ContractError::Ownership(OwnershipError::NotOwner))
    );
}

#[test]
fn balances_count_the_tokens_of_each_owner() {
    let mut registry = registry();
    for id in 0..5u32 {
        registry.mint(&who("minter"), id, &who("alice")).unwrap();
    }
    for id in 5..8u32 {
        registry.mint(&who("minter"), id, &who("bob")).unwrap();
    }
    assert_eq!(
        registry.balance_of("alice".to_string()),
        BalanceOfResponse { owner: "alice".to_string(), count: 5 }
    );
    assert_eq!(registry.balance_of("bob".to_string()).count, 3);
    assert_eq!(registry.balance_of("carol".to_string()).count, 0);
    registry.transfer_nft(&who("alice"), &who("bob"), 2).unwrap();
    assert_eq!(registry.balance_of("alice".to_string()).count, 4);
    assert_eq!(registry.balance_of("bob".to_string()).count, 4);
    registry.transfer_nft(&who("bob"), &who("carol"), 2).unwrap();
    assert_eq!(registry.balance_of("bob".to_string()).count, 3);
    assert_eq!(registry.balance_of("carol".to_string()).count, 1);
}

#[test]
fn approve_is_for_the_owner_only() {
    let mut registry = with_token();
    assert_eq!(
        registry.approve(&who("bob"), &who("bob"), 7),
        Err(ContractError::Ownership(OwnershipError::NotOwner))
    );
    assert_eq!(
        registry.approve(&who("minter"), &who("bob"), 7),
        Err(ContractError::Ownership(OwnershipError::NotOwner))
    );
    assert_eq!(
        registry.approve(&who("alice"), &who("bob"), 8),
        Err(ContractError::Ownership(OwnershipError::NoOwner))
    );
    assert_eq!(registry.approval(7), ApprovalResponse { approver: None });
    assert_eq!(
        registry.approve(&who("alice"), &who("bob"), 7),
        Ok(Event::Approve { sender: who("alice"), spender: who("bob"), token_id: 7 })
    );
    assert_eq!(registry.approval(7), ApprovalResponse { approver: Some("bob".to_string()) });
    assert_eq!(owner_of(&registry, 7), Some("alice".to_string()));
}

#[test]
fn a_new_approval_replaces_the_old_one() {
    let mut registry = with_token();
    registry.approve(&who("alice"), &who("bob"), 7).unwrap();
    registry.approve(&who("alice"), &who("carol"), 7).unwrap();
    assert_eq!(registry.approval(7), ApprovalResponse { approver: Some("carol".to_string()) });
    assert_eq!(
        registry.transfer_nft(&who("bob"), &who("bob"), 7),
        Err(ContractError::ApprovalNotFound { spender: "bob".to_string() })
    );
}

#[test]
fn transfer_by_the_owner_moves_the_token() {
    let mut registry = with_token();
    assert_eq!(
        registry.transfer_nft(&who("alice"), &who("bob"), 7),
        Ok(Event::TransferNft { sender: who("alice"), recipient: who("bob"), token_id: 7 })
    );
    assert_eq!(owner_of(&registry, 7), Some("bob".to_string()));
    assert_eq!(
        registry.transfer_nft(&who("alice"), &who("alice"), 7),
        Err(ContractError::ApprovalNotFound { spender: "alice".to_string() })
    );
}

#[test]
fn transfer_by_the_approved_account_moves_the_token_and_ends_the_approval() {
    let mut registry = with_token();
    registry.approve(&who("alice"), &who("bob"), 7).unwrap();
    assert!(registry.transfer_nft(&who("bob"), &who("carol"), 7).is_ok());
    assert_eq!(owner_of(&registry, 7), Some("carol".to_string()));
    assert_eq!(registry.approval(7), ApprovalResponse { approver: None });
    assert_eq!(
        registry.transfer_nft(&who("bob"), &who("bob"), 7),
        Err(ContractError::ApprovalNotFound { spender: "bob".to_string() })
    );
}

#[test]
fn transfer_by_a_stranger_is_refused_and_changes_nothing() {
    let mut registry = with_token();
    registry.approve(&who("alice"), &who("bob"), 7).unwrap();
    let before = registry.clone();
    assert_eq!(
        registry.transfer_nft(&who("mallory"), &who("mallory"), 7),
        Err(ContractError::ApprovalNotFound { spender: "mallory".to_string() })
    );
    assert_eq!(
        registry.transfer_nft(&who("minter"), &who("minter"), 7),
        Err(ContractError::ApprovalNotFound { spender: "minter".to_string() })
    );
    assert_eq!(registry.tokens(), before.tokens());
}

#[test]
fn transfer_of_a_token_that_does_not_exist_is_refused() {
    let mut registry = with_token();
    assert_eq!(
        registry.transfer_nft(&who("alice"), &who("bob"), 8),
        Err(ContractError::Ownership(OwnershipError::NoOwner))
    );
}

#[test]
fn transfer_from_fails_closed_on_another_holder() {
    let mut registry = with_token();
    registry.approve(&who("alice"), &who("auction"), 7).unwrap();
    let before = registry.clone();
    assert_eq!(
        registry.transfer_from(&who("auction"), &who("bob"), &who("carol"), 7),
        Err(ContractError::Ownership(OwnershipError::NotOwner))
    );
    assert_eq!(
        registry.transfer_from(&who("alice"), &who("bob"), &who("carol"), 7),
        Err(ContractError::Ownership(OwnershipError::NotOwner))
    );
    assert_eq!(
        registry.transfer_from(&who("auction"), &who("alice"), &who("carol"), 8),
        Err(ContractError::Ownership(OwnershipError::NoOwner))
    );
    assert_eq!(
        registry.transfer_from(&who("mallory"), &who("alice"), &who("mallory"), 7),
        Err(ContractError::ApprovalNotFound { spender: "mallory".to_string() })
    );
    assert_eq!(registry.tokens(), before.tokens());
    assert_eq!(
        registry.transfer_from(&who("auction"), &who("alice"), &who("carol"), 7),
        Ok(Event::TransferNft { sender: who("auction"), recipient: who("carol"), token_id: 7 })
    );
    assert_eq!(owner_of(&registry, 7), Some("carol".to_string()));
    assert_eq!(registry.approval(7), ApprovalResponse { approver: None });
}

#[test]
fn transfer_to_the_owner_itself_keeps_the_balance() {
    let mut registry = with_token();
    registry.approve(&who("alice"), &who("bob"), 7).unwrap();
    assert!(registry.transfer_nft(&who("alice"), &who("alice"), 7).is_ok());
    assert_eq!(registry.balance_of("alice".to_string()).count, 1);
    assert_eq!(owner_of(&registry, 7), Some("alice".to_string()));
    assert_eq!(registry.approval(7), ApprovalResponse { approver: None });
}

#[test]
fn registry_execute_dispatches_every_message() {
    let mut registry = registry();
    assert_eq!(
        registry.execute(
            &from("minter"),
            ExecuteMsg::Mint { token_id: 1, owner: "alice".to_string() }
        ),
        Ok(Event::Mint { minter: who("minter"), owner: who("alice"), token_id: 1 })
    );
    assert_eq!(
        registry.execute(
            &from("alice"),
            ExecuteMsg::Approve { spender: "bob".to_string(), token_id: 1 }
        ),
        Ok(Event::Approve { sender: who("alice"), spender: who("bob"), token_id: 1 })
    );
    assert_eq!(
        registry.execute(
            &from("bob"),
            ExecuteMsg::TransferNft { recipient: "carol".to_string(), token_id: 1 }
        ),
        Ok(Event::TransferNft { sender: who("bob"), recipient: who("carol"), token_id: 1 })
    );
    assert_eq!(
        registry.execute(
            &from("bob"),
            ExecuteMsg::TransferNft { recipient: "bob".to_string(), token_id: 1 }
        ),
        Err(ContractError::ApprovalNotFound { spender: "bob".to_string() })
    );
    assert_eq!(owner_of(&registry, 1), Some("carol".to_string()));
}

#[test]
fn query_answers_every_read() {
    let mut registry = with_token();
    registry.approve(&who("alice"), &who("bob"), 7).unwrap();
    assert_eq!(
        registry.query(QueryMsg::Minter {}),
        Ok(QueryResponse::Minter(MinterResponse { minter: Some("minter".to_string()) }))
    );
    assert_eq!(
        registry.query(QueryMsg::BalanceOf { owner: "alice".to_string() }),
        Ok(QueryResponse::BalanceOf(BalanceOfResponse { owner: "alice".to_string(), count: 1 }))
    );
    assert_eq!(
        registry.query(QueryMsg::OwnerOf { token_id: 7 }),
        Ok(QueryResponse::OwnerOf(OwnerOfResponse { owner: "alice".to_string() }))
    );
    assert_eq!(registry.query(QueryMsg::OwnerOf { token_id: 8 }), Err(StdError::NotFound));
    assert_eq!(
        registry.query(QueryMsg::Approval { token_id: 7 }),
        Ok(QueryResponse::Approval(ApprovalResponse { approver: Some("bob".to_string()) }))
    );
    assert_eq!(
        registry.query(QueryMsg::Approval { token_id: 8 }),
        Ok(QueryResponse::Approval(ApprovalResponse { approver: None }))
    );
}

#[test]
fn restore_refuses_an_identifier_twice() {
    let token = |id: u32, owner: &str| Token { id, owner: who(owner), approved: None };
    assert!(Erc721::restore(None, vec![token(1, "a"), token(2, "b"), token(1, "c")]).is_none());
    let kept = Erc721::restore(
        Some(who("minter")),
        vec![token(1, "a"), Token { id: 2, owner: who("b"), approved: Some(who("c")) }],
    )
    .unwrap();
    assert_eq!(owner_of(&kept, 1), Some("a".to_string()));
    assert_eq!(owner_of(&kept, 2), Some("b".to_string()));
    assert_eq!(kept.approval(2), ApprovalResponse { approver: Some("c".to_string()) });
    assert_eq!(kept.minter(), MinterResponse { minter: Some("minter".to_string()) });
    assert_eq!(kept.clone().tokens(), kept.tokens());
}

#[test]
fn set_minter_changes_who_may_mint() {
    let mut registry = with_token();
    registry.set_minter(Some(who("bob")));
    assert_eq!(
        registry.mint(&who("minter"), 8, &who("alice")),
        Err(ContractError::Ownership(OwnershipError::NotOwner))
    );
    assert!(registry.mint(&who("bob"), 8, &who("alice")).is_ok());
    registry.set_minter(None);
    assert_eq!(
        registry.mint(&who("bob"), 9, &who("alice")),
        Err(ContractError::Ownership(OwnershipError::NoOwner))
    );
    assert_eq!(owner_of(&registry, 7), Some("alice".to_string()));
}
