use nft_auction::auction::error::Error;
use nft_auction::auction::msg::ExecuteMsg;
use nft_auction::auction::response::Effect;
use nft_auction::auction::state::NftAuction;
use nft_auction::erc721::state::Erc721;
use nft_auction::types::{Addr, Coin, Env, MessageInfo, Timestamp};

fn who(s: &str) -> Addr {
    Addr::unchecked(s)
}

fn coin(amount: u128) -> Coin {
    Coin::new(amount, "uatom")
}

/// A host that holds one auction and one registry, and carries out the
/// effects of a call together with it or not at all.
struct Host {
    auction: NftAuction,
    registry: Erc721,
    paid: Vec<(Addr, Coin)>,
}

impl Host {
    fn new(approve_auction: bool) -> Host {
        let mut registry = Erc721::new(Some(who("minter")));
        registry.mint(&who("minter"), 7, &who("seller")).unwrap();
        if approve_auction {
            registry.approve(&who("seller"), &who("auction"), 7).unwrap();
        }
        Host {
            auction: NftAuction::new(who("seller"), who("auction"), who("registry"), 7, coin(100)),
            registry,
            paid: Vec::new(),
        }
    }

    fn call(
        &mut self,
        seconds: u64,
        sender: &str,
        funds: Vec<Coin>,
        msg: ExecuteMsg,
    ) -> Result<(), String> {
        let env = Env { time: Timestamp::from_seconds(seconds).unwrap(), contract: who("auction") };
        let info = MessageInfo { sender: who(sender), funds };
        let carried_out = match self.auction.transition(&env, &info, msg) {
            Ok((_, response)) => self.carry_out(response.effects),
            Err(_) => true,
        };
        self.auction
            .conclude(&env, &info, msg, carried_out)
            .map(|_| ())
            .map_err(|e: Error| e.describe())
    }

    /// Carries out all of `effects`, or none of them.
    fn carry_out(&mut self, effects: Vec<Effect>) -> bool {
        let mut registry = self.registry.clone();
        let mut paid = Vec::new();
        for effect in effects {
            match effect {
                Effect::TransferItem { item_id, from, to, .. } => {
                    if registry.transfer_from(&who("auction"), &from, &to, item_id).is_err() {
                        return false;
                    }
                }
                Effect::Pay { to, amount } => paid.push((to, amount)),
            }
        }
        self.registry = registry;
        self.paid.extend(paid);
        true
    }

    fn holder(&self) -> String {
        self.registry.owner_of(7).unwrap().owner
    }
}

#[test]
fn item_goes_into_escrow_and_then_to_the_winner() {
    let mut host = Host::new(true);
    host.call(0, "seller", vec![], ExecuteMsg::Start {}).unwrap();
    assert_eq!(host.holder(), "auction");
    host.call(10, "A", vec![coin(150)], ExecuteMsg::Bid {}).unwrap();
    assert_eq!(
        host.call(20, "B", vec![coin(120)], ExecuteMsg::Bid {}),
        Err("auction bid too low".to_string())
    );
    host.call(30, "B", vec![coin(200)], ExecuteMsg::Bid {}).unwrap();
    assert_eq!(
        host.call(200, "B", vec![], ExecuteMsg::End {}),
        Err("auction bidding not ended".to_string())
    );
    assert_eq!(host.holder(), "auction");
    host.call(301, "B", vec![], ExecuteMsg::End {}).unwrap();
    assert_eq!(host.holder(), "B");
    assert_eq!(host.paid, vec![(who("seller"), coin(200))]);
    assert_eq!(host.auction.balance_of(&who("A")), 150);
    host.call(302, "A", vec![], ExecuteMsg::Withdraw {}).unwrap();
    assert_eq!(host.paid, vec![(who("seller"), coin(200)), (who("A"), coin(150))]);
    assert_eq!(
        host.call(303, "A", vec![], ExecuteMsg::Withdraw {}),
        Err("no withdrawable bid".to_string())
    );
    assert_eq!(host.paid.len(), 2);
}

#[test]
fn item_goes_back_to_the_seller_without_bids() {
    let mut host = Host::new(true);
    host.call(0, "seller", vec![], ExecuteMsg::Start {}).unwrap();
    assert_eq!(host.holder(), "auction");
    host.call(300, "anyone", vec![], ExecuteMsg::End {}).unwrap();
    assert_eq!(host.holder(), "seller");
    assert!(host.paid.is_empty());
}

#[test]
fn rejected_transfer_leaves_the_auction_unstarted() {
    let mut host = Host::new(false);
    assert_eq!(
        host.call(0, "seller", vec![], ExecuteMsg::Start {}),
        Err("transfer rejected".to_string())
    );
    assert!(!host.auction.status().started);
    assert_eq!(host.auction.status().end_at, None);
    assert_eq!(host.holder(), "seller");
    host.registry.approve(&who("seller"), &who("auction"), 7).unwrap();
    host.call(5, "seller", vec![], ExecuteMsg::Start {}).unwrap();
    assert!(host.auction.status().started);
    assert_eq!(host.auction.status().end_at, Timestamp::from_seconds(305));
    assert_eq!(host.holder(), "auction");
}

#[test]
fn rejected_settlement_leaves_the_auction_open_for_a_retry() {
    let mut host = Host::new(true);
    host.call(0, "seller", vec![], ExecuteMsg::Start {}).unwrap();
    host.call(10, "A", vec![coin(150)], ExecuteMsg::Bid {}).unwrap();
    host.registry = Erc721::new(Some(who("minter")));
    assert_eq!(
        host.call(300, "A", vec![], ExecuteMsg::End {}),
        Err("transfer rejected".to_string())
    );
    assert!(!host.auction.status().ended);
    assert!(host.paid.is_empty());
    host.registry.mint(&who("minter"), 7, &who("auction")).unwrap();
    host.call(301, "A", vec![], ExecuteMsg::End {}).unwrap();
    assert!(host.auction.status().ended);
    assert_eq!(host.holder(), "A");
    assert_eq!(host.paid, vec![(who("seller"), coin(150))]);
}

#[test]
fn conclude_takes_the_verdict_of_the_host() {
    let mut auction = NftAuction::new(who("seller"), who("auction"), who("registry"), 7, coin(100));
    let env = Env { time: Timestamp::from_nanos(0), contract: who("auction") };
    let seller = MessageInfo { sender: who("seller"), funds: vec![] };
    let stranger = MessageInfo { sender: who("mallory"), funds: vec![] };
    assert_eq!(
        auction.conclude(&env, &seller, ExecuteMsg::Start {}, false),
        Err(Error::CollaboratorFailure)
    );
    assert!(!auction.status().started);
    assert_eq!(
        auction.conclude(&env, &stranger, ExecuteMsg::Start {}, false),
        Err(Error::Unauthorized)
    );
    assert_eq!(
        auction.conclude(&env, &stranger, ExecuteMsg::Start {}, true),
        Err(Error::Unauthorized)
    );
    let expected = auction.transition(&env, &seller, ExecuteMsg::Start {}).unwrap().1;
    assert_eq!(auction.conclude(&env, &seller, ExecuteMsg::Start {}, true), Ok(expected));
    assert!(auction.status().started);
    assert_eq!(
        auction.conclude(&env, &seller, ExecuteMsg::Start {}, true),
        Err(Error::AlreadyStarted)
    );
}

#[test]
fn transition_leaves_the_auction_as_it_is() {
    let auction = NftAuction::new(who("seller"), who("auction"), who("registry"), 7, coin(100));
    let env = Env { time: Timestamp::from_nanos(0), contract: who("auction") };
    let info = MessageInfo { sender: who("seller"), funds: vec![] };
    let (next, response) = auction.transition(&env, &info, ExecuteMsg::Start {}).unwrap();
    assert!(!auction.status().started);
    assert!(next.status().started);
    assert_eq!(response.effects.len(), 1);
    let stranger = MessageInfo { sender: who("mallory"), funds: vec![] };
    assert_eq!(
        auction.transition(&env, &stranger, ExecuteMsg::Start {}).map(|_| ()),
        Err(Error::Unauthorized)
    );
}
