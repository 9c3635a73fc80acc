use nft_auction::auction::error::Error;
use nft_auction::auction::ledger::{Entry, Ledger};
use nft_auction::auction::state::{Config, NftAuction, Status};
use nft_auction::types::{Addr, Coin, Timestamp};

fn line(account: &str, amount: u128) -> Entry {
    Entry { account: Addr::unchecked(account), amount }
}

#[test]
fn addresses_compare_by_their_text() {
    assert_eq!(Addr::unchecked("alice"), Addr::unchecked("alice"));
    assert_ne!(Addr::unchecked("alice"), Addr::unchecked("Alice"));
    assert_eq!(Addr::unchecked("alice").as_str(), "alice");
    assert_eq!(Addr::unchecked("alice").clone().into_string(), "alice".to_string());
}

#[test]
fn coins_compare_by_denomination_and_amount() {
    assert_eq!(Coin::new(5, "uatom"), Coin { denom: "uatom".to_string(), amount: 5 });
    assert_ne!(Coin::new(5, "uatom"), Coin::new(6, "uatom"));
    assert_ne!(Coin::new(5, "uatom"), Coin::new(5, "uosmo"));
    assert_eq!(Coin::new(5, "uatom").clone(), Coin::new(5, "uatom"));
}

#[test]
fn timestamp_from_seconds_scales_to_nanoseconds() {
    let t = Timestamp::from_seconds(3).unwrap();
    assert_eq!(t.nanos(), 3_000_000_000);
    assert_eq!(t.seconds(), 3);
    assert_eq!(Timestamp::from_nanos(3_999_999_999).seconds(), 3);
    assert_eq!(
        Timestamp::from_seconds(18_446_744_073),
        Some(Timestamp::from_nanos(18_446_744_073_000_000_000))
    );
    assert_eq!(Timestamp::from_seconds(18_446_744_074), None);
}

#[test]
fn timestamp_plus_seconds_adds_whole_seconds() {
    let t = Timestamp::from_nanos(1_000_000_202);
    assert_eq!(t.checked_plus_seconds(2), Some(Timestamp::from_nanos(3_000_000_202)));
    assert_eq!(t.checked_plus_seconds(0), Some(t));
    assert_eq!(
        Timestamp::from_nanos(u64::MAX - 1_000_000_000).checked_plus_seconds(1),
        Some(Timestamp::from_nanos(u64::MAX))
    );
    assert_eq!(Timestamp::from_nanos(u64::MAX - 999_999_999).checked_plus_seconds(1), None);
    assert_eq!(t.checked_plus_seconds(u64::MAX), None);
}

#[test]
fn timestamp_reached_is_at_or_after() {
    let t = Timestamp::from_nanos(10);
    assert!(t.reached(&Timestamp::from_nanos(10)));
    assert!(t.reached(&Timestamp::from_nanos(9)));
    assert!(!t.reached(&Timestamp::from_nanos(11)));
}

#[test]
fn ledger_starts_empty() {
    let ledger = Ledger::new();
    assert!(ledger.lines().is_empty());
    assert_eq!(ledger.balance_of(&Addr::unchecked("alice")), 0);
}

#[test]
fn ledger_credit_adds_to_the_balance() {
    let mut ledger = Ledger::new();
    let alice = Addr::unchecked("alice");
    let bob = Addr::unchecked("bob");
    assert_eq!(ledger.credit_on_outbid(&alice, 150), Ok(()));
    assert_eq!(ledger.credit_on_outbid(&bob, 7), Ok(()));
    assert_eq!(ledger.credit_on_outbid(&alice, 250), Ok(()));
    assert_eq!(ledger.balance_of(&alice), 400);
    assert_eq!(ledger.balance_of(&bob), 7);
    assert_eq!(ledger.lines(), &vec![line("alice", 400), line("bob", 7)]);
}

#[test]
fn ledger_credit_overflow_changes_nothing() {
    let mut ledger = Ledger::new();
    let alice = Addr::unchecked("alice");
    assert_eq!(ledger.credit_on_outbid(&alice, u128::MAX - 1), Ok(()));
    assert_eq!(ledger.credit_on_outbid(&alice, 2), Err(Error::Overflow));
    assert_eq!(ledger.balance_of(&alice), u128::MAX - 1);
    assert_eq!(ledger.credit_on_outbid(&alice, 1), Ok(()));
    assert_eq!(ledger.balance_of(&alice), u128::MAX);
    assert_eq!(ledger.credit_on_outbid(&alice, 1), Err(Error::Overflow));
    assert_eq!(ledger.credit_on_outbid(&alice, 0), Ok(()));
}

#[test]
fn ledger_withdraw_zeroes_and_keeps_the_line() {
    let mut ledger = Ledger::new();
    let alice = Addr::unchecked("alice");
    ledger.credit_on_outbid(&alice, 150).unwrap();
    assert_eq!(ledger.withdraw(&alice), Ok(150));
    assert_eq!(ledger.lines(), &vec![line("alice", 0)]);
    assert_eq!(ledger.withdraw(&alice), Err(Error::NoWithdrawableBid));
    assert_eq!(ledger.withdraw(&Addr::unchecked("bob")), Err(Error::NoWithdrawableBid));
    ledger.credit_on_outbid(&alice, 20).unwrap();
    assert_eq!(ledger.withdraw(&alice), Ok(20));
}

#[test]
fn ledger_from_lines_refuses_an_account_twice() {
    assert!(Ledger::from_lines(vec![line("a", 1), line("b", 2), line("a", 3)]).is_none());
    assert!(Ledger::from_lines(vec![line("a", 1), line("a", 1)]).is_none());
    let ledger = Ledger::from_lines(vec![line("a", 1), line("b", 2)]).unwrap();
    assert_eq!(ledger.balance_of(&Addr::unchecked("a")), 1);
    assert_eq!(ledger.balance_of(&Addr::unchecked("b")), 2);
    assert_eq!(ledger.balance_of(&Addr::unchecked("c")), 0);
    assert_eq!(ledger.clone(), ledger);
    assert!(Ledger::from_lines(vec![]).unwrap().lines().is_empty());
}

fn parts(status: Status) -> Option<NftAuction> {
    NftAuction::restore(
        Addr::unchecked("seller"),
        Addr::unchecked("auction"),
        Config {
            nft_contract: Addr::unchecked("registry"),
            nft_id: 7,
            starting_bid: Coin::new(100, "uatom"),
        },
        status,
        Ledger::from_lines(vec![line("alice", 150)]).unwrap(),
    )
}

fn led_by_bob() -> Status {
    Status {
        started: true,
        ended: false,
        end_at: Timestamp::from_seconds(300),
        highest_bidder: Some(Addr::unchecked("bob")),
        highest_bid: Coin::new(200, "uatom"),
    }
}

#[test]
fn restore_gives_back_a_kept_auction() {
    let mut auction = parts(led_by_bob()).unwrap();
    assert_eq!(auction.status(), &led_by_bob());
    assert_eq!(auction.balance_of(&Addr::unchecked("alice")), 150);
    assert_eq!(
        auction
            .bid(&Addr::unchecked("carol"), Timestamp::from_nanos(5), &Coin::new(201, "uatom"))
            .map(|_| ()),
        Ok(())
    );
    assert_eq!(auction.balance_of(&Addr::unchecked("bob")), 200);
}

#[test]
fn restore_refuses_parts_that_do_not_fit() {
    assert!(parts(Status { started: false, ..led_by_bob() }).is_none());
    assert!(parts(Status { end_at: None, ..led_by_bob() }).is_none());
    assert!(parts(Status { highest_bid: Coin::new(100, "uatom"), ..led_by_bob() }).is_none());
    assert!(parts(Status { highest_bid: Coin::new(200, "uosmo"), ..led_by_bob() }).is_none());
    assert!(parts(Status { highest_bidder: None, ..led_by_bob() }).is_none());
    assert!(parts(Status {
        highest_bidder: None,
        highest_bid: Coin::new(100, "uatom"),
        ..led_by_bob()
    })
    .is_some());
    assert!(parts(Status { ended: true, ..led_by_bob() }).is_some());
    assert!(parts(Status {
        started: false,
        ended: true,
        end_at: None,
        highest_bidder: None,
        highest_bid: Coin::new(100, "uatom"),
    })
    .is_none());
}
