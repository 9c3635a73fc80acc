//! The auction as a mathematical state machine: for each transition, when it
//! is refused, the state it leads to, and what it hands to the host.

use vstd::prelude::*;
use crate::auction::error::Error;
use crate::auction::ledger::balance;
use crate::auction::msg::ExecuteMsg;
use crate::auction::response::{EffectView, EventView, ResponseView};
use crate::auction::state::{AuctionView, StatusView};
use crate::types::{CoinView, NANOS_PER_SECOND};

verus! {

/// How long bidding stays open after the start, in seconds.
pub const DURATION_SECONDS: u64 = 300;

/// How long bidding stays open after the start, in nanoseconds.
pub open spec fn duration() -> nat {
    (DURATION_SECONDS * NANOS_PER_SECOND) as nat
}

/// What a transition leaves behind: the state after it, and what the caller
/// is told.
pub struct Outcome {
    pub state: AuctionView,
    pub result: Result<ResponseView, Error>,
}

/// A refused transition changes nothing; an accepted one leads to `next` and
/// answers `response`.
pub open spec fn outcome(
    pre: AuctionView,
    refusal: Option<Error>,
    next: AuctionView,
    response: ResponseView,
) -> Outcome {
    match refusal {
        Some(e) => Outcome { state: pre, result: Err(e) },
        None => Outcome { state: next, result: Ok(response) },
    }
}

/// Why `start` is refused, if it is: only the seller may start, and only
/// once, and the deadline must fit the clock.
pub open spec fn start_refusal(pre: AuctionView, caller: Seq<char>, now: nat) -> Option<Error> {
    if caller != pre.seller {
        Some(Error::Unauthorized)
    } else if pre.status.started {
        Some(Error::AlreadyStarted)
    } else if now + duration() > u64::MAX {
        Some(Error::Overflow)
    } else {
        None
    }
}

/// The state after an accepted `start` at `now`.
pub open spec fn after_start(pre: AuctionView, now: nat) -> AuctionView {
    AuctionView {
        status: StatusView { started: true, end_at: Some(now + duration()), ..pre.status },
        ..pre
    }
}

/// What an accepted `start` hands back: the item is to move from the seller
/// into the auction's custody.
pub open spec fn start_response(pre: AuctionView, caller: Seq<char>, now: nat) -> ResponseView {
    ResponseView {
        effects: seq![
            EffectView::TransferItem {
                registry: pre.config.nft_contract,
                item_id: pre.config.nft_id,
                from: pre.seller,
                to: pre.escrow,
            },
        ],
        event: EventView::Start { caller, end_at: now + duration() },
    }
}

/// The whole of `start`.
pub open spec fn start_outcome(pre: AuctionView, caller: Seq<char>, now: nat) -> Outcome {
    outcome(
        pre,
        start_refusal(pre, caller, now),
        after_start(pre, now),
        start_response(pre, caller, now),
    )
}

/// Why no bid at all is taken at `now`, if none is: the auction was never
/// started, or it was ended, or the deadline has come.
pub open spec fn bidding_closed(pre: AuctionView, now: nat) -> Option<Error> {
    if !pre.status.started {
        Some(Error::NotStarted)
    } else if pre.status.ended || (pre.status.end_at matches Some(deadline) && now >= deadline) {
        Some(Error::BiddingEnded)
    } else {
        None
    }
}

/// What the ledger owes to the leading bidder once that bidder is outbid:
/// the earlier balance and the bid that led.
pub open spec fn refund_due(pre: AuctionView) -> nat {
    match pre.status.highest_bidder {
        Some(previous) => balance(pre.bids, previous) + pre.status.highest_bid.amount,
        None => 0,
    }
}

/// Why a bid of `offer` is refused, if it is.
pub open spec fn bid_refusal(pre: AuctionView, now: nat, offer: CoinView) -> Option<Error> {
    if bidding_closed(pre, now) is Some {
        bidding_closed(pre, now)
    } else if !offer.outbids(pre.status.highest_bid) {
        Some(Error::BidTooLow)
    } else if refund_due(pre) > u128::MAX {
        Some(Error::Overflow)
    } else {
        None
    }
}

/// The state after an accepted bid: the bid that led is credited to the
/// account that made it, and the offer leads.
pub open spec fn after_bid(pre: AuctionView, caller: Seq<char>, offer: CoinView) -> AuctionView {
    AuctionView {
        status: StatusView { highest_bidder: Some(caller), highest_bid: offer, ..pre.status },
        bids: match pre.status.highest_bidder {
            Some(previous) => pre.bids.insert(previous, refund_due(pre)),
            None => pre.bids,
        },
        ..pre
    }
}

/// What an accepted bid hands back: no transfer, only the record.
pub open spec fn bid_response(caller: Seq<char>, offer: CoinView) -> ResponseView {
    ResponseView { effects: seq![], event: EventView::Bid { bidder: caller, value: offer } }
}

/// The whole of `bid`.
pub open spec fn bid_outcome(
    pre: AuctionView,
    caller: Seq<char>,
    now: nat,
    offer: CoinView,
) -> Outcome {
    outcome(
        pre,
        bid_refusal(pre, now, offer),
        after_bid(pre, caller, offer),
        bid_response(caller, offer),
    )
}

/// The balance of `caller` as an amount of the auction's denomination.
pub open spec fn owed(pre: AuctionView, caller: Seq<char>) -> CoinView {
    CoinView { denom: pre.config.starting_bid.denom, amount: balance(pre.bids, caller) }
}

/// Why `withdraw` is refused, if it is: nothing is owed to the caller.
pub open spec fn withdraw_refusal(pre: AuctionView, caller: Seq<char>) -> Option<Error> {
    if balance(pre.bids, caller) == 0 {
        Some(Error::NoWithdrawableBid)
    } else {
        None
    }
}

/// The state after an accepted `withdraw`: the caller's line is at zero.
pub open spec fn after_withdraw(pre: AuctionView, caller: Seq<char>) -> AuctionView {
    AuctionView { bids: pre.bids.insert(caller, 0), ..pre }
}

/// What an accepted `withdraw` hands back: the payment of all that was owed.
pub open spec fn withdraw_response(pre: AuctionView, caller: Seq<char>) -> ResponseView {
    ResponseView {
        effects: seq![EffectView::Pay { to: caller, amount: owed(pre, caller) }],
        event: EventView::Withdraw { bidder: caller, value: owed(pre, caller) },
    }
}

/// The whole of `withdraw`.
pub open spec fn withdraw_outcome(pre: AuctionView, caller: Seq<char>) -> Outcome {
    outcome(
        pre,
        withdraw_refusal(pre, caller),
        after_withdraw(pre, caller),
        withdraw_response(pre, caller),
    )
}

/// Why `end` is refused, if it is.
pub open spec fn end_refusal(pre: AuctionView, now: nat) -> Option<Error> {
    if !pre.status.started {
        Some(Error::NotStarted)
    } else if pre.status.ended {
        Some(Error::AlreadyEnded)
    } else if !(pre.status.end_at matches Some(deadline) && now >= deadline) {
        Some(Error::BiddingNotEnded)
    } else {
        None
    }
}

/// The state after an accepted `end`. The ledger is left as it is.
pub open spec fn after_end(pre: AuctionView) -> AuctionView {
    AuctionView { status: StatusView { ended: true, ..pre.status }, ..pre }
}

/// The settlement. With a bidder the item goes to that bidder and the high
/// bid to the seller; without one the item goes back to the seller and
/// nothing is paid.
pub open spec fn settlement(pre: AuctionView) -> Seq<EffectView> {
    match pre.status.highest_bidder {
        Some(winner) => seq![
            EffectView::TransferItem {
                registry: pre.config.nft_contract,
                item_id: pre.config.nft_id,
                from: pre.escrow,
                to: winner,
            },
            EffectView::Pay { to: pre.seller, amount: pre.status.highest_bid },
        ],
        None => seq![
            EffectView::TransferItem {
                registry: pre.config.nft_contract,
                item_id: pre.config.nft_id,
                from: pre.escrow,
                to: pre.seller,
            },
        ],
    }
}

/// What an accepted `end` hands back.
pub open spec fn end_response(pre: AuctionView, caller: Seq<char>) -> ResponseView {
    ResponseView {
        effects: settlement(pre),
        event: EventView::End {
            caller,
            winner: match pre.status.highest_bidder {
                Some(winner) => winner,
                None => caller,
            },
            value: pre.status.highest_bid,
        },
    }
}

/// The whole of `end`.
pub open spec fn end_outcome(pre: AuctionView, caller: Seq<char>, now: nat) -> Outcome {
    outcome(pre, end_refusal(pre, now), after_end(pre), end_response(pre, caller))
}

/// Whether the coin at position `i` of `funds` outbids `high` and none
/// before it does.
pub open spec fn is_first_outbidding(funds: Seq<CoinView>, high: CoinView, i: int) -> bool {
    &&& 0 <= i < funds.len()
    &&& funds[i].outbids(high)
    &&& forall|j: int| 0 <= j < i ==> !(#[trigger] funds[j]).outbids(high)
}

/// The position of the first coin among `funds` that outbids `high`.
pub open spec fn first_outbidding(funds: Seq<CoinView>, high: CoinView) -> Option<int> {
    if exists|i: int| is_first_outbidding(funds, high, i) {
        Some(choose|i: int| is_first_outbidding(funds, high, i))
    } else {
        None
    }
}

/// One call as the host delivers it: who calls, with which funds, at what
/// time, and for which transition.
pub struct Call {
    pub sender: Seq<char>,
    pub funds: Seq<CoinView>,
    pub time: nat,
    pub msg: ExecuteMsg,
}

/// The whole of one call. A bid offers the first coin among the funds that
/// outbids the high bid; funds without such a coin are too low.
pub open spec fn execute_outcome(pre: AuctionView, call: Call) -> Outcome {
    match call.msg {
        ExecuteMsg::Start {  } => start_outcome(pre, call.sender, call.time),
        ExecuteMsg::Bid {  } => match first_outbidding(call.funds, pre.status.highest_bid) {
            Some(i) => bid_outcome(pre, call.sender, call.time, call.funds[i]),
            None => Outcome {
                state: pre,
                result: Err(
                    match bidding_closed(pre, call.time) {
                        Some(e) => e,
                        None => Error::BidTooLow,
                    },
                ),
            },
        },
        ExecuteMsg::Withdraw {  } => withdraw_outcome(pre, call.sender),
        ExecuteMsg::End {  } => end_outcome(pre, call.sender, call.time),
    }
}

/// The whole of one call once the host has said whether it carried out the
/// effects. A call whose effects were rejected fails and changes nothing; a
/// call that the auction refuses never reaches the host.
pub open spec fn concluded_outcome(pre: AuctionView, call: Call, carried_out: bool) -> Outcome {
    if execute_outcome(pre, call).result is Ok && !carried_out {
        Outcome { state: pre, result: Err(Error::CollaboratorFailure) }
    } else {
        execute_outcome(pre, call)
    }
}

/// The state after the calls `calls`, made one after the other from `pre`.
pub open spec fn run(pre: AuctionView, calls: Seq<Call>) -> AuctionView
    decreases calls.len(),
{
    if calls.len() == 0 {
        pre
    } else {
        execute_outcome(run(pre, calls.drop_last()), calls.last()).state
    }
}

} // verus!
