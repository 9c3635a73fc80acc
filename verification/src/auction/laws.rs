//! What holds of the auction over whole histories of calls.

use vstd::prelude::*;
use crate::auction::error::Error;
use crate::auction::ledger::balance;
use crate::auction::model::{
    after_bid, after_end, after_withdraw, bid_outcome, bid_refusal, bidding_closed,
    concluded_outcome, end_outcome, end_refusal, execute_outcome, first_outbidding, owed, run,
    withdraw_outcome, withdraw_refusal, Call, Outcome,
};
use crate::auction::msg::ExecuteMsg;
use crate::auction::response::EffectView;
use crate::auction::state::AuctionView;
use crate::types::CoinView;

verus! {

/// One call, whatever it is and whether or not it is accepted, keeps the
/// auction well-formed, never moves its phase back, never lowers its high
/// bid, and never touches its parameters or a deadline that is set.
pub proof fn lemma_call_keeps_order(pre: AuctionView, call: Call)
    requires
        pre.wf(),
    ensures
        execute_outcome(pre, call).state.wf(),
        pre.status.started ==> execute_outcome(pre, call).state.status.started,
        pre.status.ended ==> execute_outcome(pre, call).state.status.ended,
        pre.status.started ==> execute_outcome(pre, call).state.status.end_at
            == pre.status.end_at,
        execute_outcome(pre, call).state.status.highest_bid.amount
            >= pre.status.highest_bid.amount,
        execute_outcome(pre, call).state.config == pre.config,
        execute_outcome(pre, call).state.seller == pre.seller,
        execute_outcome(pre, call).state.escrow == pre.escrow,
{
}

/// For all sequences of calls: an auction that has ended has started, the
/// phase never moves back, and the high bid never falls. The deadline, once
/// set, and the parameters stay as they are.
pub proof fn lemma_run_keeps_order(pre: AuctionView, calls: Seq<Call>)
    requires
        pre.wf(),
    ensures
        run(pre, calls).wf(),
        run(pre, calls).status.ended ==> run(pre, calls).status.started,
        pre.status.started ==> run(pre, calls).status.started,
        pre.status.ended ==> run(pre, calls).status.ended,
        pre.status.started ==> run(pre, calls).status.end_at == pre.status.end_at,
        run(pre, calls).status.highest_bid.amount >= pre.status.highest_bid.amount,
        run(pre, calls).config == pre.config,
        run(pre, calls).seller == pre.seller,
        run(pre, calls).escrow == pre.escrow,
    decreases calls.len(),
{
    if calls.len() > 0 {
        lemma_run_keeps_order(pre, calls.drop_last());
        lemma_call_keeps_order(run(pre, calls.drop_last()), calls.last());
    }
}

/// A call whose effects the host rejected leaves the auction as if the call
/// had never been made; it can be made again. A call whose effects the host
/// carried out is the call itself.
pub proof fn lemma_rejected_call_changes_nothing(pre: AuctionView, call: Call)
    ensures
        concluded_outcome(pre, call, false).state == pre,
        concluded_outcome(pre, call, false).result is Err,
        concluded_outcome(pre, call, true) == execute_outcome(pre, call),
        concluded_outcome(concluded_outcome(pre, call, false).state, call, true)
            == execute_outcome(pre, call),
{
}

/// While bidding is open, an offer that does not strictly exceed the high
/// bid is refused as too low, and nothing changes.
pub proof fn lemma_low_bid_refused(pre: AuctionView, caller: Seq<char>, now: nat, offer: CoinView)
    requires
        bidding_closed(pre, now) is None,
        offer.amount <= pre.status.highest_bid.amount,
    ensures
        bid_outcome(pre, caller, now, offer) == (Outcome {
            state: pre,
            result: Err(Error::BidTooLow),
        }),
{
}

/// While bidding is open, a bid call whose funds hold no coin above the high
/// bid is refused as too low, and nothing changes.
pub proof fn lemma_low_funds_refused(pre: AuctionView, call: Call)
    requires
        call.msg == (ExecuteMsg::Bid {  }),
        bidding_closed(pre, call.time) is None,
        forall|i: int|
            0 <= i < call.funds.len() ==> (#[trigger] call.funds[i]).amount
                <= pre.status.highest_bid.amount,
    ensures
        execute_outcome(pre, call) == (Outcome { state: pre, result: Err(Error::BidTooLow) }),
{
    match first_outbidding(call.funds, pre.status.highest_bid) {
        Some(i) => {
            assert(call.funds[i].outbids(pre.status.highest_bid));
        },
        None => {},
    }
}

/// An accepted `withdraw` leaves the caller's balance at zero, and the same
/// call made again at once is refused, changing nothing: nothing is paid
/// twice.
pub proof fn lemma_withdraw_pays_once(pre: AuctionView, caller: Seq<char>)
    requires
        withdraw_refusal(pre, caller) is None,
    ensures
        balance(after_withdraw(pre, caller).bids, caller) == 0,
        withdraw_outcome(after_withdraw(pre, caller), caller) == (Outcome {
            state: after_withdraw(pre, caller),
            result: Err(Error::NoWithdrawableBid),
        }),
{
}

/// On an auction that runs, `end` before the deadline is refused because
/// bidding has not ended, and nothing changes.
pub proof fn lemma_end_waits_for_deadline(pre: AuctionView, caller: Seq<char>, now: nat)
    requires
        pre.wf(),
        pre.status.started,
        !pre.status.ended,
        now < pre.status.end_at->0,
    ensures
        end_outcome(pre, caller, now) == (Outcome {
            state: pre,
            result: Err(Error::BiddingNotEnded),
        }),
{
}

/// After an accepted `end`, every further `end` is refused because the
/// auction has ended already: it is settled once. The settlement leaves the
/// ledger as it is.
pub proof fn lemma_end_settles_once(
    pre: AuctionView,
    now: nat,
    again_by: Seq<char>,
    again_at: nat,
)
    requires
        pre.wf(),
        end_refusal(pre, now) is None,
    ensures
        end_outcome(after_end(pre), again_by, again_at) == (Outcome {
            state: after_end(pre),
            result: Err(Error::AlreadyEnded),
        }),
        after_end(pre).bids == pre.bids,
{
}

/// On an auction that was started, a bid at or after the deadline is refused
/// because bidding has ended, whether or not `end` was called.
pub proof fn lemma_late_bid_refused(pre: AuctionView, caller: Seq<char>, now: nat, offer: CoinView)
    requires
        pre.wf(),
        pre.status.started,
        now >= pre.status.end_at->0,
    ensures
        bid_outcome(pre, caller, now, offer) == (Outcome {
            state: pre,
            result: Err(Error::BiddingEnded),
        }),
{
}

/// What the auction holds of `account` outside the ledger: the leading bid,
/// where `account` made it. At the end this is what the seller is paid.
pub open spec fn stake(state: AuctionView, account: Seq<char>) -> nat {
    if state.status.highest_bidder == Some(account) {
        state.status.highest_bid.amount
    } else {
        0
    }
}

/// What the call `call` takes in from `account`: the offer, where the call
/// is a bid of that account and is accepted.
pub open spec fn deposited(pre: AuctionView, call: Call, account: Seq<char>) -> nat {
    if call.sender == account && call.msg == (ExecuteMsg::Bid {  }) && execute_outcome(
        pre,
        call,
    ).result is Ok {
        execute_outcome(pre, call).state.status.highest_bid.amount
    } else {
        0
    }
}

/// What the call `call` pays back to `account`: the balance, where the call
/// is a withdrawal of that account and is accepted.
pub open spec fn refunded(pre: AuctionView, call: Call, account: Seq<char>) -> nat {
    if call.sender == account && call.msg == (ExecuteMsg::Withdraw {  }) && execute_outcome(
        pre,
        call,
    ).result is Ok {
        balance(pre.bids, account)
    } else {
        0
    }
}

/// All that the calls `calls`, made from `pre`, take in from `account`.
pub open spec fn total_deposited(pre: AuctionView, calls: Seq<Call>, account: Seq<char>) -> nat
    decreases calls.len(),
{
    if calls.len() == 0 {
        0
    } else {
        total_deposited(pre, calls.drop_last(), account) + deposited(
            run(pre, calls.drop_last()),
            calls.last(),
            account,
        )
    }
}

/// All that the calls `calls`, made from `pre`, pay back to `account`.
pub open spec fn total_refunded(pre: AuctionView, calls: Seq<Call>, account: Seq<char>) -> nat
    decreases calls.len(),
{
    if calls.len() == 0 {
        0
    } else {
        total_refunded(pre, calls.drop_last(), account) + refunded(
            run(pre, calls.drop_last()),
            calls.last(),
            account,
        )
    }
}

/// One call keeps every account's funds in custody: what the account had in
/// the ledger and at stake, and what the call takes in from it, is what it
/// has there afterwards and what the call pays back to it. What is paid
/// back is handed to the host as one payment to that account.
pub proof fn lemma_call_keeps_custody(pre: AuctionView, call: Call, account: Seq<char>)
    requires
        pre.wf(),
    ensures
        deposited(pre, call, account) + balance(pre.bids, account) + stake(pre, account)
            == balance(execute_outcome(pre, call).state.bids, account) + stake(
            execute_outcome(pre, call).state,
            account,
        ) + refunded(pre, call, account),
        refunded(pre, call, account) > 0 ==> execute_outcome(pre, call).result->Ok_0.effects
            == seq![EffectView::Pay { to: account, amount: owed(pre, account) }],
{
}

/// For all sequences of calls and every account: what the account had in
/// the ledger and at stake before them, and all that the calls took in from
/// it, is what it has there after them and all that was paid back to it.
/// No balance is made up and none is lost.
pub proof fn lemma_run_keeps_custody(pre: AuctionView, calls: Seq<Call>, account: Seq<char>)
    requires
        pre.wf(),
    ensures
        total_deposited(pre, calls, account) + balance(pre.bids, account) + stake(pre, account)
            == balance(run(pre, calls).bids, account) + stake(run(pre, calls), account)
            + total_refunded(pre, calls, account),
    decreases calls.len(),
{
    if calls.len() > 0 {
        lemma_run_keeps_custody(pre, calls.drop_last(), account);
        lemma_run_keeps_order(pre, calls.drop_last());
        lemma_call_keeps_custody(run(pre, calls.drop_last()), calls.last(), account);
    }
}

/// An accepted `end` pays the seller exactly what the winner has at stake,
/// and pays nothing where nobody bid.
pub proof fn lemma_end_pays_the_stake(pre: AuctionView, caller: Seq<char>, now: nat)
    requires
        pre.wf(),
        end_refusal(pre, now) is None,
    ensures
        match pre.status.highest_bidder {
            Some(winner) => end_outcome(pre, caller, now).result->Ok_0.effects.last() == (
            EffectView::Pay {
                to: pre.seller,
                amount: CoinView {
                    denom: pre.config.starting_bid.denom,
                    amount: stake(pre, winner),
                },
            }),
            None => end_outcome(pre, caller, now).result->Ok_0.effects.len() == 1
                && end_outcome(pre, caller, now).result->Ok_0.effects[0] is TransferItem,
        },
{
}

/// One offer: who makes it, when, and how much.
pub struct Offer {
    pub bidder: Seq<char>,
    pub time: nat,
    pub coin: CoinView,
}

/// The state after the bids `offers`, made one after the other from `pre`.
pub open spec fn after_bids(pre: AuctionView, offers: Seq<Offer>) -> AuctionView
    decreases offers.len(),
{
    if offers.len() == 0 {
        pre
    } else {
        bid_outcome(
            after_bids(pre, offers.drop_last()),
            offers.last().bidder,
            offers.last().time,
            offers.last().coin,
        ).state
    }
}

/// Bids that can follow one another on the fresh, running auction `pre`:
/// made before the deadline by accounts that all differ, in the auction's
/// denomination, each strictly above the one before it and the first above
/// the starting price.
pub open spec fn rising(pre: AuctionView, offers: Seq<Offer>) -> bool {
    &&& pre.wf()
    &&& pre.status.started
    &&& !pre.status.ended
    &&& pre.status.highest_bidder is None
    &&& pre.bids == Map::<Seq<char>, nat>::empty()
    &&& forall|i: int|
        0 <= i < offers.len() ==> {
            &&& (#[trigger] offers[i]).time < pre.status.end_at->0
            &&& offers[i].coin.denom == pre.config.starting_bid.denom
            &&& pre.config.starting_bid.amount < offers[i].coin.amount <= u128::MAX
        }
    &&& forall|i: int, j: int|
        0 <= i < j < offers.len() ==> {
            &&& (#[trigger] offers[i]).coin.amount < (#[trigger] offers[j]).coin.amount
            &&& offers[i].bidder != offers[j].bidder
        }
}

/// After rising bids by accounts that all differ, every bid but the last
/// stands in the ledger, under the account that made it and at the amount
/// that was bid; the ledger holds nothing else; and the last bid leads,
/// outside the ledger.
pub proof fn lemma_rising_bids(pre: AuctionView, offers: Seq<Offer>)
    requires
        rising(pre, offers),
        offers.len() >= 1,
    ensures
        after_bids(pre, offers).wf(),
        after_bids(pre, offers).status.highest_bidder == Some(offers.last().bidder),
        after_bids(pre, offers).status.highest_bid == offers.last().coin,
        !after_bids(pre, offers).bids.dom().contains(offers.last().bidder),
        forall|i: int|
            0 <= i < offers.len() - 1 ==> {
                &&& after_bids(pre, offers).bids.dom().contains((#[trigger] offers[i]).bidder)
                &&& after_bids(pre, offers).bids[offers[i].bidder] == offers[i].coin.amount
            },
        forall|k: Seq<char>| #[trigger]
            after_bids(pre, offers).bids.dom().contains(k) ==> exists|i: int|
                0 <= i < offers.len() - 1 && (#[trigger] offers[i]).bidder == k,
        after_bids(pre, offers).status.started,
        !after_bids(pre, offers).status.ended,
        after_bids(pre, offers).status.end_at == pre.status.end_at,
        after_bids(pre, offers).config == pre.config,
    decreases offers.len(),
{
    let earlier = offers.drop_last();
    let last = offers.last();
    if earlier.len() == 0 {
        assert(after_bids(pre, earlier) == pre);
        assert(bid_refusal(pre, last.time, last.coin) is None);
    } else {
        assert(rising(pre, earlier));
        lemma_rising_bids(pre, earlier);
        let mid = after_bids(pre, earlier);
        let leader = earlier.last();
        assert(leader == offers[offers.len() - 2]);
        assert(balance(mid.bids, leader.bidder) == 0);
        assert(bid_refusal(mid, last.time, last.coin) is None);
        let post = after_bid(mid, last.bidder, last.coin);
        assert(after_bids(pre, offers) == post);
        assert(post.bids == mid.bids.insert(leader.bidder, leader.coin.amount));
        assert forall|i: int| 0 <= i < offers.len() - 1 implies {
            &&& post.bids.dom().contains((#[trigger] offers[i]).bidder)
            &&& post.bids[offers[i].bidder] == offers[i].coin.amount
        } by {
            if i < earlier.len() - 1 {
                assert(earlier[i] == offers[i]);
                assert(offers[i].bidder != leader.bidder);
            }
        }
        assert forall|k: Seq<char>| #[trigger] post.bids.dom().contains(k) implies exists|i: int|
            0 <= i < offers.len() - 1 && (#[trigger] offers[i]).bidder == k by {
            if k == leader.bidder {
                assert(offers[offers.len() - 2].bidder == k);
            } else {
                assert(mid.bids.dom().contains(k));
                let i = choose|i: int|
                    0 <= i < earlier.len() - 1 && (#[trigger] earlier[i]).bidder == k;
                assert(offers[i].bidder == k);
            }
        }
        assert(!post.bids.dom().contains(last.bidder)) by {
            if mid.bids.dom().contains(last.bidder) {
                let i = choose|i: int|
                    0 <= i < earlier.len() - 1 && (#[trigger] earlier[i]).bidder == last.bidder;
                assert(offers[i].bidder == offers[offers.len() - 1].bidder);
            }
        }
    }
}

} // verus!
