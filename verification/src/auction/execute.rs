//! The transitions of the auction. Each one either is refused and changes
//! nothing, or moves the state on and hands back what the host must carry
//! out with it.

use vstd::prelude::*;
use crate::auction::error::Error;
use crate::auction::ledger::Ledger;
use crate::auction::model::{
    bid_outcome, bidding_closed, concluded_outcome, end_outcome, execute_outcome,
    is_first_outbidding, start_outcome, withdraw_outcome, Call, DURATION_SECONDS,
};
use crate::auction::msg::{ExecuteMsg, InstantiateMsg};
use crate::auction::response::{result_view, Bid, Effect, End, Event, Response, Start, Withdraw};
use crate::auction::state::{initial, Config, ConfigView, NftAuction, Status};
use crate::types::{Addr, Coin, Env, MessageInfo, Timestamp};

verus! {

/// The call that the host delivers with `env`, `info` and `msg`.
pub open spec fn call_of(env: &Env, info: &MessageInfo, msg: ExecuteMsg) -> Call {
    Call { sender: info.sender@, funds: info.funds.deep_view(), time: env.time@, msg }
}

/// The position of the first coin among `funds` that outbids `high`: the
/// same denomination and a strictly larger amount.
pub fn find_offer(funds: &Vec<Coin>, high: &Coin) -> (r: Option<usize>)
    ensures
        match r {
            Some(i) => is_first_outbidding(funds.deep_view(), high@, i as int),
            None => forall|j: int|
                0 <= j < funds.len() ==> !(#[trigger] funds.deep_view()[j]).outbids(high@),
        },
{
    let mut i: usize = 0;
    while i < funds.len()
        invariant
            i <= funds.len(),
            forall|j: int| 0 <= j < i ==> !(#[trigger] funds.deep_view()[j]).outbids(high@),
        decreases funds.len() - i,
    {
        if funds[i].denom == high.denom && funds[i].amount > high.amount {
            return Some(i);
        }
        i += 1;
    }
    None
}

impl NftAuction {
    /// Creates the auction that `msg` describes. The sender is its seller,
    /// and the contract that is called holds the item while it runs.
    pub fn instantiate(env: &Env, info: &MessageInfo, msg: InstantiateMsg) -> (r: NftAuction)
        ensures
            r@.wf(),
            r@ == initial(
                info.sender@,
                env.contract@,
                ConfigView {
                    nft_contract: msg.nft_contract@,
                    nft_id: msg.nft_id,
                    starting_bid: msg.starting_bid@,
                },
            ),
    {
        NftAuction::new(
            info.sender.clone(),
            env.contract.clone(),
            msg.nft_contract,
            msg.nft_id,
            msg.starting_bid,
        )
    }

    /// Carries out one call: the transition that `msg` names, in the name of
    /// the sender and at the time of the block. A bid offers the first coin
    /// among the funds that outbids the high bid. The account that holds the
    /// item is the one fixed at creation, whatever `env` names.
    pub fn execute(&mut self, env: &Env, info: &MessageInfo, msg: ExecuteMsg) -> (r: Result<
        Response,
        Error,
    >)
        ensures
            final(self)@.wf(),
            final(self)@ == execute_outcome(old(self)@, call_of(env, info, msg)).state,
            result_view(r) == execute_outcome(old(self)@, call_of(env, info, msg)).result,
    {
        proof {
            use_type_invariant(&*self);
        }
        match msg {
            ExecuteMsg::Start {  } => self.start(&info.sender, env.time),
            ExecuteMsg::Bid {  } => {
                match find_offer(&info.funds, &self.status.highest_bid) {
                    Some(i) => self.bid(&info.sender, env.time, &info.funds[i]),
                    None => {
                        match self.bidding_gate(env.time) {
                            Err(e) => Err(e),
                            Ok(()) => Err(Error::BidTooLow),
                        }
                    },
                }
            },
            ExecuteMsg::Withdraw {  } => self.withdraw(&info.sender),
            ExecuteMsg::End {  } => self.end(&info.sender, env.time),
        }
    }

    /// Works out one call without touching this auction: the auction as it
    /// would be after the call, and what the host must carry out for it to
    /// become so. A host that cannot carry out the effects keeps this
    /// auction as it is.
    pub fn transition(&self, env: &Env, info: &MessageInfo, msg: ExecuteMsg) -> (r: Result<
        (NftAuction, Response),
        Error,
    >)
        ensures
            match (r, execute_outcome(self@, call_of(env, info, msg)).result) {
                (Ok((next, response)), Ok(expected)) => {
                    &&& next@.wf()
                    &&& next@ == execute_outcome(self@, call_of(env, info, msg)).state
                    &&& response@ == expected
                },
                (Err(e), Err(expected)) => e == expected,
                _ => false,
            },
    {
        let mut next = self.clone();
        match next.execute(env, info, msg) {
            Ok(response) => Ok((next, response)),
            Err(e) => Err(e),
        }
    }

    /// Concludes a call of which the host has tried the effects, as
    /// [`NftAuction::transition`] worked them out. Where the host carried
    /// them out the call takes place; where it rejected one the call fails
    /// and the auction stays as if the call had never been made.
    pub fn conclude(
        &mut self,
        env: &Env,
        info: &MessageInfo,
        msg: ExecuteMsg,
        carried_out: bool,
    ) -> (r: Result<Response, Error>)
        ensures
            final(self)@.wf(),
            final(self)@ == concluded_outcome(
                old(self)@,
                call_of(env, info, msg),
                carried_out,
            ).state,
            result_view(r) == concluded_outcome(
                old(self)@,
                call_of(env, info, msg),
                carried_out,
            ).result,
    {
        proof {
            use_type_invariant(&*self);
        }
        if carried_out {
            self.execute(env, info, msg)
        } else {
            match self.transition(env, info, msg) {
                Ok(_) => Err(Error::CollaboratorFailure),
                Err(e) => Err(e),
            }
        }
    }

    /// Whether any bid is taken at `now`.
    fn bidding_gate(&self, now: Timestamp) -> (r: Result<(), Error>)
        ensures
            match r {
                Ok(()) => bidding_closed(self@, now@) is None,
                Err(e) => bidding_closed(self@, now@) == Some(e),
            },
    {
        proof {
            use_type_invariant(self);
        }
        if !self.status.started {
            return Err(Error::NotStarted);
        }
        let deadline = self.status.end_at.unwrap();
        if self.status.ended || now.reached(&deadline) {
            return Err(Error::BiddingEnded);
        }
        Ok(())
    }
    /// Creates the auction of item `nft_id` of the registry `nft`, sold by
    /// `seller` and held, while it runs, by the account `escrow`.
    pub fn new(seller: Addr, escrow: Addr, nft: Addr, nft_id: u32, starting_bid: Coin) -> (r:
        NftAuction)
        ensures
            r@.wf(),
            r@ == initial(
                seller@,
                escrow@,
                ConfigView { nft_contract: nft@, nft_id, starting_bid: starting_bid@ },
            ),
    {
        let highest_bid = starting_bid.clone();
        NftAuction {
            seller,
            escrow,
            config: Config { nft_contract: nft, nft_id, starting_bid },
            status: Status {
                started: false,
                ended: false,
                end_at: None,
                highest_bidder: None,
                highest_bid,
            },
            bids: Ledger::new(),
        }
    }

    /// Starts the auction: takes the item into escrow and arms the deadline.
    /// Only the seller may do so, and only once.
    pub fn start(&mut self, caller: &Addr, now: Timestamp) -> (r: Result<Response, Error>)
        ensures
            final(self)@.wf(),
            final(self)@ == start_outcome(old(self)@, caller@, now@).state,
            result_view(r) == start_outcome(old(self)@, caller@, now@).result,
    {
        proof {
            use_type_invariant(&*self);
        }
        if !(*caller == self.seller) {
            return Err(Error::Unauthorized);
        }
        if self.status.started {
            return Err(Error::AlreadyStarted);
        }
        let deadline = match now.checked_plus_seconds(DURATION_SECONDS) {
            Some(deadline) => deadline,
            None => {
                return Err(Error::Overflow);
            },
        };
        self.status = Status {
            started: true,
            ended: self.status.ended,
            end_at: Some(deadline),
            highest_bidder: None,
            highest_bid: self.status.highest_bid.clone(),
        };
        let mut effects: Vec<Effect> = Vec::new();
        effects.push(
            Effect::TransferItem {
                registry: self.config.nft_contract.clone(),
                item_id: self.config.nft_id,
                from: self.seller.clone(),
                to: self.escrow.clone(),
            },
        );
        let response = Response {
            effects,
            event: Event::Start(Start { caller: caller.clone(), end_at: deadline }),
        };
        proof {
            assert(response@.effects =~= start_outcome(
                old(self)@,
                caller@,
                now@,
            ).result->Ok_0.effects);
        }
        Ok(response)
    }

    /// Offers `offer` in the name of `caller`. An accepted offer leads; the
    /// bid that led before it is credited to the account that made it.
    pub fn bid(&mut self, caller: &Addr, now: Timestamp, offer: &Coin) -> (r: Result<
        Response,
        Error,
    >)
        ensures
            final(self)@.wf(),
            final(self)@ == bid_outcome(old(self)@, caller@, now@, offer@).state,
            result_view(r) == bid_outcome(old(self)@, caller@, now@, offer@).result,
    {
        proof {
            use_type_invariant(&*self);
        }
        match self.bidding_gate(now) {
            Ok(()) => {},
            Err(e) => {
                return Err(e);
            },
        }
        let deadline = self.status.end_at.unwrap();
        if !(offer.denom == self.status.highest_bid.denom && offer.amount
            > self.status.highest_bid.amount) {
            return Err(Error::BidTooLow);
        }
        match &self.status.highest_bidder {
            Some(previous) => {
                let mut bids = Ledger::new();
                std::mem::swap(&mut bids, &mut self.bids);
                let credited = bids.credit_on_outbid(previous, self.status.highest_bid.amount);
                self.bids = bids;
                match credited {
                    Ok(()) => {},
                    Err(e) => {
                        return Err(e);
                    },
                }
            },
            None => {},
        }
        self.status = Status {
            started: true,
            ended: false,
            end_at: Some(deadline),
            highest_bidder: Some(caller.clone()),
            highest_bid: offer.clone(),
        };
        let response = Response {
            effects: Vec::new(),
            event: Event::Bid(Bid { bidder: caller.clone(), value: offer.clone() }),
        };
        proof {
            assert(response@.effects =~= bid_outcome(
                old(self)@,
                caller@,
                now@,
                offer@,
            ).result->Ok_0.effects);
        }
        Ok(response)
    }

    /// Pulls out all that the ledger owes to `caller`. The line is set to
    /// zero before the payment is handed to the host.
    pub fn withdraw(&mut self, caller: &Addr) -> (r: Result<Response, Error>)
        ensures
            final(self)@.wf(),
            final(self)@ == withdraw_outcome(old(self)@, caller@).state,
            result_view(r) == withdraw_outcome(old(self)@, caller@).result,
    {
        proof {
            use_type_invariant(&*self);
        }
        let mut bids = Ledger::new();
        std::mem::swap(&mut bids, &mut self.bids);
        let taken = bids.withdraw(caller);
        self.bids = bids;
        let paid: u128 = match taken {
            Ok(paid) => paid,
            Err(e) => {
                return Err(e);
            },
        };
        let value = Coin { denom: self.config.starting_bid.denom.clone(), amount: paid };
        let mut effects: Vec<Effect> = Vec::new();
        effects.push(Effect::Pay { to: caller.clone(), amount: value.clone() });
        let response = Response {
            effects,
            event: Event::Withdraw(Withdraw { bidder: caller.clone(), value }),
        };
        proof {
            assert(response@.effects =~= withdraw_outcome(
                old(self)@,
                caller@,
            ).result->Ok_0.effects);
        }
        Ok(response)
    }

    /// Settles the auction once the deadline has come. Any account may ask
    /// for it. The ledger is not drained: refunds stay to be pulled.
    pub fn end(&mut self, caller: &Addr, now: Timestamp) -> (r: Result<Response, Error>)
        ensures
            final(self)@.wf(),
            final(self)@ == end_outcome(old(self)@, caller@, now@).state,
            result_view(r) == end_outcome(old(self)@, caller@, now@).result,
    {
        proof {
            use_type_invariant(&*self);
        }
        if !self.status.started {
            return Err(Error::NotStarted);
        }
        if self.status.ended {
            return Err(Error::AlreadyEnded);
        }
        let deadline = self.status.end_at.unwrap();
        if !now.reached(&deadline) {
            return Err(Error::BiddingNotEnded);
        }
        let mut effects: Vec<Effect> = Vec::new();
        let winner = match &self.status.highest_bidder {
            Some(bidder) => {
                effects.push(
                    Effect::TransferItem {
                        registry: self.config.nft_contract.clone(),
                        item_id: self.config.nft_id,
                        from: self.escrow.clone(),
                        to: bidder.clone(),
                    },
                );
                effects.push(
                    Effect::Pay {
                        to: self.seller.clone(),
                        amount: self.status.highest_bid.clone(),
                    },
                );
                bidder.clone()
            },
            None => {
                effects.push(
                    Effect::TransferItem {
                        registry: self.config.nft_contract.clone(),
                        item_id: self.config.nft_id,
                        from: self.escrow.clone(),
                        to: self.seller.clone(),
                    },
                );
                caller.clone()
            },
        };
        let response = Response {
            effects,
            event: Event::End(
                End { caller: caller.clone(), winner, value: self.status.highest_bid.clone() },
            ),
        };
        let mut status = self.status.clone();
        status.ended = true;
        self.status = status;
        proof {
            assert(response@.effects =~= end_outcome(
                old(self)@,
                caller@,
                now@,
            ).result->Ok_0.effects);
        }
        Ok(response)
    }
}

} // verus!
