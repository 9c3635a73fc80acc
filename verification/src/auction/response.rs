//! What a transition hands back to the host: the transfers that must be
//! carried out together with it, and a record of what happened.

use vstd::prelude::*;
use crate::auction::error::Error;
use crate::types::{Addr, Coin, CoinView, Timestamp};

verus! {

/// An instruction to a collaborator. The host carries it out as part of the
/// transition that emitted it, or undoes the transition.
#[derive(Debug, PartialEq, Eq)]
pub enum Effect {
    /// Asks the registry `registry` to move the custody of item `item_id`
    /// from `from` to `to`.
    TransferItem { registry: Addr, item_id: u32, from: Addr, to: Addr },
    /// Pays `amount` out of the auction's funds to `to`.
    Pay { to: Addr, amount: Coin },
}

/// The mathematical value of an [`Effect`].
pub enum EffectView {
    TransferItem { registry: Seq<char>, item_id: u32, from: Seq<char>, to: Seq<char> },
    Pay { to: Seq<char>, amount: CoinView },
}

impl View for Effect {
    type V = EffectView;

    open spec fn view(&self) -> EffectView {
        match self {
            Effect::TransferItem { registry, item_id, from, to } => EffectView::TransferItem {
                registry: registry@,
                item_id: *item_id,
                from: from@,
                to: to@,
            },
            Effect::Pay { to, amount } => EffectView::Pay { to: to@, amount: amount@ },
        }
    }
}

impl DeepView for Effect {
    type V = EffectView;

    open spec fn deep_view(&self) -> EffectView {
        self@
    }
}

/// Recorded when an auction starts.
#[derive(Debug, PartialEq, Eq)]
pub struct Start {
    pub caller: Addr,
    pub end_at: Timestamp,
}

/// Recorded when a bid is accepted.
#[derive(Debug, PartialEq, Eq)]
pub struct Bid {
    pub bidder: Addr,
    pub value: Coin,
}

/// Recorded when an outbid account pulls out its balance.
#[derive(Debug, PartialEq, Eq)]
pub struct Withdraw {
    pub bidder: Addr,
    pub value: Coin,
}

/// Recorded when an auction is settled. Without a bidder the winner named is
/// the caller.
#[derive(Debug, PartialEq, Eq)]
pub struct End {
    pub caller: Addr,
    pub winner: Addr,
    pub value: Coin,
}

/// The record of one accepted transition.
#[derive(Debug, PartialEq, Eq)]
pub enum Event {
    Start(Start),
    Bid(Bid),
    Withdraw(Withdraw),
    End(End),
}

/// The mathematical value of an [`Event`].
pub enum EventView {
    Start { caller: Seq<char>, end_at: nat },
    Bid { bidder: Seq<char>, value: CoinView },
    Withdraw { bidder: Seq<char>, value: CoinView },
    End { caller: Seq<char>, winner: Seq<char>, value: CoinView },
}

impl View for Event {
    type V = EventView;

    open spec fn view(&self) -> EventView {
        match self {
            Event::Start(e) => EventView::Start { caller: e.caller@, end_at: e.end_at@ },
            Event::Bid(e) => EventView::Bid { bidder: e.bidder@, value: e.value@ },
            Event::Withdraw(e) => EventView::Withdraw { bidder: e.bidder@, value: e.value@ },
            Event::End(e) => EventView::End {
                caller: e.caller@,
                winner: e.winner@,
                value: e.value@,
            },
        }
    }
}

/// What an accepted transition returns.
#[derive(Debug, PartialEq, Eq)]
pub struct Response {
    /// The instructions to carry out, in order.
    pub effects: Vec<Effect>,
    /// What happened.
    pub event: Event,
}

/// The mathematical value of a [`Response`].
pub struct ResponseView {
    pub effects: Seq<EffectView>,
    pub event: EventView,
}

impl View for Response {
    type V = ResponseView;

    open spec fn view(&self) -> ResponseView {
        ResponseView { effects: self.effects.deep_view(), event: self.event@ }
    }
}

/// What the caller of a transition is told, as a mathematical value.
pub open spec fn result_view(r: Result<Response, Error>) -> Result<ResponseView, Error> {
    match r {
        Ok(response) => Ok(response@),
        Err(e) => Err(e),
    }
}

} // verus!
