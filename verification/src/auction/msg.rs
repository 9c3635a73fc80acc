//! The messages that an auction takes.

use vstd::prelude::*;
use crate::types::{Addr, Coin};

verus! {

/// What an auction is created with: the registry that holds the item, the
/// item's identifier there, and the price that the first bid must exceed.
#[derive(Debug, PartialEq, Eq)]
pub struct InstantiateMsg {
    pub nft_contract: Addr,
    pub nft_id: u32,
    pub starting_bid: Coin,
}

/// The four transitions of an auction.
#[derive(Clone, Copy, Debug, PartialEq, Eq, Structural)]
pub enum ExecuteMsg {
    /// Takes the item into escrow and arms the deadline.
    Start {  },
    /// Offers the funds that come with the call.
    Bid {  },
    /// Pulls out what the caller is owed.
    Withdraw {  },
    /// Settles the auction once the deadline has passed.
    End {  },
}

/// The reads that an auction answers.
#[derive(Clone, Copy, Debug, PartialEq, Eq, Structural)]
pub enum QueryMsg {
    /// Asks for the phase, the deadline and the high bid.
    Status {  },
}

} // verus!
