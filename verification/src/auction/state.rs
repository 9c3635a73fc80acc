//! What an auction holds: its fixed parameters, its phase and high bid, and
//! the ledger of refundable balances.

use vstd::prelude::*;
use crate::auction::ledger::{balance, Ledger};
use crate::auction::msg::QueryMsg;
use crate::types::{Addr, Coin, CoinView, Timestamp};

verus! {

/// The parameters fixed when the auction is created.
#[derive(Debug, PartialEq, Eq)]
pub struct Config {
    /// The registry that records who holds the item.
    pub nft_contract: Addr,
    /// The item's identifier in that registry.
    pub nft_id: u32,
    /// The price that the first bid must exceed.
    pub starting_bid: Coin,
}

/// The mathematical value of a [`Config`].
pub struct ConfigView {
    pub nft_contract: Seq<char>,
    pub nft_id: u32,
    pub starting_bid: CoinView,
}

impl View for Config {
    type V = ConfigView;

    open spec fn view(&self) -> ConfigView {
        ConfigView {
            nft_contract: self.nft_contract@,
            nft_id: self.nft_id,
            starting_bid: self.starting_bid@,
        }
    }
}

impl Clone for Config {
    fn clone(&self) -> (r: Self)
        ensures
            r@ == self@,
    {
        Config {
            nft_contract: self.nft_contract.clone(),
            nft_id: self.nft_id,
            starting_bid: self.starting_bid.clone(),
        }
    }
}

/// The phase of the auction, its deadline and the bid that leads.
#[derive(Debug, PartialEq, Eq)]
pub struct Status {
    pub started: bool,
    pub ended: bool,
    /// The deadline: set when the auction starts, and never again.
    pub end_at: Option<Timestamp>,
    pub highest_bidder: Option<Addr>,
    /// The leading bid, held by the auction outside the ledger. Before the
    /// first bid it is the starting price.
    pub highest_bid: Coin,
}

/// The mathematical value of a [`Status`].
pub struct StatusView {
    pub started: bool,
    pub ended: bool,
    pub end_at: Option<nat>,
    pub highest_bidder: Option<Seq<char>>,
    pub highest_bid: CoinView,
}

impl View for Status {
    type V = StatusView;

    open spec fn view(&self) -> StatusView {
        StatusView {
            started: self.started,
            ended: self.ended,
            end_at: self.end_at.deep_view(),
            highest_bidder: self.highest_bidder.deep_view(),
            highest_bid: self.highest_bid@,
        }
    }
}

impl Clone for Status {
    fn clone(&self) -> (r: Self)
        ensures
            r@ == self@,
    {
        Status {
            started: self.started,
            ended: self.ended,
            end_at: self.end_at,
            highest_bidder: match &self.highest_bidder {
                Some(bidder) => Some(bidder.clone()),
                None => None,
            },
            highest_bid: self.highest_bid.clone(),
        }
    }
}

/// The mathematical value of an [`NftAuction`].
pub struct AuctionView {
    /// The account that created the auction and is paid at its end.
    pub seller: Seq<char>,
    /// The auction's own account, which holds the item while it runs.
    pub escrow: Seq<char>,
    pub config: ConfigView,
    pub status: StatusView,
    /// The refundable balances by account.
    pub bids: Map<Seq<char>, nat>,
}

impl AuctionView {
    /// What holds of every auction at every moment.
    pub open spec fn wf(self) -> bool {
        &&& self.status.ended ==> self.status.started
        &&& self.status.end_at is Some <==> self.status.started
        &&& self.status.highest_bidder is Some ==> self.status.started
        &&& self.status.highest_bid.denom == self.config.starting_bid.denom
        &&& self.status.highest_bidder is None ==> self.status.highest_bid
            == self.config.starting_bid
        &&& self.status.highest_bidder is Some ==> self.status.highest_bid.amount
            > self.config.starting_bid.amount
    }
}

/// The state in which an auction is created: not started, no bidder, the
/// high bid at the starting price, and an empty ledger.
pub open spec fn initial(seller: Seq<char>, escrow: Seq<char>, config: ConfigView) -> AuctionView {
    AuctionView {
        seller,
        escrow,
        config,
        status: StatusView {
            started: false,
            ended: false,
            end_at: None,
            highest_bidder: None,
            highest_bid: config.starting_bid,
        },
        bids: Map::empty(),
    }
}

/// One auction of one item.
#[derive(Debug)]
pub struct NftAuction {
    pub(crate) seller: Addr,
    pub(crate) escrow: Addr,
    pub(crate) config: Config,
    pub(crate) status: Status,
    pub(crate) bids: Ledger,
}

impl View for NftAuction {
    type V = AuctionView;

    open(crate) spec fn view(&self) -> AuctionView {
        AuctionView {
            seller: self.seller@,
            escrow: self.escrow@,
            config: self.config@,
            status: self.status@,
            bids: self.bids@,
        }
    }
}

impl NftAuction {
    #[verifier::type_invariant]
    pub(crate) open spec fn inv(&self) -> bool {
        self@.wf()
    }

    /// Puts an auction together again from what was kept of it. Parts that do
    /// not make a well-formed auction give nothing.
    pub fn restore(seller: Addr, escrow: Addr, config: Config, status: Status, bids: Ledger) -> (r:
        Option<NftAuction>)
        ensures
            r is Some <==> (AuctionView {
                seller: seller@,
                escrow: escrow@,
                config: config@,
                status: status@,
                bids: bids@,
            }).wf(),
            r matches Some(auction) ==> auction@ == (AuctionView {
                seller: seller@,
                escrow: escrow@,
                config: config@,
                status: status@,
                bids: bids@,
            }),
    {
        let phase_fits = (!status.ended || status.started) && (status.end_at.is_some()
            == status.started) && (status.highest_bidder.is_none() || status.started);
        let same_denom = status.highest_bid.denom == config.starting_bid.denom;
        let price_fits = if status.highest_bidder.is_none() {
            status.highest_bid.amount == config.starting_bid.amount
        } else {
            status.highest_bid.amount > config.starting_bid.amount
        };
        if phase_fits && same_denom && price_fits {
            Some(NftAuction { seller, escrow, config, status, bids })
        } else {
            None
        }
    }

    /// The account that created the auction and is paid at its end.
    pub fn seller(&self) -> (r: &Addr)
        ensures
            r@ == self@.seller,
    {
        &self.seller
    }

    /// The auction's own account.
    pub fn escrow(&self) -> (r: &Addr)
        ensures
            r@ == self@.escrow,
    {
        &self.escrow
    }

    /// The parameters fixed at creation.
    pub fn config(&self) -> (r: &Config)
        ensures
            r@ == self@.config,
    {
        &self.config
    }

    /// The phase, the deadline and the high bid.
    pub fn status(&self) -> (r: &Status)
        ensures
            r@ == self@.status,
            self@.wf(),
    {
        proof {
            use_type_invariant(self);
        }
        &self.status
    }

    /// The ledger of refundable balances.
    pub fn bids(&self) -> (r: &Ledger)
        ensures
            r@ == self@.bids,
    {
        &self.bids
    }

    /// What the ledger owes to `account`. The bid that leads is not part of
    /// it.
    pub fn balance_of(&self, account: &Addr) -> (r: u128)
        ensures
            r == balance(self@.bids, account@),
    {
        self.bids.balance_of(account)
    }

    /// Answers a read.
    pub fn query(&self, msg: QueryMsg) -> (r: Status)
        ensures
            r@ == self@.status,
    {
        match msg {
            QueryMsg::Status {  } => self.status.clone(),
        }
    }
}

impl Clone for NftAuction {
    fn clone(&self) -> (r: Self)
        ensures
            r@ == self@,
    {
        proof {
            use_type_invariant(self);
        }
        NftAuction {
            seller: self.seller.clone(),
            escrow: self.escrow.clone(),
            config: self.config.clone(),
            status: self.status.clone(),
            bids: self.bids.clone(),
        }
    }
}

} // verus!
