//! Why a transition of the auction was refused.

use vstd::prelude::*;

verus! {

/// The typed failures of the auction. A refused transition changes nothing.
#[derive(Clone, Copy, Debug, PartialEq, Eq, Structural)]
pub enum Error {
    /// A privileged action was asked for by an account other than the seller.
    Unauthorized,
    /// `start` on an auction that was started before.
    AlreadyStarted,
    /// `bid` or `end` on an auction that was never started.
    NotStarted,
    /// `end` on an auction that was ended before.
    AlreadyEnded,
    /// `bid` at or after the deadline, or after the auction was ended.
    BiddingEnded,
    /// `end` before the deadline.
    BiddingNotEnded,
    /// `bid` with an offer that does not strictly exceed the high bid.
    BidTooLow,
    /// `withdraw` by an account to which nothing is owed.
    NoWithdrawableBid,
    /// A balance or a deadline does not fit its machine integer.
    Overflow,
    /// The registry or the payment refused an instruction of the call, which
    /// is therefore undone.
    CollaboratorFailure,
}

impl Error {
    /// The failure in words.
    pub open spec fn text(self) -> Seq<char> {
        match self {
            Error::Unauthorized => "caller is not the seller"@,
            Error::AlreadyStarted => "auction already started"@,
            Error::NotStarted => "auction not started"@,
            Error::AlreadyEnded => "auction already ended"@,
            Error::BiddingEnded => "auction bidding ended"@,
            Error::BiddingNotEnded => "auction bidding not ended"@,
            Error::BidTooLow => "auction bid too low"@,
            Error::NoWithdrawableBid => "no withdrawable bid"@,
            Error::Overflow => "amount or deadline out of range"@,
            Error::CollaboratorFailure => "transfer rejected"@,
        }
    }

    /// The failure in words, for a log or a reply.
    pub fn describe(&self) -> (r: String)
        ensures
            r@ == self.text(),
    {
        match self {
            Error::Unauthorized => "caller is not the seller".to_owned(),
            Error::AlreadyStarted => "auction already started".to_owned(),
            Error::NotStarted => "auction not started".to_owned(),
            Error::AlreadyEnded => "auction already ended".to_owned(),
            Error::BiddingEnded => "auction bidding ended".to_owned(),
            Error::BiddingNotEnded => "auction bidding not ended".to_owned(),
            Error::BidTooLow => "auction bid too low".to_owned(),
            Error::NoWithdrawableBid => "no withdrawable bid".to_owned(),
            Error::Overflow => "amount or deadline out of range".to_owned(),
            Error::CollaboratorFailure => "transfer rejected".to_owned(),
        }
    }
}

} // verus!
