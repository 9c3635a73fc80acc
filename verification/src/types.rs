//! Plain values shared by the auction and the registry: accounts, coins and
//! points in time.

use vstd::prelude::*;
use vstd::std_specs::cmp::PartialEqSpecImpl;
use crate::cosmwasm::timestamp_plus_seconds;

verus! {

/// Nanoseconds in one second.
pub const NANOS_PER_SECOND: u64 = 1_000_000_000;

/// An account, identified by its textual address. The address is opaque to
/// this library: two accounts are the same exactly when their texts agree.
#[derive(Debug, Eq, Hash)]
pub struct Addr {
    raw: String,
}

impl View for Addr {
    type V = Seq<char>;

    closed spec fn view(&self) -> Seq<char> {
        self.raw@
    }
}

impl DeepView for Addr {
    type V = Seq<char>;

    open spec fn deep_view(&self) -> Seq<char> {
        self@
    }
}

impl Clone for Addr {
    fn clone(&self) -> (r: Self)
        ensures
            r@ == self@,
    {
        Addr { raw: self.raw.clone() }
    }
}

impl PartialEq for Addr {
    fn eq(&self, other: &Self) -> (r: bool) {
        self.raw == other.raw
    }
}

impl PartialEqSpecImpl for Addr {
    open spec fn obeys_eq_spec() -> bool {
        true
    }

    open spec fn eq_spec(&self, other: &Self) -> bool {
        self@ == other@
    }
}

impl Addr {
    /// Wraps an address text without inspecting it.
    pub fn unchecked(raw: &str) -> (r: Addr)
        ensures
            r@ == raw@,
    {
        Addr { raw: raw.to_owned() }
    }

    /// The address text.
    pub fn as_str(&self) -> (s: &str)
        ensures
            s@ == self@,
    {
        self.raw.as_str()
    }

    /// Unwraps the address text.
    pub fn into_string(self) -> (s: String)
        ensures
            s@ == self@,
    {
        self.raw
    }
}

/// The mathematical value of a [`Coin`].
pub struct CoinView {
    pub denom: Seq<char>,
    pub amount: nat,
}

/// An amount of one denomination.
#[derive(Debug, Eq)]
pub struct Coin {
    pub denom: String,
    pub amount: u128,
}

impl View for Coin {
    type V = CoinView;

    open spec fn view(&self) -> CoinView {
        CoinView { denom: self.denom@, amount: self.amount as nat }
    }
}

impl DeepView for Coin {
    type V = CoinView;

    open spec fn deep_view(&self) -> CoinView {
        self@
    }
}

impl Clone for Coin {
    fn clone(&self) -> (r: Self)
        ensures
            r@ == self@,
    {
        Coin { denom: self.denom.clone(), amount: self.amount }
    }
}

impl PartialEq for Coin {
    fn eq(&self, other: &Self) -> (r: bool) {
        self.denom == other.denom && self.amount == other.amount
    }
}

impl PartialEqSpecImpl for Coin {
    open spec fn obeys_eq_spec() -> bool {
        true
    }

    open spec fn eq_spec(&self, other: &Self) -> bool {
        self@ == other@
    }
}

impl Coin {
    /// `amount` units of the denomination `denom`.
    pub fn new(amount: u128, denom: &str) -> (r: Coin)
        ensures
            r@ == (CoinView { denom: denom@, amount: amount as nat }),
    {
        Coin { denom: denom.to_owned(), amount }
    }
}

impl CoinView {
    /// Whether this offer beats `current`: the same denomination and a
    /// strictly larger amount. A tie does not beat.
    pub open spec fn outbids(self, current: CoinView) -> bool {
        self.denom == current.denom && self.amount > current.amount
    }
}

/// A point in time, in nanoseconds since the epoch.
#[derive(Clone, Copy, Debug, PartialEq, Eq, PartialOrd, Ord, Structural)]
pub struct Timestamp {
    nanos: u64,
}

impl View for Timestamp {
    type V = nat;

    closed spec fn view(&self) -> nat {
        self.nanos as nat
    }
}

impl DeepView for Timestamp {
    type V = nat;

    open spec fn deep_view(&self) -> nat {
        self@
    }
}

impl Timestamp {
    /// The time `nanos` nanoseconds after the epoch.
    pub fn from_nanos(nanos: u64) -> (r: Timestamp)
        ensures
            r@ == nanos,
    {
        Timestamp { nanos }
    }

    /// The time `seconds` seconds after the epoch, where that time fits in
    /// 64 bits of nanoseconds.
    pub fn from_seconds(seconds: u64) -> (r: Option<Timestamp>)
        ensures
            r matches Some(t) ==> t@ == seconds * NANOS_PER_SECOND,
            r is Some <==> seconds * NANOS_PER_SECOND <= u64::MAX,
    {
        if seconds <= u64::MAX / NANOS_PER_SECOND {
            Some(Timestamp { nanos: seconds * NANOS_PER_SECOND })
        } else {
            None
        }
    }

    /// Nanoseconds since the epoch.
    pub fn nanos(&self) -> (r: u64)
        ensures
            r == self@,
    {
        self.nanos
    }

    /// Whole seconds since the epoch.
    pub fn seconds(&self) -> (r: u64)
        ensures
            r == self@ / (NANOS_PER_SECOND as nat),
    {
        self.nanos / NANOS_PER_SECOND
    }

    /// The time `seconds` seconds after this one, where it fits in 64 bits
    /// of nanoseconds.
    pub fn checked_plus_seconds(&self, seconds: u64) -> (r: Option<Timestamp>)
        ensures
            r matches Some(t) ==> t@ == self@ + seconds * NANOS_PER_SECOND,
            r is Some <==> self@ + seconds * NANOS_PER_SECOND <= u64::MAX,
    {
        if seconds <= (u64::MAX - self.nanos) / NANOS_PER_SECOND {
            Some(Timestamp { nanos: timestamp_plus_seconds(self.nanos, seconds) })
        } else {
            None
        }
    }

    /// Whether this time is `other` or later.
    pub fn reached(&self, other: &Timestamp) -> (r: bool)
        ensures
            r == (self@ >= other@),
    {
        self.nanos >= other.nanos
    }
}

/// What the host tells a call about its surroundings: the time of the block
/// that carries the call, and the account of the contract that is called.
#[derive(Debug, PartialEq, Eq)]
pub struct Env {
    pub time: Timestamp,
    pub contract: Addr,
}

/// Who made a call, and the funds that came with it.
#[derive(Debug, PartialEq, Eq)]
pub struct MessageInfo {
    pub sender: Addr,
    pub funds: Vec<Coin>,
}

} // verus!
