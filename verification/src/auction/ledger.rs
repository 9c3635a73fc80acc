//! The bid ledger: what the auction owes to accounts that were outbid.

use vstd::prelude::*;
use crate::auction::error::Error;
use crate::cosmwasm::uint128_checked_add;
use crate::types::Addr;

verus! {

/// One ledger line: an account and the balance it may withdraw.
#[derive(Debug, PartialEq, Eq)]
pub struct Entry {
    pub account: Addr,
    pub amount: u128,
}

impl Clone for Entry {
    fn clone(&self) -> (r: Self)
        ensures
            r.account@ == self.account@,
            r.amount == self.amount,
    {
        Entry { account: self.account.clone(), amount: self.amount }
    }
}

/// Refundable balances by account. An account has at most one line; a line
/// that was paid out stays, with balance zero.
#[derive(Debug, PartialEq, Eq)]
pub struct Ledger {
    entries: Vec<Entry>,
}

/// Whether no account has two of the lines `lines`.
pub open spec fn distinct_accounts(lines: Seq<Entry>) -> bool {
    forall|i: int, j: int|
        0 <= i < lines.len() && 0 <= j < lines.len() && (#[trigger] lines[i]).account@ == (
        #[trigger] lines[j]).account@ ==> i == j
}

/// Whether `ledger` holds the lines `lines` and no others.
pub open spec fn holds_lines(ledger: Map<Seq<char>, nat>, lines: Seq<Entry>) -> bool {
    &&& forall|i: int|
        0 <= i < lines.len() ==> {
            &&& ledger.dom().contains((#[trigger] lines[i]).account@)
            &&& ledger[lines[i].account@] == lines[i].amount
        }
    &&& forall|k: Seq<char>| #[trigger]
        ledger.dom().contains(k) ==> exists|i: int|
            0 <= i < lines.len() && (#[trigger] lines[i]).account@ == k
}

/// The balance that `ledger` holds for `account`: zero where it has no line.
pub open spec fn balance(ledger: Map<Seq<char>, nat>, account: Seq<char>) -> nat {
    if ledger.dom().contains(account) {
        ledger[account]
    } else {
        0
    }
}

impl View for Ledger {
    type V = Map<Seq<char>, nat>;

    closed spec fn view(&self) -> Map<Seq<char>, nat> {
        Map::new(
            |k: Seq<char>| Self::has_line(self.entries@, k),
            |k: Seq<char>| self.entries@[Self::line_of(self.entries@, k)].amount as nat,
        )
    }
}

impl Ledger {
    spec fn has_line(entries: Seq<Entry>, k: Seq<char>) -> bool {
        exists|i: int| 0 <= i < entries.len() && #[trigger] entries[i].account@ == k
    }

    spec fn line_of(entries: Seq<Entry>, k: Seq<char>) -> int {
        choose|i: int| 0 <= i < entries.len() && #[trigger] entries[i].account@ == k
    }

    #[verifier::type_invariant]
    spec fn inv(&self) -> bool {
        distinct_accounts(self.entries@)
    }

    proof fn lemma_view_holds_lines(&self)
        requires
            distinct_accounts(self.entries@),
        ensures
            holds_lines(self@, self.entries@),
    {
        let lines = self.entries@;
        assert forall|i: int| 0 <= i < lines.len() implies {
            &&& self@.dom().contains((#[trigger] lines[i]).account@)
            &&& self@[lines[i].account@] == lines[i].amount
        } by {
            assert(Self::has_line(lines, lines[i].account@));
        }
        assert forall|k: Seq<char>| #[trigger] self@.dom().contains(k) implies exists|i: int|
            0 <= i < lines.len() && (#[trigger] lines[i]).account@ == k by {
            let i = Self::line_of(lines, k);
            assert(lines[i].account@ == k);
        }
    }

    /// The ledger that holds the lines `lines`, where no account has two of
    /// them.
    pub fn from_lines(lines: Vec<Entry>) -> (r: Option<Ledger>)
        ensures
            r is Some <==> distinct_accounts(lines@),
            r matches Some(ledger) ==> holds_lines(ledger@, lines@),
    {
        let mut i: usize = 0;
        while i < lines.len()
            invariant
                i <= lines.len(),
                forall|a: int, b: int|
                    0 <= a < i && 0 <= b < a ==> (#[trigger] lines@[a]).account@ != (
                    #[trigger] lines@[b]).account@,
            decreases lines.len() - i,
        {
            let mut j: usize = 0;
            while j < i
                invariant
                    j <= i,
                    i < lines.len(),
                    forall|b: int| 0 <= b < j ==> lines@[i as int].account@ != (
                    #[trigger] lines@[b]).account@,
                decreases i - j,
            {
                if lines[i].account == lines[j].account {
                    return None;
                }
                j += 1;
            }
            i += 1;
        }
        assert(distinct_accounts(lines@)) by {
            assert forall|a: int, b: int|
                0 <= a < lines@.len() && 0 <= b < lines@.len() && (#[trigger] lines@[a]).account@
                    == (#[trigger] lines@[b]).account@ implies a == b by {
                if a < b {
                    assert(lines@[b].account@ != lines@[a].account@);
                }
                if b < a {
                    assert(lines@[a].account@ != lines@[b].account@);
                }
            }
        }
        let ledger = Ledger { entries: lines };
        proof {
            ledger.lemma_view_holds_lines();
        }
        Some(ledger)
    }

    /// The lines of the ledger, in the order in which they were opened.
    pub fn lines(&self) -> (r: &Vec<Entry>)
        ensures
            distinct_accounts(r@),
            holds_lines(self@, r@),
    {
        proof {
            use_type_invariant(self);
            self.lemma_view_holds_lines();
        }
        &self.entries
    }

    /// A ledger without lines.
    pub fn new() -> (r: Ledger)
        ensures
            r@ == Map::<Seq<char>, nat>::empty(),
    {
        let r = Ledger { entries: Vec::new() };
        assert(r@ =~= Map::<Seq<char>, nat>::empty());
        r
    }

    fn find(&self, account: &Addr) -> (r: Option<usize>)
        ensures
            match r {
                Some(i) => i < self.entries@.len() && self.entries@[i as int].account@ == account@,
                None => !Self::has_line(self.entries@, account@),
            },
    {
        let mut i: usize = 0;
        while i < self.entries.len()
            invariant
                i <= self.entries@.len(),
                forall|j: int| 0 <= j < i ==> self.entries@[j].account@ != account@,
            decreases self.entries@.len() - i,
        {
            if self.entries[i].account == *account {
                return Some(i);
            }
            i += 1;
        }
        None
    }

    /// Adds `amount` to what is owed to `account`, opening a line where the
    /// account has none. Fails, changing nothing, where the new balance does
    /// not fit in 128 bits.
    pub fn credit_on_outbid(&mut self, account: &Addr, amount: u128) -> (r: Result<(), Error>)
        ensures
            match r {
                Ok(()) => {
                    &&& balance(old(self)@, account@) + amount <= u128::MAX
                    &&& final(self)@ == old(self)@.insert(
                        account@,
                        (balance(old(self)@, account@) + amount) as nat,
                    )
                },
                Err(e) => {
                    &&& e == Error::Overflow
                    &&& balance(old(self)@, account@) + amount > u128::MAX
                    &&& final(self)@ == old(self)@
                },
            },
    {
        proof {
            use_type_invariant(&*self);
        }
        let found = self.find(account);
        let owed: u128 = match found {
            Some(i) => self.entries[i].amount,
            None => 0,
        };
        let sum: u128 = match uint128_checked_add(owed, amount) {
            Some(sum) => sum,
            None => {
                return Err(Error::Overflow);
            },
        };
        let mut entries: Vec<Entry> = Vec::new();
        std::mem::swap(&mut entries, &mut self.entries);
        let ghost before = entries@;
        match found {
            Some(i) => {
                entries[i].amount = sum;
            },
            None => {
                entries.push(Entry { account: account.clone(), amount: sum });
            },
        }
        self.entries = entries;
        proof {
            let after = self.entries@;
            assert forall|k: Seq<char>| Self::has_line(after, k) <==> (Self::has_line(before, k)
                || k == account@) by {
                if Self::has_line(before, k) {
                    let i = Self::line_of(before, k);
                    assert(after[i].account@ == k);
                }
                if Self::has_line(after, k) && k != account@ {
                    let i = Self::line_of(after, k);
                    assert(before[i].account@ == k);
                }
                if k == account@ {
                    match found {
                        Some(i) => {
                            assert(after[i as int].account@ == k);
                        },
                        None => {
                            assert(after[before.len() as int].account@ == k);
                        },
                    }
                }
            }
            assert(self@ =~= old(self)@.insert(account@, (owed + amount) as nat));
        }
        Ok(())
    }

    /// Takes out all that is owed to `account`. The line is set to zero, and
    /// stays. Fails, changing nothing, where nothing is owed.
    pub fn withdraw(&mut self, account: &Addr) -> (r: Result<u128, Error>)
        ensures
            match r {
                Ok(paid) => {
                    &&& paid > 0
                    &&& paid == balance(old(self)@, account@)
                    &&& final(self)@ == old(self)@.insert(account@, 0)
                },
                Err(e) => {
                    &&& e == Error::NoWithdrawableBid
                    &&& balance(old(self)@, account@) == 0
                    &&& final(self)@ == old(self)@
                },
            },
    {
        proof {
            use_type_invariant(&*self);
        }
        let i: usize = match self.find(account) {
            Some(i) => i,
            None => {
                return Err(Error::NoWithdrawableBid);
            },
        };
        let owed: u128 = self.entries[i].amount;
        if owed == 0 {
            return Err(Error::NoWithdrawableBid);
        }
        let mut entries: Vec<Entry> = Vec::new();
        std::mem::swap(&mut entries, &mut self.entries);
        let ghost before = entries@;
        entries[i].amount = 0;
        self.entries = entries;
        proof {
            let after = self.entries@;
            assert forall|k: Seq<char>| Self::has_line(after, k) <==> Self::has_line(
                before,
                k,
            ) by {
                if Self::has_line(before, k) {
                    let j = Self::line_of(before, k);
                    assert(after[j].account@ == k);
                }
                if Self::has_line(after, k) {
                    let j = Self::line_of(after, k);
                    assert(before[j].account@ == k);
                }
            }
            assert(self@ =~= old(self)@.insert(account@, 0));
        }
        Ok(owed)
    }

    /// The balance owed to `account`.
    pub fn balance_of(&self, account: &Addr) -> (r: u128)
        ensures
            r == balance(self@, account@),
    {
        proof {
            use_type_invariant(self);
        }
        match self.find(account) {
            Some(i) => self.entries[i].amount,
            None => 0,
        }
    }
}

impl Clone for Ledger {
    fn clone(&self) -> (r: Self)
        ensures
            r@ == self@,
    {
        proof {
            use_type_invariant(self);
        }
        let mut entries: Vec<Entry> = Vec::new();
        let mut i: usize = 0;
        while i < self.entries.len()
            invariant
                i <= self.entries@.len(),
                entries@.len() == i,
                forall|j: int|
                    0 <= j < i ==> (#[trigger] entries@[j]).account@ == self.entries@[j].account@
                        && entries@[j].amount == self.entries@[j].amount,
            decreases self.entries@.len() - i,
        {
            entries.push(self.entries[i].clone());
            i += 1;
        }
        assert(distinct_accounts(entries@)) by {
            assert forall|a: int, b: int|
                0 <= a < entries@.len() && 0 <= b < entries@.len() && (
                #[trigger] entries@[a]).account@ == (#[trigger] entries@[b]).account@ implies a
                == b by {
                assert(self.entries@[a].account@ == self.entries@[b].account@);
            }
        }
        let r = Ledger { entries };
        proof {
            assert forall|k: Seq<char>| Self::has_line(r.entries@, k) <==> Self::has_line(
                self.entries@,
                k,
            ) by {
                if Self::has_line(self.entries@, k) {
                    let j = Self::line_of(self.entries@, k);
                    assert(r.entries@[j].account@ == k);
                }
                if Self::has_line(r.entries@, k) {
                    let j = Self::line_of(r.entries@, k);
                    assert(self.entries@[j].account@ == k);
                }
            }
            assert forall|k: Seq<char>| Self::has_line(self.entries@, k) implies r@[k]
                == self@[k] by {
                let a = Self::line_of(self.entries@, k);
                let b = Self::line_of(r.entries@, k);
                assert(self.entries@[b].account@ == k);
            }
            assert(r@ =~= self@);
        }
        r
    }
}

} // verus!
