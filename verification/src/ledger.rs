//! An in-memory fungible-token transfer service, the injected collaborator
//! the state machine delegates fund movement to. It keeps one account row
//! per `(asset, holder)` pair and is proved to follow
//! [`crate::model::transfer_step`] exactly, so everything the laws say over
//! [`Balances`] holds of it.

use vstd::prelude::*;

use crate::errors::Error;
use crate::model::{bal, transfer_step, Balances};
use crate::Address;

verus! {

/// One account row: the balance of `holder` in `asset`.
#[derive(Clone, Copy, PartialEq, Eq, Structural, Debug)]
pub struct Account {
    /// The asset the balance is denominated in.
    pub asset: Address,
    /// The account's owner.
    pub holder: Address,
    /// The balance itself.
    pub amount: i128,
}

/// Whether a row belongs to `holder`'s account in `asset`.
pub open spec fn is_for(acc: Account, asset: Address, holder: Address) -> bool {
    acc.asset == asset && acc.holder == holder
}

/// The balance that the rows from index `i` on give to `holder` in
/// `asset`: the first matching row decides, and no row means zero.
pub open spec fn bal_at(s: Seq<Account>, i: int, asset: Address, holder: Address) -> i128
    decreases s.len() - i,
{
    if i < 0 || i >= s.len() {
        0
    } else if is_for(s[i], asset, holder) {
        s[i].amount
    } else {
        bal_at(s, i + 1, asset, holder)
    }
}

/// The token transfer service's ledger.
pub struct Ledger {
    accounts: Vec<Account>,
}

impl View for Ledger {
    type V = Balances;

    closed spec fn view(&self) -> Balances {
        Map::new(
            |k: (Address, Address)| true,
            |k: (Address, Address)| bal_at(self.accounts@, 0, k.0, k.1),
        )
    }
}

/// Overwriting the first row of an account changes that account's balance
/// to the row's amount and no other account's balance at all.
proof fn lemma_bal_at_update(s: Seq<Account>, i: int, acc: Account, j: int)
    requires
        0 <= i < s.len(),
        is_for(s[i], acc.asset, acc.holder),
        forall|j2: int| 0 <= j2 < i ==> !is_for(s[j2], acc.asset, acc.holder),
        0 <= j <= i,
    ensures
        bal_at(s.update(i, acc), j, acc.asset, acc.holder) == acc.amount,
    decreases i - j,
{
    if j == i {
        assert(s.update(i, acc)[i] == acc);
    } else {
        assert(s.update(i, acc)[j] == s[j]);
        lemma_bal_at_update(s, i, acc, j + 1);
    }
}

/// Overwriting a row in place, with a row for the same account, leaves
/// every other account's balance as it was.
proof fn lemma_bal_at_update_other(
    s: Seq<Account>,
    i: int,
    acc: Account,
    asset: Address,
    holder: Address,
    j: int,
)
    requires
        0 <= i < s.len(),
        is_for(s[i], acc.asset, acc.holder),
        !(asset == acc.asset && holder == acc.holder),
        0 <= j,
    ensures
        bal_at(s.update(i, acc), j, asset, holder) == bal_at(s, j, asset, holder),
    decreases s.len() - j,
{
    if j >= s.len() {
    } else {
        if j != i {
            assert(s.update(i, acc)[j] == s[j]);
        }
        lemma_bal_at_update_other(s, i, acc, asset, holder, j + 1);
    }
}

/// Appending a row for an account that has none gives that account the
/// row's amount.
proof fn lemma_bal_at_push(s: Seq<Account>, acc: Account, j: int)
    requires
        forall|j2: int| 0 <= j2 < s.len() ==> !is_for(s[j2], acc.asset, acc.holder),
        0 <= j <= s.len(),
    ensures
        bal_at(s.push(acc), j, acc.asset, acc.holder) == acc.amount,
    decreases s.len() - j,
{
    if j == s.len() {
        assert(s.push(acc)[j] == acc);
    } else {
        assert(s.push(acc)[j] == s[j]);
        lemma_bal_at_push(s, acc, j + 1);
    }
}

/// Appending a row leaves every other account's balance as it was.
proof fn lemma_bal_at_push_other(
    s: Seq<Account>,
    acc: Account,
    asset: Address,
    holder: Address,
    j: int,
)
    requires
        !(asset == acc.asset && holder == acc.holder),
        0 <= j,
    ensures
        bal_at(s.push(acc), j, asset, holder) == bal_at(s, j, asset, holder),
    decreases s.len() + 1 - j,
{
    if j >= s.len() + 1 {
    } else {
        if j < s.len() {
            assert(s.push(acc)[j] == s[j]);
        } else {
            assert(s.push(acc)[j] == acc);
        }
        lemma_bal_at_push_other(s, acc, asset, holder, j + 1);
    }
}

impl Ledger {
    /// An empty ledger: every balance zero.
    pub fn new() -> (l: Ledger)
        ensures
            forall|asset: Address, holder: Address| bal(l@, asset, holder) == 0,
    {
        Ledger { accounts: Vec::new() }
    }

    /// The index of the first row of `holder`'s account in `asset`, if the
    /// account has one.
    fn find_index(&self, asset: Address, holder: Address) -> (r: Option<usize>)
        ensures
            match r {
                Some(i) => i < self.accounts@.len() && is_for(self.accounts@[i as int], asset, holder)
                    && forall|j: int| 0 <= j < i ==> !is_for(self.accounts@[j], asset, holder),
                None => forall|j: int|
                    0 <= j < self.accounts@.len() ==> !is_for(self.accounts@[j], asset, holder),
            },
    {
        let n = self.accounts.len();
        let mut i: usize = 0;
        while i < n
            invariant
                i <= n,
                n == self.accounts@.len(),
                forall|j: int| 0 <= j < i ==> !is_for(self.accounts@[j], asset, holder),
            decreases n - i,
        {
            let acc = &self.accounts[i];
            if acc.asset == asset && acc.holder == holder {
                return Some(i);
            }
            i = i + 1;
        }
        None
    }

    /// The balance of `holder` in `asset`. A non-failing query: an account
    /// that was never touched holds zero.
    pub fn balance_of(&self, asset: Address, holder: Address) -> (r: i128)
        ensures
            r == bal(self@, asset, holder),
    {
        match self.find_index(asset, holder) {
            Some(i) => {
                proof {
                    lemma_bal_at_found(self.accounts@, asset, holder, i as int, 0);
                }
                self.accounts[i].amount
            },
            None => {
                proof {
                    lemma_bal_at_skip_none(self.accounts@, asset, holder, 0);
                }
                0
            },
        }
    }

    /// Set `holder`'s balance in `asset` to exactly `amount`.
    fn set_balance(&mut self, asset: Address, holder: Address, amount: i128)
        ensures
            final(self)@ == old(self)@.insert((asset, holder), amount),
    {
        let acc = Account { asset: asset, holder: holder, amount: amount };
        match self.find_index(asset, holder) {
            Some(i) => {
                let ghost s = self.accounts@;
                self.accounts.set(i, acc);
                proof {
                    lemma_bal_at_update(s, i as int, acc, 0);
                    assert forall|a2: Address, h2: Address|
                        !(a2 == asset && h2 == holder) implies bal_at(
                        self.accounts@,
                        0,
                        a2,
                        h2,
                    ) == bal_at(s, 0, a2, h2) by {
                        lemma_bal_at_update_other(s, i as int, acc, a2, h2, 0);
                    }
                    assert(self@ =~= old(self)@.insert((asset, holder), amount));
                }
            },
            None => {
                let ghost s = self.accounts@;
                self.accounts.push(acc);
                proof {
                    lemma_bal_at_push(s, acc, 0);
                    assert forall|a2: Address, h2: Address|
                        !(a2 == asset && h2 == holder) implies bal_at(
                        self.accounts@,
                        0,
                        a2,
                        h2,
                    ) == bal_at(s, 0, a2, h2) by {
                        lemma_bal_at_push_other(s, acc, a2, h2, 0);
                    }
                    assert(self@ =~= old(self)@.insert((asset, holder), amount));
                }
            },
        }
    }

    /// Credit `holder`'s account in `asset` with `amount` out of thin air:
    /// the issuing seam of the token service, for funding accounts before
    /// any escrow runs.
    pub fn mint(&mut self, asset: Address, holder: Address, amount: i128)
        requires
            amount >= 0,
            bal(old(self)@, asset, holder) + amount <= i128::MAX,
        ensures
            final(self)@ == old(self)@.insert(
                (asset, holder),
                (bal(old(self)@, asset, holder) + amount) as i128,
            ),
    {
        let b = self.balance_of(asset, holder);
        self.set_balance(asset, holder, b + amount);
    }

    /// Move `amount` of `asset` from `from` to `to`, exactly as
    /// [`transfer_step`] says: on any failure the ledger is left untouched.
    pub fn transfer(&mut self, asset: Address, from: Address, to: Address, amount: i128) -> (r:
        Result<(), Error>)
        ensures
            final(self)@ == transfer_step(old(self)@, asset, from, to, amount).0,
            r == transfer_step(old(self)@, asset, from, to, amount).1,
    {
        if amount < 0 {
            return Err(Error::TransferFailed);
        }
        let bf = self.balance_of(asset, from);
        if bf < amount {
            return Err(Error::TransferFailed);
        }
        if from == to {
            return Ok(());
        }
        let bt = self.balance_of(asset, to);
        if bt > i128::MAX - amount {
            return Err(Error::TransferFailed);
        }
        self.set_balance(asset, from, bf - amount);
        self.set_balance(asset, to, bt + amount);
        Ok(())
    }
}

/// With no row for an account, its balance from any index on is zero.
proof fn lemma_bal_at_skip_none(s: Seq<Account>, asset: Address, holder: Address, j: int)
    requires
        0 <= j,
        forall|j2: int| 0 <= j2 < s.len() ==> !is_for(s[j2], asset, holder),
    ensures
        bal_at(s, j, asset, holder) == 0,
    decreases s.len() - j,
{
    if j < s.len() {
        lemma_bal_at_skip_none(s, asset, holder, j + 1);
    }
}

/// The first matching row decides the balance.
proof fn lemma_bal_at_found(s: Seq<Account>, asset: Address, holder: Address, i: int, j: int)
    requires
        0 <= j <= i < s.len(),
        is_for(s[i], asset, holder),
        forall|j2: int| 0 <= j2 < i ==> !is_for(s[j2], asset, holder),
    ensures
        bal_at(s, j, asset, holder) == s[i].amount,
    decreases i - j,
{
    if j < i {
        lemma_bal_at_found(s, asset, holder, i, j + 1);
    }
}

} // verus!
