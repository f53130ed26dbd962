//! The escrow state machine: one contract instance over its configuration
//! store, delegating fund movement to an injected token transfer service.
//!
//! Each operation takes the caller's identity together with the host
//! authorization subsystem's verdict on it (`authorized`), and is proved to
//! follow the corresponding step function of [`crate::model`] exactly.

use vstd::prelude::*;

use crate::errors::Error;
use crate::ledger::Ledger;
use crate::model::{
    bal, init_step, is_init, pay_step, receipt_step, update_step, wf, withdraw_step, initial_state,
    State,
};
use crate::storage::{DataKey, Store, Value};
use crate::Address;

verus! {

/// One escrow contract instance: its custodial identity and its
/// configuration store.
pub struct Contract {
    address: Address,
    store: Store,
}

impl View for Contract {
    type V = State;

    closed spec fn view(&self) -> State {
        State {
            addr: self.address,
            admin: match self.store.entry(DataKey::Admin) {
                Some(Value::Addr(a)) => Some(a),
                _ => None,
            },
            asset: match self.store.entry(DataKey::Asset) {
                Some(Value::Addr(a)) => Some(a),
                _ => None,
            },
            recipient: match self.store.entry(DataKey::Recipient) {
                Some(Value::Addr(a)) => Some(a),
                _ => None,
            },
            amount: match self.store.entry(DataKey::Amount) {
                Some(Value::Int(n)) => Some(n),
                _ => None,
            },
            receipt: match self.store.entry(DataKey::Receipt) {
                Some(Value::Text(t)) => Some(t@),
                _ => None,
            },
        }
    }
}

impl Contract {
    /// The instance's invariant: each slot, when present, holds its
    /// intended kind of value, and the slots are filled all together or
    /// not at all.
    pub closed spec fn inv(&self) -> bool {
        &&& wf(self@)
        &&& (self.store.entry(DataKey::Admin) matches Some(v) ==> v is Addr)
        &&& (self.store.entry(DataKey::Asset) matches Some(v) ==> v is Addr)
        &&& (self.store.entry(DataKey::Recipient) matches Some(v) ==> v is Addr)
        &&& (self.store.entry(DataKey::Amount) matches Some(v) ==> v is Int)
        &&& (self.store.entry(DataKey::Receipt) matches Some(v) ==> v is Text)
    }

    /// A freshly deployed instance under its own custodial address, with
    /// nothing stored yet.
    pub fn new(address: Address) -> (c: Contract)
        ensures
            c.inv(),
            c@ == initial_state(address),
    {
        let c = Contract { address: address, store: Store::new() };
        proof {
            assert(c@ =~= initial_state(address));
        }
        c
    }

    /// Whether `init` has run: the presence of the administrator slot.
    pub fn is_initialized(&self) -> (r: bool)
        requires
            self.inv(),
        ensures
            r == is_init(self@),
    {
        self.store.has(DataKey::Admin)
    }

    /// Initialize the instance: the caller becomes the administrator and
    /// all five slots are written at once.
    pub fn init(
        &mut self,
        admin: Address,
        authorized: bool,
        asset: Address,
        recipient: Address,
        amount: i128,
        receipt: String,
    ) -> (r: Result<(), Error>)
        requires
            old(self).inv(),
        ensures
            final(self).inv(),
            final(self)@ == init_step(old(self)@, admin, authorized, asset, recipient, amount, receipt@).0,
            r == init_step(old(self)@, admin, authorized, asset, recipient, amount, receipt@).1,
    {
        if !authorized {
            return Err(Error::AuthorizationProofMissing);
        }
        if self.store.has(DataKey::Admin) {
            return Err(Error::AlreadyInitialized);
        }
        self.store.set(DataKey::Admin, Value::Addr(admin));
        self.store.set(DataKey::Asset, Value::Addr(asset));
        self.store.set(DataKey::Recipient, Value::Addr(recipient));
        self.store.set(DataKey::Amount, Value::Int(amount));
        self.store.set(DataKey::Receipt, Value::Text(receipt));
        proof {
            assert(self@ =~= init_step(old(self)@, admin, authorized, asset, recipient, amount, receipt@).0);
        }
        Ok(())
    }

    /// Replace the payment terms — recipient, amount, receipt — as a unit.
    /// Only the stored administrator may do so; the administrator and the
    /// asset themselves are never touched.
    pub fn update(
        &mut self,
        admin: Address,
        authorized: bool,
        recipient: Address,
        amount: i128,
        receipt: String,
    ) -> (r: Result<(), Error>)
        requires
            old(self).inv(),
        ensures
            final(self).inv(),
            final(self)@ == update_step(old(self)@, admin, authorized, recipient, amount, receipt@).0,
            r == update_step(old(self)@, admin, authorized, recipient, amount, receipt@).1,
    {
        if !authorized {
            return Err(Error::AuthorizationProofMissing);
        }
        if !self.store.has(DataKey::Admin) {
            return Err(Error::NotInitialized);
        }
        let current: Address = match self.store.get(DataKey::Admin) {
            Ok(v) => match v {
                Value::Addr(a) => *a,
                _ => {
                    return Err(Error::NotInitialized);
                },
            },
            Err(e) => {
                return Err(e);
            },
        };
        if current != admin {
            return Err(Error::NotAuthorizedAdmin);
        }
        self.store.set(DataKey::Recipient, Value::Addr(recipient));
        self.store.set(DataKey::Amount, Value::Int(amount));
        self.store.set(DataKey::Receipt, Value::Text(receipt));
        proof {
            assert(self@ =~= update_step(old(self)@, admin, authorized, recipient, amount, receipt@).0);
        }
        Ok(())
    }

    /// Collect the configured payment: move the stored amount of the
    /// stored asset from the payer into the contract's custody. Any
    /// authorized party may pay; the stored terms are not consumed.
    pub fn pay(&self, payer: Address, authorized: bool, ledger: &mut Ledger) -> (r: Result<
        (),
        Error,
    >)
        requires
            self.inv(),
        ensures
            final(ledger)@ == pay_step(self@, old(ledger)@, payer, authorized).0,
            r == pay_step(self@, old(ledger)@, payer, authorized).1,
    {
        if !authorized {
            return Err(Error::AuthorizationProofMissing);
        }
        if !self.store.has(DataKey::Asset) {
            return Err(Error::NotInitialized);
        }
        let asset: Address = match self.store.get(DataKey::Asset) {
            Ok(v) => match v {
                Value::Addr(a) => *a,
                _ => {
                    return Err(Error::NotInitialized);
                },
            },
            Err(e) => {
                return Err(e);
            },
        };
        let amount: i128 = match self.store.get(DataKey::Amount) {
            Ok(v) => match v {
                Value::Int(n) => *n,
                _ => {
                    return Err(Error::NotInitialized);
                },
            },
            Err(e) => {
                return Err(e);
            },
        };
        ledger.transfer(asset, payer, self.address, amount)
    }

    /// The contract's own custodial balance of the given asset — any
    /// asset, not only the configured one: a deliberate generic probe. No
    /// authorization, no initialization demand, no state change.
    pub fn balance(&self, asset: Address, ledger: &Ledger) -> (r: i128)
        ensures
            r == bal(ledger@, asset, self@.addr),
    {
        ledger.balance_of(asset, self.address)
    }

    /// The stored receipt text, verbatim.
    pub fn receipt(&self) -> (r: Result<String, Error>)
        requires
            self.inv(),
        ensures
            match r {
                Ok(t) => receipt_step(self@) == Ok::<Seq<char>, Error>(t@),
                Err(e) => receipt_step(self@) == Err::<Seq<char>, Error>(e),
            },
    {
        match self.store.get(DataKey::Receipt) {
            Ok(v) => match v {
                Value::Text(t) => Ok(t.clone()),
                _ => Err(Error::NotInitialized),
            },
            Err(e) => Err(e),
        }
    }

    /// Move the contract's whole custodial balance of the configured asset
    /// to the configured recipient. Deliberately asymmetric with `update`:
    /// the caller is never compared with the stored administrator — only
    /// the authorization proof is demanded.
    pub fn withdraw(&self, admin: Address, authorized: bool, ledger: &mut Ledger) -> (r: Result<
        (),
        Error,
    >)
        requires
            self.inv(),
        ensures
            final(ledger)@ == withdraw_step(self@, old(ledger)@, admin, authorized).0,
            r == withdraw_step(self@, old(ledger)@, admin, authorized).1,
    {
        if !authorized {
            return Err(Error::AuthorizationProofMissing);
        }
        if !self.store.has(DataKey::Asset) {
            return Err(Error::NotInitialized);
        }
        let asset: Address = match self.store.get(DataKey::Asset) {
            Ok(v) => match v {
                Value::Addr(a) => *a,
                _ => {
                    return Err(Error::NotInitialized);
                },
            },
            Err(e) => {
                return Err(e);
            },
        };
        let recipient: Address = match self.store.get(DataKey::Recipient) {
            Ok(v) => match v {
                Value::Addr(a) => *a,
                _ => {
                    return Err(Error::NotInitialized);
                },
            },
            Err(e) => {
                return Err(e);
            },
        };
        let b = ledger.balance_of(asset, self.address);
        ledger.transfer(asset, self.address, recipient, b)
    }
}

} // verus!
