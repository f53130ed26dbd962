//! The persistent configuration store: a durable map over a closed set of
//! named slots. The host ledger guarantees durability and per-invocation
//! atomicity; what is modeled here is the map itself — `get` either returns
//! the stored value or signals `NotInitialized`, `set` unconditionally
//! overwrites, `has` is a non-failing presence check.

use vstd::prelude::*;

use crate::errors::Error;
use crate::Address;

verus! {

/// The closed enumeration of storage slots.
#[derive(Clone, Copy, PartialEq, Eq, Structural, Debug)]
pub enum DataKey {
    /// Contract administrator.
    Admin,
    /// Asset address.
    Asset,
    /// Payment recipient address.
    Recipient,
    /// Payment amount.
    Amount,
    /// Payment receipt.
    Receipt,
}

/// A storable value: the store itself is untyped, and the state machine is
/// what keeps each slot to its intended variant.
#[derive(Debug)]
pub enum Value {
    /// A principal or contract identity.
    Addr(Address),
    /// A signed wide integer.
    Int(i128),
    /// A text value.
    Text(String),
}

/// The configuration store of one contract instance.
pub struct Store {
    admin: Option<Value>,
    asset: Option<Value>,
    recipient: Option<Value>,
    amount: Option<Value>,
    receipt: Option<Value>,
}

impl Store {
    /// What the store holds under `key`, or `None` while the slot was
    /// never written.
    pub closed spec fn entry(self, key: DataKey) -> Option<Value> {
        match key {
            DataKey::Admin => self.admin,
            DataKey::Asset => self.asset,
            DataKey::Recipient => self.recipient,
            DataKey::Amount => self.amount,
            DataKey::Receipt => self.receipt,
        }
    }

    /// An empty store: every slot absent.
    pub fn new() -> (s: Store)
        ensures
            forall|k: DataKey| s.entry(k) is None,
    {
        Store { admin: None, asset: None, recipient: None, amount: None, receipt: None }
    }

    /// Non-failing presence check.
    pub fn has(&self, key: DataKey) -> (r: bool)
        ensures
            r == (self.entry(key) is Some),
    {
        match key {
            DataKey::Admin => self.admin.is_some(),
            DataKey::Asset => self.asset.is_some(),
            DataKey::Recipient => self.recipient.is_some(),
            DataKey::Amount => self.amount.is_some(),
            DataKey::Receipt => self.receipt.is_some(),
        }
    }

    /// The stored value under `key`, or `NotInitialized` while the slot is
    /// absent.
    pub fn get(&self, key: DataKey) -> (r: Result<&Value, Error>)
        ensures
            self.entry(key) is Some ==> (r matches Ok(v) && Some(*v) == self.entry(key)),
            self.entry(key) is None ==> r == Err::<&Value, Error>(Error::NotInitialized),
    {
        let slot = match key {
            DataKey::Admin => &self.admin,
            DataKey::Asset => &self.asset,
            DataKey::Recipient => &self.recipient,
            DataKey::Amount => &self.amount,
            DataKey::Receipt => &self.receipt,
        };
        match slot {
            Some(v) => Ok(v),
            None => Err(Error::NotInitialized),
        }
    }

    /// Unconditionally overwrite the slot under `key`; every other slot
    /// keeps its value.
    pub fn set(&mut self, key: DataKey, value: Value)
        ensures
            final(self).entry(key) == Some(value),
            forall|k: DataKey| k != key ==> final(self).entry(k) == old(self).entry(k),
    {
        match key {
            DataKey::Admin => {
                self.admin = Some(value);
            },
            DataKey::Asset => {
                self.asset = Some(value);
            },
            DataKey::Recipient => {
                self.recipient = Some(value);
            },
            DataKey::Amount => {
                self.amount = Some(value);
            },
            DataKey::Receipt => {
                self.receipt = Some(value);
            },
        }
    }
}

} // verus!
