//! A single-purpose escrow/payment contract: an administrator configures a
//! fixed payment (asset, recipient, amount, receipt text); any party may
//! trigger collection of that payment into the contract's custody; the
//! administrator may later withdraw the accumulated funds to the recipient.
//!
//! The host environment's collaborators (the authorization subsystem, the
//! durable key-value store, and the fungible-token transfer service) enter
//! the library as plain injected values, so every rule of the state machine
//! is stated and proved here.

use vstd::prelude::*;

pub mod errors;
pub mod escrow;
pub mod laws;
pub mod ledger;
pub mod model;
pub mod storage;

verus! {

/// An opaque principal reference: an account or contract identity, as the
/// host's authorization subsystem resolves it.
#[derive(Clone, Copy, PartialEq, Eq, Structural, Debug, Hash)]
pub struct Address {
    pub id: u64,
}

} // verus!
