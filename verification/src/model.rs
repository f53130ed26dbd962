//! The mathematical model of the escrow contract.
//!
//! A [`State`] is what one contract instance remembers between invocations:
//! its own custodial address and the five configuration slots. A
//! [`Balances`] map is the token transfer service's ledger, giving every
//! `(asset, holder)` pair a balance. Each operation of the state machine is
//! a pure step function here; the executable operations in
//! [`crate::escrow`] are proved to follow these steps exactly, and the
//! general laws in [`crate::laws`] are proved about them.

use vstd::prelude::*;

use crate::errors::Error;
use crate::Address;

verus! {

/// The durable memory of one contract instance. A `None` slot is absent
/// from the store; `init` is what fills all five slots at once.
#[verifier::ext_equal]
pub struct State {
    /// The contract instance's own custodial identity.
    pub addr: Address,
    /// The administrator, set exactly once at `init`.
    pub admin: Option<Address>,
    /// The fungible-token asset the contract transacts in.
    pub asset: Option<Address>,
    /// The payment recipient.
    pub recipient: Option<Address>,
    /// The payment amount. The design never demands non-negativity; a
    /// negative amount is simply rejected by the token service at `pay`.
    pub amount: Option<i128>,
    /// The human-readable receipt text.
    pub receipt: Option<Seq<char>>,
}

/// The token transfer service's view of the world: the balance of each
/// holder in each asset.
pub type Balances = Map<(Address, Address), i128>;

/// The balance of `holder` in `asset`: an account that was never touched
/// holds zero.
pub open spec fn bal(l: Balances, asset: Address, holder: Address) -> i128 {
    if l.dom().contains((asset, holder)) {
        l[(asset, holder)]
    } else {
        0
    }
}

/// The initialization flag: the presence of the administrator slot.
pub open spec fn is_init(s: State) -> bool {
    s.admin is Some
}

/// Well-formedness: the slots are filled all together (by `init`) or not at
/// all; the state machine never produces anything in between.
pub open spec fn wf(s: State) -> bool {
    if s.admin is Some {
        s.asset is Some && s.recipient is Some && s.amount is Some && s.receipt is Some
    } else {
        s.asset is None && s.recipient is None && s.amount is None && s.receipt is None
    }
}

/// The state of a freshly deployed instance: nothing stored yet.
pub open spec fn initial_state(addr: Address) -> State {
    State { addr, admin: None, asset: None, recipient: None, amount: None, receipt: None }
}

/// The stored administrator, on an active instance.
pub open spec fn admin_of(s: State) -> Address
    recommends
        is_init(s),
{
    s.admin.unwrap()
}

/// The configured asset, on an active instance.
pub open spec fn asset_of(s: State) -> Address
    recommends
        is_init(s),
{
    s.asset.unwrap()
}

/// The configured recipient, on an active instance.
pub open spec fn recipient_of(s: State) -> Address
    recommends
        is_init(s),
{
    s.recipient.unwrap()
}

/// The configured amount, on an active instance.
pub open spec fn amount_of(s: State) -> i128
    recommends
        is_init(s),
{
    s.amount.unwrap()
}

/// One transfer on the token service: move `amount` of `asset` from `from`
/// to `to`. It fails, leaving the ledger as it was, when the amount is
/// negative, when `from` holds less than `amount`, or when the credit would
/// overflow `to`'s balance; a transfer from an account to itself moves
/// nothing.
pub open spec fn transfer_step(
    l: Balances,
    asset: Address,
    from: Address,
    to: Address,
    amount: i128,
) -> (Balances, Result<(), Error>) {
    if amount < 0 {
        (l, Err(Error::TransferFailed))
    } else if bal(l, asset, from) < amount {
        (l, Err(Error::TransferFailed))
    } else if from == to {
        (l, Ok(()))
    } else if bal(l, asset, to) > i128::MAX - amount {
        (l, Err(Error::TransferFailed))
    } else {
        (
            l.insert((asset, from), (bal(l, asset, from) - amount) as i128).insert(
                (asset, to),
                (bal(l, asset, to) + amount) as i128,
            ),
            Ok(()),
        )
    }
}

/// `init`: the caller becomes the administrator and all five slots are
/// written, provided the caller's authorization is proven and the instance
/// is not yet active.
pub open spec fn init_step(
    s: State,
    caller: Address,
    authorized: bool,
    asset: Address,
    recipient: Address,
    amount: i128,
    receipt: Seq<char>,
) -> (State, Result<(), Error>) {
    if !authorized {
        (s, Err(Error::AuthorizationProofMissing))
    } else if is_init(s) {
        (s, Err(Error::AlreadyInitialized))
    } else {
        (
            State {
                addr: s.addr,
                admin: Some(caller),
                asset: Some(asset),
                recipient: Some(recipient),
                amount: Some(amount),
                receipt: Some(receipt),
            },
            Ok(()),
        )
    }
}

/// `update`: the current administrator — and nobody else — replaces the
/// payment terms as a unit. The administrator and the asset are never
/// touched.
pub open spec fn update_step(
    s: State,
    caller: Address,
    authorized: bool,
    recipient: Address,
    amount: i128,
    receipt: Seq<char>,
) -> (State, Result<(), Error>) {
    if !authorized {
        (s, Err(Error::AuthorizationProofMissing))
    } else if !is_init(s) {
        (s, Err(Error::NotInitialized))
    } else if admin_of(s) != caller {
        (s, Err(Error::NotAuthorizedAdmin))
    } else {
        (
            State {
                recipient: Some(recipient),
                amount: Some(amount),
                receipt: Some(receipt),
                ..s
            },
            Ok(()),
        )
    }
}

/// `pay`: any authorized party moves the configured amount of the
/// configured asset from itself into the contract's custody. The stored
/// terms are not consumed: the step does not touch the state at all.
pub open spec fn pay_step(s: State, l: Balances, payer: Address, authorized: bool) -> (
    Balances,
    Result<(), Error>,
) {
    if !authorized {
        (l, Err(Error::AuthorizationProofMissing))
    } else if !is_init(s) {
        (l, Err(Error::NotInitialized))
    } else {
        transfer_step(l, asset_of(s), payer, s.addr, amount_of(s))
    }
}

/// `withdraw`: an authorized caller moves the contract's whole custodial
/// balance of the configured asset to the configured recipient. Note the
/// deliberate asymmetry with `update`: the caller is never compared with
/// the stored administrator — only the authorization proof is demanded.
pub open spec fn withdraw_step(s: State, l: Balances, caller: Address, authorized: bool) -> (
    Balances,
    Result<(), Error>,
) {
    if !authorized {
        (l, Err(Error::AuthorizationProofMissing))
    } else if !is_init(s) {
        (l, Err(Error::NotInitialized))
    } else {
        transfer_step(l, asset_of(s), s.addr, recipient_of(s), bal(l, asset_of(s), s.addr))
    }
}

/// The `receipt` query: the stored receipt text, or `NotInitialized` while
/// the slot is absent.
pub open spec fn receipt_step(s: State) -> Result<Seq<char>, Error> {
    match s.receipt {
        Some(t) => Ok(t),
        None => Err(Error::NotInitialized),
    }
}

} // verus!
