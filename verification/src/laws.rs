//! The general laws of the escrow state machine, proved once and for all
//! over the step functions of [`crate::model`]. The executable operations
//! are each proved to follow those step functions exactly, so every law
//! here holds of the running code as well.

use vstd::prelude::*;

use crate::errors::Error;
use crate::model::{
    amount_of, asset_of, bal, init_step, is_init, pay_step, receipt_step, recipient_of,
    update_step, wf, withdraw_step, Balances, State,
};
use crate::Address;

verus! {

/// `init` succeeds at most once per instance. It succeeds exactly on an
/// authorized call to an instance that is not yet active, success makes
/// the instance active, and an authorized `init` on an active instance
/// always fails `AlreadyInitialized` — whatever its arguments — and
/// changes nothing. Since no other operation can clear the administrator
/// slot (`update` keeps it, see [`lemma_update_never_touches_admin_or_asset`],
/// and `pay`/`withdraw` do not touch the state at all), a second success is
/// impossible in any sequence of calls.
pub proof fn lemma_init_at_most_once(
    s: State,
    caller: Address,
    authorized: bool,
    asset: Address,
    recipient: Address,
    amount: i128,
    receipt: Seq<char>,
)
    ensures
        init_step(s, caller, authorized, asset, recipient, amount, receipt).1 == Ok::<(), Error>(())
            <==> (authorized && !is_init(s)),
        is_init(init_step(s, caller, authorized, asset, recipient, amount, receipt).0) == (
        is_init(s) || authorized),
        authorized && is_init(s) ==> init_step(s, caller, authorized, asset, recipient, amount, receipt)
            == (s, Err::<(), Error>(Error::AlreadyInitialized)),
{
}

/// Before any successful `init`, the operations that need stored fields —
/// `update`, `pay`, `receipt`, `withdraw` — all fail `NotInitialized` and
/// change nothing, even for authorized callers.
pub proof fn lemma_pre_init_guard(
    s: State,
    l: Balances,
    caller: Address,
    payer: Address,
    recipient: Address,
    amount: i128,
    receipt: Seq<char>,
)
    requires
        wf(s),
        !is_init(s),
    ensures
        update_step(s, caller, true, recipient, amount, receipt) == (
            s,
            Err::<(), Error>(Error::NotInitialized),
        ),
        pay_step(s, l, payer, true) == (l, Err::<(), Error>(Error::NotInitialized)),
        withdraw_step(s, l, caller, true) == (l, Err::<(), Error>(Error::NotInitialized)),
        receipt_step(s) == Err::<Seq<char>, Error>(Error::NotInitialized),
{
}

/// After `init` made `a` the administrator, an `update` by any other
/// caller — however well authorized — fails `NotAuthorizedAdmin` and
/// leaves the state, recipient, amount and receipt included, exactly as
/// `init` wrote it.
pub proof fn lemma_admin_immutable_under_update(
    s: State,
    a: Address,
    asset: Address,
    recipient0: Address,
    amount0: i128,
    receipt0: Seq<char>,
    caller: Address,
    recipient: Address,
    amount: i128,
    receipt: Seq<char>,
)
    requires
        !is_init(s),
        caller != a,
    ensures
        ({
            let s1 = init_step(s, a, true, asset, recipient0, amount0, receipt0).0;
            update_step(s1, caller, true, recipient, amount, receipt) == (
                s1,
                Err::<(), Error>(Error::NotAuthorizedAdmin),
            )
        }),
{
}

/// `update` never alters the administrator, the asset, or the contract's
/// own address — for any call whatever, successful or not.
pub proof fn lemma_update_never_touches_admin_or_asset(
    s: State,
    caller: Address,
    authorized: bool,
    recipient: Address,
    amount: i128,
    receipt: Seq<char>,
)
    ensures
        update_step(s, caller, authorized, recipient, amount, receipt).0.admin == s.admin,
        update_step(s, caller, authorized, recipient, amount, receipt).0.asset == s.asset,
        update_step(s, caller, authorized, recipient, amount, receipt).0.addr == s.addr,
{
}

/// One successful `pay` moves exactly the configured amount from the payer
/// into custody and touches no other account; the stored terms are not
/// consumed — `pay` does not touch the state at all, as its step function
/// returns only a ledger.
pub proof fn lemma_pay_moves_exactly_amount(s: State, l: Balances, payer: Address)
    requires
        wf(s),
        is_init(s),
        payer != s.addr,
        amount_of(s) >= 0,
        bal(l, asset_of(s), payer) >= amount_of(s),
        bal(l, asset_of(s), s.addr) + amount_of(s) <= i128::MAX,
    ensures
        pay_step(s, l, payer, true).1 == Ok::<(), Error>(()),
        bal(pay_step(s, l, payer, true).0, asset_of(s), s.addr) == bal(l, asset_of(s), s.addr)
            + amount_of(s),
        bal(pay_step(s, l, payer, true).0, asset_of(s), payer) == bal(l, asset_of(s), payer)
            - amount_of(s),
        forall|a2: Address, h2: Address|
            a2 != asset_of(s) || (h2 != payer && h2 != s.addr) ==> bal(
                pay_step(s, l, payer, true).0,
                a2,
                h2,
            ) == bal(l, a2, h2),
{
}

/// The ledger after a sequence of `pay` calls, one per element of
/// `payers`, each with its authorization proven.
pub open spec fn pay_seq(s: State, l: Balances, payers: Seq<Address>) -> Balances
    decreases payers.len(),
{
    if payers.len() == 0 {
        l
    } else {
        pay_seq(s, pay_step(s, l, payers[0], true).0, payers.drop_first())
    }
}

/// Whether every `pay` in such a sequence succeeds.
pub open spec fn pay_seq_all_ok(s: State, l: Balances, payers: Seq<Address>) -> bool
    decreases payers.len(),
{
    payers.len() == 0 || (pay_step(s, l, payers[0], true).1 == Ok::<(), Error>(())
        && pay_seq_all_ok(s, pay_step(s, l, payers[0], true).0, payers.drop_first()))
}

/// `pay` accumulates and does not consume the terms: N distinct authorized
/// payers, none of them the contract itself and each holding at least the
/// configured amount, each transfer the full amount, and the custody
/// inflow is exactly N times that amount. The stored terms never change:
/// `pay`'s step function does not produce a state at all.
pub proof fn lemma_pay_accumulates(s: State, l: Balances, payers: Seq<Address>)
    requires
        wf(s),
        is_init(s),
        amount_of(s) >= 0,
        forall|i: int| 0 <= i < payers.len() ==> payers[i] != s.addr,
        forall|i: int, j: int| 0 <= i < j < payers.len() ==> payers[i] != payers[j],
        forall|i: int| 0 <= i < payers.len() ==> bal(l, asset_of(s), payers[i]) >= amount_of(s),
        bal(l, asset_of(s), s.addr) + payers.len() * amount_of(s) <= i128::MAX,
    ensures
        pay_seq_all_ok(s, l, payers),
        bal(pay_seq(s, l, payers), asset_of(s), s.addr) == bal(l, asset_of(s), s.addr)
            + payers.len() * amount_of(s),
    decreases payers.len(),
{
    if payers.len() > 0 {
        let a = asset_of(s);
        let am = amount_of(s);
        let p0 = payers[0];
        let n = payers.len() as int;
        assert(n * am == am + (n - 1) * am && (n - 1) * am >= 0) by (nonlinear_arith)
            requires
                n >= 1,
                am >= 0,
        ;
        let l1 = pay_step(s, l, p0, true).0;
        let rest = payers.drop_first();
        assert(forall|i: int| 0 <= i < n - 1 ==> rest[i] == payers[i + 1]);
        assert(bal(l1, a, s.addr) == bal(l, a, s.addr) + am);
        assert(forall|i: int| 0 <= i < rest.len() ==> bal(l1, a, rest[i]) >= am);
        lemma_pay_accumulates(s, l1, rest);
    }
}

/// `withdraw` drains exactly the observed balance: whatever the contract's
/// custodial balance B of the configured asset is at the moment an
/// authorized caller — any authorized caller, by the deliberate asymmetry
/// with `update` — invokes it, exactly B moves to the recipient and the
/// custodial balance afterwards is zero.
pub proof fn lemma_withdraw_drains_balance(s: State, l: Balances, caller: Address)
    requires
        wf(s),
        is_init(s),
        recipient_of(s) != s.addr,
        bal(l, asset_of(s), s.addr) >= 0,
        bal(l, asset_of(s), recipient_of(s)) + bal(l, asset_of(s), s.addr) <= i128::MAX,
    ensures
        withdraw_step(s, l, caller, true).1 == Ok::<(), Error>(()),
        bal(withdraw_step(s, l, caller, true).0, asset_of(s), s.addr) == 0,
        bal(withdraw_step(s, l, caller, true).0, asset_of(s), recipient_of(s)) == bal(
            l,
            asset_of(s),
            recipient_of(s),
        ) + bal(l, asset_of(s), s.addr),
{
}

} // verus!
