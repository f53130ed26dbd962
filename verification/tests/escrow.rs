use escrow_pay::errors::Error;
use escrow_pay::escrow::Contract;
use escrow_pay::ledger::Ledger;
use escrow_pay::storage::{DataKey, Store, Value};
use escrow_pay::Address;

const CONTRACT: Address = Address { id: 1000 };
const ADMIN: Address = Address { id: 1 };
const ASSET: Address = Address { id: 2 };
const RECIPIENT: Address = Address { id: 3 };
const PAYER: Address = Address { id: 4 };

fn active_contract(amount: i128, receipt: &str) -> Contract {
    let mut c = Contract::new(CONTRACT);
    let r = c.init(ADMIN, true, ASSET, RECIPIENT, amount, String::from(receipt));
    assert_eq!(r, Ok(()));
    c
}

#[test]
fn concrete_scenario() {
    // init(A, asset=X, recipient=R, amount=100, receipt="INV-1"), then one
    // funded payer pays, the admin withdraws, and the receipt survives.
    let mut c = Contract::new(CONTRACT);
    let mut l = Ledger::new();
    assert_eq!(c.init(ADMIN, true, ASSET, RECIPIENT, 100, String::from("INV-1")), Ok(()));
    l.mint(ASSET, PAYER, 100);
    assert_eq!(c.pay(PAYER, true, &mut l), Ok(()));
    assert_eq!(c.balance(ASSET, &l), 100);
    assert_eq!(l.balance_of(ASSET, PAYER), 0);
    assert_eq!(c.withdraw(ADMIN, true, &mut l), Ok(()));
    assert_eq!(c.balance(ASSET, &l), 0);
    assert_eq!(l.balance_of(ASSET, RECIPIENT), 100);
    assert_eq!(c.receipt(), Ok(String::from("INV-1")));
}

#[test]
fn init_succeeds_at_most_once() {
    let mut c = active_contract(100, "INV-1");
    // A second init always fails AlreadyInitialized, whatever the arguments.
    let r = c.init(Address { id: 77 }, true, Address { id: 78 }, Address { id: 79 }, 5, String::from("other"));
    assert_eq!(r, Err(Error::AlreadyInitialized));
    // Even by the administrator with identical arguments.
    let r = c.init(ADMIN, true, ASSET, RECIPIENT, 100, String::from("INV-1"));
    assert_eq!(r, Err(Error::AlreadyInitialized));
    // The stored configuration is untouched.
    assert_eq!(c.receipt(), Ok(String::from("INV-1")));
}

#[test]
fn operations_fail_before_init() {
    let mut c = Contract::new(CONTRACT);
    let mut l = Ledger::new();
    assert_eq!(
        c.update(ADMIN, true, RECIPIENT, 5, String::from("x")),
        Err(Error::NotInitialized)
    );
    assert_eq!(c.pay(PAYER, true, &mut l), Err(Error::NotInitialized));
    assert_eq!(c.receipt(), Err(Error::NotInitialized));
    assert_eq!(c.withdraw(ADMIN, true, &mut l), Err(Error::NotInitialized));
}

#[test]
fn missing_authorization_proof_rejects_everything() {
    let mut fresh = Contract::new(CONTRACT);
    assert_eq!(
        fresh.init(ADMIN, false, ASSET, RECIPIENT, 100, String::from("INV-1")),
        Err(Error::AuthorizationProofMissing)
    );

    let mut c = active_contract(100, "INV-1");
    let mut l = Ledger::new();
    l.mint(ASSET, PAYER, 100);
    assert_eq!(
        c.update(ADMIN, false, RECIPIENT, 5, String::from("x")),
        Err(Error::AuthorizationProofMissing)
    );
    assert_eq!(c.pay(PAYER, false, &mut l), Err(Error::AuthorizationProofMissing));
    assert_eq!(c.withdraw(ADMIN, false, &mut l), Err(Error::AuthorizationProofMissing));
    // Nothing moved.
    assert_eq!(l.balance_of(ASSET, PAYER), 100);
    assert_eq!(c.balance(ASSET, &l), 0);
}

#[test]
fn update_by_non_admin_is_rejected() {
    let intruder = Address { id: 66 };
    let mut c = active_contract(100, "INV-1");
    let mut l = Ledger::new();
    l.mint(ASSET, PAYER, 100);
    let r = c.update(intruder, true, intruder, 1, String::from("stolen"));
    assert_eq!(r, Err(Error::NotAuthorizedAdmin));
    // The store remains exactly as after init: the receipt is the old one
    // and pay still moves the old amount.
    assert_eq!(c.receipt(), Ok(String::from("INV-1")));
    assert_eq!(c.pay(PAYER, true, &mut l), Ok(()));
    assert_eq!(c.balance(ASSET, &l), 100);
}

#[test]
fn update_replaces_terms_and_keeps_admin_and_asset() {
    let other_recipient = Address { id: 30 };
    let mut c = active_contract(100, "INV-1");
    let mut l = Ledger::new();
    l.mint(ASSET, PAYER, 100);
    assert_eq!(c.update(ADMIN, true, other_recipient, 25, String::from("INV-2")), Ok(()));
    assert_eq!(c.receipt(), Ok(String::from("INV-2")));
    // The asset is unchanged: pay still moves funds denominated in ASSET,
    // now 25 of them.
    assert_eq!(c.pay(PAYER, true, &mut l), Ok(()));
    assert_eq!(c.balance(ASSET, &l), 25);
    assert_eq!(l.balance_of(ASSET, PAYER), 75);
    // The administrator is unchanged: the same admin may update again,
    // and the new recipient receives the withdrawal.
    assert_eq!(c.update(ADMIN, true, other_recipient, 10, String::from("INV-3")), Ok(()));
    assert_eq!(c.withdraw(ADMIN, true, &mut l), Ok(()));
    assert_eq!(l.balance_of(ASSET, other_recipient), 25);
}

#[test]
fn pay_accumulates_across_payers() {
    let p1 = Address { id: 11 };
    let p2 = Address { id: 12 };
    let p3 = Address { id: 13 };
    let mut c = active_contract(100, "INV-1");
    let mut l = Ledger::new();
    l.mint(ASSET, p1, 100);
    l.mint(ASSET, p2, 150);
    l.mint(ASSET, p3, 100);
    assert_eq!(c.pay(p1, true, &mut l), Ok(()));
    assert_eq!(c.pay(p2, true, &mut l), Ok(()));
    assert_eq!(c.pay(p3, true, &mut l), Ok(()));
    // Total custody inflow is 3 x 100, and the terms were not consumed.
    assert_eq!(c.balance(ASSET, &l), 300);
    assert_eq!(l.balance_of(ASSET, p2), 50);
    assert_eq!(c.receipt(), Ok(String::from("INV-1")));
}

#[test]
fn pay_with_insufficient_funds_fails() {
    let mut c = active_contract(100, "INV-1");
    let mut l = Ledger::new();
    l.mint(ASSET, PAYER, 99);
    assert_eq!(c.pay(PAYER, true, &mut l), Err(Error::TransferFailed));
    // The failed transfer left the ledger untouched.
    assert_eq!(l.balance_of(ASSET, PAYER), 99);
    assert_eq!(c.balance(ASSET, &l), 0);
}

#[test]
fn pay_with_negative_amount_fails() {
    // The design never validates non-negativity of the configured amount;
    // a negative amount is simply rejected by the token service at pay.
    let mut c = active_contract(-5, "INV-1");
    let mut l = Ledger::new();
    l.mint(ASSET, PAYER, 100);
    assert_eq!(c.pay(PAYER, true, &mut l), Err(Error::TransferFailed));
    assert_eq!(l.balance_of(ASSET, PAYER), 100);
}

#[test]
fn withdraw_by_any_authorized_caller() {
    // The deliberate asymmetry with update: withdraw demands only an
    // authorization proof and never compares the caller with the stored
    // administrator, so a non-admin caller drains custody to the
    // configured recipient.
    let outsider = Address { id: 55 };
    let mut c = active_contract(100, "INV-1");
    let mut l = Ledger::new();
    l.mint(ASSET, PAYER, 100);
    assert_eq!(c.pay(PAYER, true, &mut l), Ok(()));
    assert_eq!(c.withdraw(outsider, true, &mut l), Ok(()));
    assert_eq!(c.balance(ASSET, &l), 0);
    assert_eq!(l.balance_of(ASSET, RECIPIENT), 100);
    assert_eq!(l.balance_of(ASSET, outsider), 0);
}

#[test]
fn withdraw_of_zero_balance_is_a_zero_transfer() {
    let mut c = active_contract(100, "INV-1");
    let mut l = Ledger::new();
    assert_eq!(c.withdraw(ADMIN, true, &mut l), Ok(()));
    assert_eq!(c.balance(ASSET, &l), 0);
    assert_eq!(l.balance_of(ASSET, RECIPIENT), 0);
}

#[test]
fn balance_is_a_generic_probe() {
    let other_asset = Address { id: 40 };
    let mut c = active_contract(100, "INV-1");
    let mut l = Ledger::new();
    l.mint(ASSET, PAYER, 100);
    l.mint(other_asset, CONTRACT, 7);
    assert_eq!(c.pay(PAYER, true, &mut l), Ok(()));
    // The probe accepts any asset reference, not only the configured one.
    assert_eq!(c.balance(ASSET, &l), 100);
    assert_eq!(c.balance(other_asset, &l), 7);
    assert_eq!(c.balance(Address { id: 41 }, &l), 0);
}

#[test]
fn mint_accumulates() {
    let mut l = Ledger::new();
    assert_eq!(l.balance_of(ASSET, PAYER), 0);
    l.mint(ASSET, PAYER, 60);
    l.mint(ASSET, PAYER, 40);
    assert_eq!(l.balance_of(ASSET, PAYER), 100);
    assert_eq!(l.balance_of(ASSET, ADMIN), 0);
}

#[test]
fn transfer_moves_funds_between_accounts() {
    let mut l = Ledger::new();
    l.mint(ASSET, PAYER, 100);
    assert_eq!(l.transfer(ASSET, PAYER, RECIPIENT, 30), Ok(()));
    assert_eq!(l.balance_of(ASSET, PAYER), 70);
    assert_eq!(l.balance_of(ASSET, RECIPIENT), 30);
    // A self-transfer moves nothing but still demands a sufficient balance.
    assert_eq!(l.transfer(ASSET, PAYER, PAYER, 70), Ok(()));
    assert_eq!(l.balance_of(ASSET, PAYER), 70);
    assert_eq!(l.transfer(ASSET, PAYER, PAYER, 71), Err(Error::TransferFailed));
    assert_eq!(l.transfer(ASSET, PAYER, RECIPIENT, -1), Err(Error::TransferFailed));
}

#[test]
fn store_get_set_has() {
    let mut s = Store::new();
    assert!(!s.has(DataKey::Admin));
    assert!(matches!(s.get(DataKey::Receipt), Err(Error::NotInitialized)));
    s.set(DataKey::Amount, Value::Int(42));
    s.set(DataKey::Admin, Value::Addr(ADMIN));
    assert!(s.has(DataKey::Amount));
    assert!(s.has(DataKey::Admin));
    assert!(!s.has(DataKey::Asset));
    match s.get(DataKey::Amount) {
        Ok(Value::Int(n)) => assert_eq!(*n, 42),
        _ => panic!("amount slot should hold the integer that was set"),
    }
    // set unconditionally overwrites.
    s.set(DataKey::Amount, Value::Int(7));
    match s.get(DataKey::Amount) {
        Ok(Value::Int(n)) => assert_eq!(*n, 7),
        _ => panic!("amount slot should hold the overwritten integer"),
    }
}

#[test]
fn is_initialized_tracks_init() {
    let mut c = Contract::new(CONTRACT);
    assert!(!c.is_initialized());
    assert_eq!(c.init(ADMIN, true, ASSET, RECIPIENT, 100, String::from("INV-1")), Ok(()));
    assert!(c.is_initialized());
}

#[test]
fn error_messages() {
    assert_eq!(Error::NotInitialized.message(), "Contract not initialized!");
    assert_eq!(Error::AlreadyInitialized.message(), "Contract already initialized!");
    assert_eq!(Error::NotAuthorizedAdmin.message(), "Not the current admin!");
    assert_eq!(Error::AuthorizationProofMissing.message(), "Authorization proof missing!");
    assert_eq!(Error::TransferFailed.message(), "Transfer failed!");
}
