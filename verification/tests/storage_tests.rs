use faucet_contracts::address::Address;
use faucet_contracts::errors::Error;
use faucet_contracts::storage::{Storage, VaultEvent};
use faucet_contracts::types::{Allowance, Balance, VaultConfig};

fn addr(s: &str) -> Address {
    Address::new(s.to_string())
}

#[test]
fn entries_read_back_what_was_written() {
    let mut s = Storage::new();
    assert!(!s.is_initialized());
    assert_eq!(s.get_admin(), Err(Error::NotInitialized));
    assert_eq!(s.get_token(), Err(Error::NotInitialized));
    assert_eq!(s.get_config(), Err(Error::NotInitialized));

    s.set_initialized();
    s.set_admin(&addr("GADMIN"));
    s.set_token(&addr("CTOKEN"));
    let config = VaultConfig { paused: false, owner: addr("GADMIN"), token: addr("CTOKEN") };
    s.set_config(&config);

    assert!(s.is_initialized());
    assert_eq!(s.get_admin(), Ok(addr("GADMIN")));
    assert_eq!(s.get_token(), Ok(addr("CTOKEN")));
    assert_eq!(s.get_config(), Ok(config));
}

#[test]
fn pause_and_unpause() {
    let mut s = Storage::new();
    assert!(!s.is_paused());
    s.pause_vault();
    assert!(s.is_paused());
    s.unpause_vault();
    assert!(!s.is_paused());
}

#[test]
fn balances_default_to_zero_at_the_current_time() {
    let mut s = Storage::new();
    let user = addr("GUSER");
    assert_eq!(s.get_balance(&user, 42), Balance { amount: 0, last_updated: 42 });
    s.set_balance(&user, &Balance { amount: 7, last_updated: 5 });
    assert_eq!(s.get_balance(&user, 42), Balance { amount: 7, last_updated: 5 });
    assert_eq!(s.get_balance(&addr("GOTHER"), 43), Balance { amount: 0, last_updated: 43 });
}

#[test]
fn allowances_are_kept_per_owner_and_spender() {
    let mut s = Storage::new();
    let owner = addr("GOWNER");
    let spender = addr("GSPENDER");
    assert_eq!(s.get_allowance(&owner, &spender), Allowance { amount: 0, spender: spender.clone() });
    s.set_allowance(&owner, &spender, &Allowance { amount: 500, spender: spender.clone() });
    assert_eq!(s.get_allowance(&owner, &spender).amount, 500);
    assert_eq!(s.get_allowance(&spender, &owner).amount, 0);
    assert_eq!(s.get_allowance(&owner, &addr("GX")), Allowance { amount: 0, spender: addr("GX") });
}

#[test]
fn total_deposits_accumulate() {
    let mut s = Storage::new();
    assert_eq!(s.get_total_deposits(), 0);
    s.add_to_total_deposits(100);
    s.add_to_total_deposits(-30);
    assert_eq!(s.get_total_deposits(), 70);
}

#[test]
fn events_are_recorded_in_order() {
    let mut s = Storage::new();
    let user = addr("GUSER");
    let spender = addr("GSPENDER");
    s.emit_deposit_event(&user, 10);
    s.emit_withdraw_event(&user, 4);
    s.emit_approval_event(&user, &spender, 9);
    assert_eq!(
        s.events,
        vec![
            VaultEvent::Deposit { user: user.clone(), amount: 10 },
            VaultEvent::Withdraw { user: user.clone(), amount: 4 },
            VaultEvent::Approval { owner: user, spender, amount: 9 },
        ]
    );
}

#[test]
fn vault_error_codes() {
    assert_eq!(Error::NotInitialized.code(), 1);
    assert_eq!(Error::InvalidAmount.code(), 3);
    assert_eq!(Error::TransferFailed.code(), 9);
}
