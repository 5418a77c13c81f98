use faucet_contracts::address::Address;
use faucet_contracts::faucet::{FaucetContract, FaucetError};
use faucet_contracts::transfer::TokenTransfer;

fn addr(s: &str) -> Address {
    Address::new(s.to_string())
}

fn claim(faucet: &mut FaucetContract, user: &Address, amount: i128, now: u64) -> TokenTransfer {
    faucet.claim(user.clone(), amount, now).map_err(|e| e.message()).unwrap()
}

fn initialized(claim_limit: i128, cooldown: u64) -> FaucetContract {
    let mut faucet = FaucetContract::new();
    faucet.initialize(addr("GADMIN"), addr("CTOKEN"), claim_limit, cooldown).unwrap();
    faucet
}

#[test]
fn test_claim() {
    let mut faucet = initialized(100, 60);
    let user = addr("GUSER");

    let t = claim(&mut faucet, &user, 50, 100);
    assert_eq!(t, TokenTransfer::OutOfContract { token: addr("CTOKEN"), to: user, amount: 50 });
}

#[test]
fn test_limit_enforcement() {
    let mut faucet = initialized(100, 60);
    let r = faucet.claim(addr("GUSER"), 150, 0);
    assert_eq!(r.map_err(|e| e.message()), Err("claim amount exceeds limit"));
}

#[test]
fn test_cooldown_check() {
    let mut faucet = initialized(100, 60);
    let user = addr("GUSER");
    claim(&mut faucet, &user, 50, 100);
    let r = faucet.claim(user.clone(), 50, 100);
    assert_eq!(r.map_err(|e| e.message()), Err("cooldown period has not expired"));
}

#[test]
fn claims_resume_once_the_cooldown_has_passed() {
    let mut faucet = initialized(100, 60);
    let user = addr("GUSER");
    claim(&mut faucet, &user, 50, 100);
    assert_eq!(faucet.claim(user.clone(), 50, 159), Err(FaucetError::CooldownNotExpired));
    claim(&mut faucet, &user, 100, 160);
    assert_eq!(faucet.claim(user.clone(), 1, 219), Err(FaucetError::CooldownNotExpired));
    let other = addr("GOTHER");
    claim(&mut faucet, &other, 1, 161);
}

#[test]
fn first_claim_is_not_held_by_the_cooldown() {
    let mut faucet = initialized(100, 60);
    claim(&mut faucet, &addr("GUSER"), 10, 59);
    assert_eq!(faucet.claim(addr("GUSER"), 10, 118), Err(FaucetError::CooldownNotExpired));
    claim(&mut faucet, &addr("GUSER"), 10, 119);
}

#[test]
fn faucet_refuses_before_initialization_and_after_it_twice() {
    let mut faucet = FaucetContract::new();
    assert_eq!(faucet.claim(addr("GUSER"), 1, 1_000), Err(FaucetError::NotInitialized));
    faucet.initialize(addr("GADMIN"), addr("CTOKEN"), 10, 0).unwrap();
    assert_eq!(
        faucet.initialize(addr("GADMIN"), addr("CTOKEN"), 10, 0),
        Err(FaucetError::AlreadyInitialized)
    );
    assert_eq!(FaucetError::AlreadyInitialized.message(), "already initialized");
    claim(&mut faucet, &addr("GUSER"), 10, 0);
    claim(&mut faucet, &addr("GUSER"), 10, 0);
}
