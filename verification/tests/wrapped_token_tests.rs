use std::collections::HashMap;

use faucet_contracts::address::Address;
use faucet_contracts::transfer::TokenTransfer;
use faucet_contracts::wrapped_token::{WrapError, WrapperContract};

fn addr(s: &str) -> Address {
    Address::new(s.to_string())
}

/// The underlying asset: balances of a plain token, moved by the transfers
/// that the wrapper asks for.
struct Underlying {
    id: Address,
    balances: HashMap<String, i128>,
}

impl Underlying {
    fn balance(&self, a: &Address) -> i128 {
        *self.balances.get(&a.strkey()).unwrap_or(&0)
    }

    fn mint(&mut self, to: &Address, amount: i128) {
        *self.balances.entry(to.strkey()).or_insert(0) += amount;
    }

    fn transfer(&mut self, from: &Address, to: &Address, amount: i128) {
        let have = self.balance(from);
        assert!(have >= amount, "underlying balance is not sufficient");
        self.balances.insert(from.strkey(), have - amount);
        self.mint(to, amount);
    }
}

struct Env {
    wrapper: WrapperContract,
    address: Address,
    underlying: Underlying,
}

impl Env {
    fn carry_out(&mut self, t: TokenTransfer) {
        match t {
            TokenTransfer::IntoContract { token, from, amount } => {
                assert_eq!(token, self.underlying.id);
                let to = self.address.clone();
                self.underlying.transfer(&from, &to, amount);
            }
            TokenTransfer::OutOfContract { token, to, amount } => {
                assert_eq!(token, self.underlying.id);
                let from = self.address.clone();
                self.underlying.transfer(&from, &to, amount);
            }
        }
    }

    fn wrap(&mut self, caller: &Address, amount: i128) -> i128 {
        let (bal, t) = self.wrapper.wrap(caller.clone(), amount).map_err(|e| e.message()).unwrap();
        self.carry_out(t);
        bal
    }

    fn unwrap(&mut self, caller: &Address, amount: i128) -> i128 {
        let (bal, t) = self.wrapper.unwrap(caller.clone(), amount).map_err(|e| e.message()).unwrap();
        self.carry_out(t);
        bal
    }

    fn mint(&mut self, admin: &Address, recipient: &Address, amount: i128) {
        self.wrapper
            .mint(admin.clone(), recipient.clone(), amount)
            .map_err(|e| e.message())
            .unwrap();
    }

    fn burn(&mut self, caller: &Address, amount: i128) {
        self.wrapper.burn(caller.clone(), amount).map_err(|e| e.message()).unwrap();
    }
}

/// A fresh wrapper over a fresh underlying asset; the user holds 1_000
/// underlying tokens. Returns (env, asset_admin, admin, user).
fn setup() -> (Env, Address, Address, Address) {
    let asset_admin = addr("GASSETADMIN");
    let underlying = Underlying { id: addr("CUNDERLYING"), balances: HashMap::new() };
    let mut env = Env { wrapper: WrapperContract::new(), address: addr("CWRAPPER"), underlying };
    let admin = addr("GADMIN");
    let user = addr("GUSER");
    env.wrapper
        .initialize(
            admin.clone(),
            env.underlying.id.clone(),
            "Wrapped USDC".to_string(),
            "wUSDC".to_string(),
            7,
        )
        .unwrap();
    env.underlying.mint(&user, 1_000);
    (env, asset_admin, admin, user)
}

#[test]
fn test_wrap_moves_underlying_and_credits_wrapped() {
    let (mut env, _asset_admin, _admin, user) = setup();

    let new_balance = env.wrap(&user, 500);

    assert_eq!(new_balance, 500, "wrapped balance should be 500 after wrapping");
    assert_eq!(env.underlying.balance(&user), 500, "underlying balance should decrease by 500");
    assert_eq!(
        env.underlying.balance(&env.address),
        500,
        "contract should hold the deposited underlying"
    );
    assert_eq!(env.wrapper.total_supply(), 500);
}

#[test]
fn test_wrap_full_amount() {
    let (mut env, _asset_admin, _admin, user) = setup();

    env.wrap(&user, 1_000);

    assert_eq!(env.wrapper.balance(&user), 1_000);
    assert_eq!(env.underlying.balance(&user), 0);
    assert_eq!(env.wrapper.total_supply(), 1_000);
}

#[test]
#[should_panic(expected = "amount must be positive")]
fn test_wrap_zero_amount_panics() {
    let (mut env, _asset_admin, _admin, user) = setup();
    env.wrap(&user, 0);
}

#[test]
fn test_unwrap_returns_underlying_and_burns_wrapped() {
    let (mut env, _asset_admin, _admin, user) = setup();

    env.wrap(&user, 800);
    let new_balance = env.unwrap(&user, 400);

    assert_eq!(new_balance, 400, "wrapped balance should be 400 after unwrapping 400");
    assert_eq!(
        env.underlying.balance(&user),
        600,
        "user should have original 200 + 400 returned = 600"
    );
    assert_eq!(env.wrapper.total_supply(), 400);
}

#[test]
#[should_panic(expected = "insufficient wrapped token balance")]
fn test_unwrap_more_than_balance_panics() {
    let (mut env, _asset_admin, _admin, user) = setup();

    env.wrap(&user, 100);
    env.unwrap(&user, 200);
}

#[test]
#[should_panic(expected = "amount must be positive")]
fn test_unwrap_zero_amount_panics() {
    let (mut env, _asset_admin, _admin, user) = setup();
    env.unwrap(&user, 0);
}

#[test]
fn test_wrap_unwrap_roundtrip_restores_balance() {
    let (mut env, _asset_admin, _admin, user) = setup();

    let initial = env.underlying.balance(&user);
    env.wrap(&user, 1_000);
    env.unwrap(&user, 1_000);

    assert_eq!(env.underlying.balance(&user), initial, "full round-trip should restore underlying");
    assert_eq!(env.wrapper.balance(&user), 0, "wrapped balance should be zero after round-trip");
    assert_eq!(env.wrapper.total_supply(), 0);
}

#[test]
fn test_wrap_unwrap_partial_roundtrip() {
    let (mut env, _asset_admin, _admin, user) = setup();

    env.wrap(&user, 600);
    env.unwrap(&user, 250);

    assert_eq!(env.wrapper.balance(&user), 350);
    assert_eq!(env.underlying.balance(&user), 650);
    assert_eq!(env.wrapper.total_supply(), 350);
}

#[test]
fn test_mint_credits_recipient_without_deposit() {
    let (mut env, _asset_admin, admin, user) = setup();

    env.mint(&admin, &user, 250);

    assert_eq!(env.wrapper.balance(&user), 250);
    assert_eq!(env.wrapper.total_supply(), 250);
}

#[test]
#[should_panic(expected = "caller is not admin")]
fn test_mint_non_admin_panics() {
    let (mut env, _asset_admin, _admin, user) = setup();
    env.mint(&user, &user, 100);
}

#[test]
#[should_panic(expected = "amount must be positive")]
fn test_mint_zero_amount_panics() {
    let (mut env, _asset_admin, admin, user) = setup();
    env.mint(&admin, &user, 0);
}

#[test]
fn test_burn_destroys_wrapped_tokens() {
    let (mut env, _asset_admin, admin, user) = setup();

    env.mint(&admin, &user, 500);
    env.burn(&user, 200);

    assert_eq!(env.wrapper.balance(&user), 300);
    assert_eq!(env.wrapper.total_supply(), 300);
}

#[test]
fn test_burn_full_balance() {
    let (mut env, _asset_admin, admin, user) = setup();

    env.mint(&admin, &user, 300);
    env.burn(&user, 300);

    assert_eq!(env.wrapper.balance(&user), 0);
    assert_eq!(env.wrapper.total_supply(), 0);
}

#[test]
#[should_panic(expected = "insufficient wrapped token balance")]
fn test_burn_more_than_balance_panics() {
    let (mut env, _asset_admin, admin, user) = setup();

    env.mint(&admin, &user, 100);
    env.burn(&user, 200);
}

#[test]
#[should_panic(expected = "amount must be positive")]
fn test_burn_zero_amount_panics() {
    let (mut env, _asset_admin, _admin, user) = setup();
    env.burn(&user, 0);
}

#[test]
fn test_metadata_queries_return_initialized_values() {
    let (env, _asset_admin, _admin, _user) = setup();

    assert_eq!(env.wrapper.name(), Ok("Wrapped USDC".to_string()));
    assert_eq!(env.wrapper.symbol(), Ok("wUSDC".to_string()));
    assert_eq!(env.wrapper.decimals(), Ok(7_u32));
}

#[test]
#[should_panic(expected = "already initialized")]
fn test_double_initialize_panics() {
    let (mut env, _asset_admin, admin, _user) = setup();
    let underlying_id = env.wrapper.underlying().unwrap();
    env.wrapper
        .initialize(admin, underlying_id, "X".to_string(), "X".to_string(), 7)
        .map_err(|e| e.message())
        .unwrap();
}

#[test]
fn test_total_supply_tracks_across_multiple_users() {
    let (mut env, _asset_admin, admin, user1) = setup();

    let user2 = addr("GUSER2");
    env.underlying.mint(&user2, 500);

    env.wrap(&user1, 300);
    env.wrap(&user2, 200);
    env.mint(&admin, &user2, 100);

    assert_eq!(env.wrapper.total_supply(), 600);

    env.burn(&user1, 100);
    assert_eq!(env.wrapper.total_supply(), 500);

    env.unwrap(&user2, 150);
    assert_eq!(env.wrapper.total_supply(), 350);
}

// ── Further cases ───────────────────────────────────────────────────────────

#[test]
fn wrap_asks_for_a_deposit_of_the_wrapped_amount() {
    let (mut env, _asset_admin, _admin, user) = setup();
    let (bal, t) = env.wrapper.wrap(user.clone(), 40).unwrap();
    assert_eq!(bal, 40);
    assert_eq!(
        t,
        TokenTransfer::IntoContract { token: addr("CUNDERLYING"), from: user.clone(), amount: 40 }
    );
    let (bal, t) = env.wrapper.unwrap(user.clone(), 15).unwrap();
    assert_eq!(bal, 25);
    assert_eq!(t, TokenTransfer::OutOfContract { token: addr("CUNDERLYING"), to: user, amount: 15 });
}

#[test]
fn calls_before_initialization_are_refused() {
    let mut w = WrapperContract::new();
    let user = addr("GUSER");
    assert_eq!(w.wrap(user.clone(), 10), Err(WrapError::NotInitialized));
    assert_eq!(w.mint(user.clone(), user.clone(), 10), Err(WrapError::NotInitialized));
    assert_eq!(w.unwrap(user.clone(), 10), Err(WrapError::InsufficientBalance));
    assert_eq!(w.burn(user.clone(), 10), Err(WrapError::InsufficientBalance));
    assert_eq!(w.name(), Err(WrapError::NotInitialized));
    assert_eq!(w.symbol(), Err(WrapError::NotInitialized));
    assert_eq!(w.decimals(), Err(WrapError::NotInitialized));
    assert_eq!(w.underlying(), Err(WrapError::NotInitialized));
    assert_eq!(w.total_supply(), 0);
    assert_eq!(w.balance(&user), 0);
}

#[test]
fn refused_calls_leave_balances_unchanged() {
    let (mut env, _asset_admin, admin, user) = setup();
    env.mint(&admin, &user, 50);
    assert_eq!(env.wrapper.wrap(user.clone(), -5), Err(WrapError::AmountNotPositive));
    assert_eq!(env.wrapper.unwrap(user.clone(), 51), Err(WrapError::InsufficientBalance));
    assert_eq!(env.wrapper.burn(user.clone(), 51), Err(WrapError::InsufficientBalance));
    assert_eq!(env.wrapper.mint(user.clone(), user.clone(), 5), Err(WrapError::NotAdmin));
    assert_eq!(env.wrapper.balance(&user), 50);
    assert_eq!(env.wrapper.total_supply(), 50);
}

#[test]
fn wrap_error_messages_match_the_contract() {
    assert_eq!(WrapError::AlreadyInitialized.message(), "already initialized");
    assert_eq!(WrapError::AmountNotPositive.message(), "amount must be positive");
    assert_eq!(WrapError::InsufficientBalance.message(), "insufficient wrapped token balance");
    assert_eq!(WrapError::NotAdmin.message(), "caller is not admin");
    assert_eq!(WrapError::NotInitialized.message(), "not initialized");
}

#[test]
fn supply_equals_the_sum_of_balances() {
    let (mut env, _asset_admin, admin, user1) = setup();
    let user2 = addr("GUSER2");
    let user3 = addr("GUSER3");
    env.underlying.mint(&user2, 400);
    env.wrap(&user1, 250);
    env.wrap(&user2, 400);
    env.mint(&admin, &user3, 75);
    env.unwrap(&user2, 130);
    env.burn(&user1, 50);
    let sum = env.wrapper.balance(&user1) + env.wrapper.balance(&user2) + env.wrapper.balance(&user3);
    assert_eq!(sum, 545);
    assert_eq!(env.wrapper.total_supply(), sum);
    assert_eq!(env.underlying.balance(&env.address), 520);
}
