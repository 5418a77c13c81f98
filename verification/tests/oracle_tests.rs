use faucet_contracts::address::Address;
use faucet_contracts::oracle::{OracleContract, OracleError, PriceData, DEFAULT_HEARTBEAT};

struct TestCtx {
    oracle: OracleContract,
    now: u64,
    admin: Address,
    signer: Address,
    stranger: Address,
}

fn addr(s: &str) -> Address {
    Address::new(s.to_string())
}

fn sym(s: &str) -> String {
    s.to_string()
}

/// Aborts the way the contract does for `e`.
fn abort_with<T>(e: OracleError) -> T {
    panic!("{}", format!("Error(Contract, #{})", e.code()))
}

impl TestCtx {
    fn new() -> Self {
        let mut oracle = OracleContract::new();
        let admin = addr("GADMIN");
        let signer = addr("GSIGNER");
        let stranger = addr("GSTRANGER");
        oracle.init(admin.clone(), 60).unwrap();
        oracle.add_signer(admin.clone(), signer.clone()).unwrap();
        TestCtx { oracle, now: 0, admin, signer, stranger }
    }

    fn update(&mut self, signer: &Address, asset: &str, price: i128) {
        let now = self.now;
        if let Err(e) = self.oracle.update_price(signer.clone(), sym(asset), price, now) {
            abort_with::<()>(e);
        }
    }

    fn price(&self, asset: &str) -> PriceData {
        match self.oracle.get_price(&sym(asset), self.now) {
            Ok(d) => d,
            Err(e) => abort_with(e),
        }
    }

    fn fresh(&self, asset: &str) -> bool {
        self.oracle.is_fresh(&sym(asset), self.now)
    }
}

#[test]
fn initialize_sets_heartbeat_and_empty_signers() {
    let mut oracle = OracleContract::new();
    let admin = addr("GADMIN");
    oracle.init(admin, 120).unwrap();
    assert_eq!(oracle.get_heartbeat(), 120);
    assert_eq!(oracle.get_signers().len(), 0);
}

#[test]
#[should_panic(expected = "Error(Contract, #2)")]
fn initialize_twice_panics() {
    let mut ctx = TestCtx::new();
    let admin = ctx.admin.clone();
    if let Err(e) = ctx.oracle.init(admin, 60) {
        abort_with::<()>(e);
    }
}

#[test]
fn authorized_signer_can_update_and_query_price() {
    let mut ctx = TestCtx::new();
    let signer = ctx.signer.clone();
    ctx.update(&signer, "BTC", 95_000_000_000);
    ctx.update(&signer, "ETH", 3_500_000_000);

    let btc_price = ctx.price("BTC");
    assert_eq!(btc_price.price, 95_000_000_000);
    assert_eq!(btc_price.timestamp, 0);

    let eth_price = ctx.price("ETH");
    assert_eq!(eth_price.price, 3_500_000_000);

    assert!(ctx.fresh("BTC"));
    assert!(ctx.fresh("ETH"));
}

#[test]
fn price_update_overwrites_previous_value() {
    let mut ctx = TestCtx::new();
    let signer = ctx.signer.clone();
    ctx.update(&signer, "BTC", 90_000);
    ctx.now = 10;
    ctx.update(&signer, "BTC", 91_500);

    let data = ctx.price("BTC");
    assert_eq!(data.price, 91_500);
    assert_eq!(data.timestamp, 10);
}

#[test]
#[should_panic(expected = "Error(Contract, #3)")]
fn non_signer_cannot_update_price() {
    let mut ctx = TestCtx::new();
    let stranger = ctx.stranger.clone();
    ctx.update(&stranger, "BTC", 1);
}

#[test]
#[should_panic(expected = "Error(Contract, #3)")]
fn non_admin_cannot_add_signer() {
    let mut ctx = TestCtx::new();
    let stranger = ctx.stranger.clone();
    if let Err(e) = ctx.oracle.add_signer(stranger.clone(), stranger) {
        abort_with::<()>(e);
    }
}

#[test]
fn remove_signer_revokes_update_rights() {
    let mut ctx = TestCtx::new();
    let signer = ctx.signer.clone();
    ctx.update(&signer, "BTC", 100);
    ctx.oracle.remove_signer(ctx.admin.clone(), signer.clone()).unwrap();

    let signers = ctx.oracle.get_signers();
    assert!(!signers.contains(&signer));

    let result = ctx.oracle.update_price(signer, sym("BTC"), 200, ctx.now);
    assert!(result.is_err());
}

#[test]
fn heartbeat_marks_stale_prices() {
    let mut ctx = TestCtx::new();
    let signer = ctx.signer.clone();
    ctx.update(&signer, "BTC", 50_000);
    assert!(ctx.fresh("BTC"));

    ctx.now = 61;
    assert!(!ctx.fresh("BTC"));

    let data = ctx.oracle.get_price_unsafe(&sym("BTC")).unwrap();
    assert_eq!(data.price, 50_000);
}

#[test]
#[should_panic(expected = "Error(Contract, #5)")]
fn get_price_panics_when_stale() {
    let mut ctx = TestCtx::new();
    let signer = ctx.signer.clone();
    ctx.update(&signer, "BTC", 50_000);
    ctx.now = 61;
    let _ = ctx.price("BTC");
}

#[test]
#[should_panic(expected = "Error(Contract, #4)")]
fn get_price_panics_when_missing() {
    let ctx = TestCtx::new();
    let _ = ctx.price("XLM");
}

#[test]
fn set_heartbeat_updates_freshness_window() {
    let mut ctx = TestCtx::new();
    let signer = ctx.signer.clone();
    ctx.update(&signer, "BTC", 1);
    ctx.oracle.set_heartbeat(ctx.admin.clone(), 30).unwrap();

    ctx.now = 31;
    assert!(!ctx.fresh("BTC"));

    ctx.oracle.set_heartbeat(ctx.admin.clone(), 100).unwrap();
    assert!(ctx.fresh("BTC"));
}

#[test]
fn multiple_signers_can_update_different_assets() {
    let mut ctx = TestCtx::new();
    let signer = ctx.signer.clone();
    let signer2 = addr("GSIGNER2");
    ctx.oracle.add_signer(ctx.admin.clone(), signer2.clone()).unwrap();

    ctx.update(&signer, "BTC", 100);
    ctx.update(&signer2, "ETH", 200);

    assert_eq!(ctx.price("BTC").price, 100);
    assert_eq!(ctx.price("ETH").price, 200);
    assert_eq!(ctx.oracle.get_signers().len(), 2);
}

// ── Further cases ───────────────────────────────────────────────────────────

#[test]
fn zero_heartbeat_selects_the_default_hour() {
    let mut oracle = OracleContract::new();
    oracle.init(addr("GADMIN"), 0).unwrap();
    assert_eq!(oracle.get_heartbeat(), DEFAULT_HEARTBEAT);
    assert_eq!(oracle.get_heartbeat(), 3_600);
    oracle.set_heartbeat(addr("GADMIN"), 0).unwrap();
    assert_eq!(oracle.get_heartbeat(), 3_600);
}

#[test]
fn uninitialized_oracle_refuses_admin_calls() {
    let mut oracle = OracleContract::new();
    assert_eq!(oracle.add_signer(addr("GA"), addr("GB")), Err(OracleError::NotInitialized));
    assert_eq!(oracle.set_heartbeat(addr("GA"), 5), Err(OracleError::NotInitialized));
    assert_eq!(oracle.remove_signer(addr("GA"), addr("GB")), Err(OracleError::NotInitialized));
    assert_eq!(oracle.get_heartbeat(), 3_600);
    assert!(oracle.get_signers().is_empty());
}

#[test]
fn duplicate_and_unknown_signers_are_refused() {
    let mut ctx = TestCtx::new();
    let admin = ctx.admin.clone();
    let signer = ctx.signer.clone();
    assert_eq!(ctx.oracle.add_signer(admin.clone(), signer.clone()), Err(OracleError::SignerAlreadyExists));
    assert_eq!(ctx.oracle.remove_signer(admin.clone(), addr("GNOBODY")), Err(OracleError::SignerNotFound));
    assert_eq!(ctx.oracle.get_signers().len(), 1);
}

#[test]
fn removing_a_signer_keeps_the_others_in_order() {
    let mut ctx = TestCtx::new();
    let admin = ctx.admin.clone();
    ctx.oracle.add_signer(admin.clone(), addr("GS2")).unwrap();
    ctx.oracle.add_signer(admin.clone(), addr("GS3")).unwrap();
    ctx.oracle.remove_signer(admin, addr("GS2")).unwrap();
    assert_eq!(ctx.oracle.get_signers(), vec![addr("GSIGNER"), addr("GS3")]);
}

#[test]
fn price_stamped_in_the_future_counts_as_fresh() {
    let mut ctx = TestCtx::new();
    let signer = ctx.signer.clone();
    ctx.now = 500;
    ctx.update(&signer, "BTC", 7);
    ctx.now = 100;
    assert!(ctx.fresh("BTC"));
    ctx.now = 560;
    assert!(ctx.fresh("BTC"));
    ctx.now = 561;
    assert!(!ctx.fresh("BTC"));
    assert_eq!(ctx.oracle.get_price(&sym("BTC"), 561), Err(OracleError::StalePrice));
}

#[test]
fn oracle_error_codes_match_the_contract() {
    let codes: Vec<u32> = [
        OracleError::NotInitialized,
        OracleError::AlreadyInitialized,
        OracleError::Unauthorized,
        OracleError::PriceNotFound,
        OracleError::StalePrice,
        OracleError::SignerAlreadyExists,
        OracleError::SignerNotFound,
    ]
    .iter()
    .map(|e| e.code())
    .collect();
    assert_eq!(codes, vec![1, 2, 3, 4, 5, 6, 7]);
}
