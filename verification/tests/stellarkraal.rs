//! Tests of the lending pool.

use carbon_ledger::host::{Address, AddressKind, BytesN, Env, Symbol};
use carbon_ledger::stellarkraal::{accrue, median3, Error, StellarKraal, LEDGERS_PER_YEAR};

fn address(n: u8) -> Address {
    Address { kind: AddressKind::Account, id: BytesN::from_array([n; 32]) }
}

fn make_env() -> Env {
    Env { sequence: 0, authorized: (0..=255).map(address).collect() }
}

fn symbol(text: &str) -> Symbol {
    Symbol::new(text.as_bytes()).unwrap()
}

fn init(env: &Env, pool: &mut StellarKraal) -> (Address, Address, Address, Address) {
    let admin = address(1);
    let o1 = address(2);
    let o2 = address(3);
    let o3 = address(4);
    pool.initialize(env, admin, o1, o2, o3, 7_000, 8_500, 500, 1_000, 0, 100).unwrap();
    (admin, o1, o2, o3)
}

fn push_prices(
    env: &Env,
    pool: &mut StellarKraal,
    o1: Address,
    o2: Address,
    o3: Address,
    price: i128,
) {
    pool.submit_price(env, o1, price).unwrap();
    pool.submit_price(env, o2, price).unwrap();
    pool.submit_price(env, o3, price).unwrap();
}

#[test]
fn stellarkraal_test_initialize_twice_fails() {
    let env = make_env();
    let mut pool = StellarKraal::new();
    let (admin, o1, o2, o3) = init(&env, &mut pool);
    let res = pool.initialize(&env, admin, o1, o2, o3, 7_000, 8_500, 500, 1_000, 0, 100);
    assert_eq!(res, Err(Error::AlreadyInitialized));
}

#[test]
fn test_ltv_boundary_exact_allowed() {
    let env = make_env();
    let mut pool = StellarKraal::new();
    let _ = init(&env, &mut pool);
    let owner = address(10);
    let asset_id =
        pool.register_asset(&env, owner, symbol("CATTLE"), symbol("T1"), 1_000_000).unwrap();
    let loan_id = pool.open_loan(&env, owner, asset_id, 700_000).unwrap();
    let loan = pool.get_loan(loan_id).unwrap();
    assert_eq!(loan.principal, 700_000);
}

#[test]
fn test_ltv_boundary_over_fails() {
    let env = make_env();
    let mut pool = StellarKraal::new();
    let _ = init(&env, &mut pool);
    let owner = address(10);
    let asset_id =
        pool.register_asset(&env, owner, symbol("CATTLE"), symbol("T2"), 1_000_000).unwrap();
    let res = pool.open_loan(&env, owner, asset_id, 700_001);
    assert_eq!(res, Err(Error::PrincipalExceedsLtv));
}

#[test]
fn test_health_factor_safe() {
    let env = make_env();
    let mut pool = StellarKraal::new();
    let _ = init(&env, &mut pool);
    let owner = address(10);
    // (1_000_000 * 8500 * 100) / (500_000 * 10_000) = 170
    let asset_id =
        pool.register_asset(&env, owner, symbol("CATTLE"), symbol("T3"), 1_000_000).unwrap();
    let loan_id = pool.open_loan(&env, owner, asset_id, 500_000).unwrap();
    let hf = pool.health_factor(loan_id).unwrap();
    assert_eq!(hf, 170);
}

#[test]
fn test_liquidation_safe_loan_fails() {
    let env = make_env();
    let mut pool = StellarKraal::new();
    let _ = init(&env, &mut pool);
    let owner = address(10);
    let asset_id =
        pool.register_asset(&env, owner, symbol("CATTLE"), symbol("T4"), 1_000_000).unwrap();
    let loan_id = pool.open_loan(&env, owner, asset_id, 500_000).unwrap();
    let liquidator = address(11);
    let res = pool.liquidate(&env, liquidator, loan_id);
    assert_eq!(res, Err(Error::HealthFactorSafe));
}

#[test]
fn test_liquidation_boundary() {
    let env = make_env();
    let mut pool = StellarKraal::new();
    // At 90% of the value, the health factor is 8500 * 100 / 9000 = 94.
    pool.initialize(
        &env,
        address(1),
        address(2),
        address(3),
        address(4),
        9_000,
        8_500,
        500,
        1_000,
        0,
        100,
    )
    .unwrap();

    let owner = address(10);
    let asset_id =
        pool.register_asset(&env, owner, symbol("CATTLE"), symbol("T5"), 1_000_000).unwrap();
    let loan_id = pool.open_loan(&env, owner, asset_id, 900_000).unwrap();
    let hf = pool.health_factor(loan_id).unwrap();
    assert!(hf < 120, "expected HF < 120 but got {hf}");

    let liquidator = address(11);
    let seized = pool.liquidate(&env, liquidator, loan_id).unwrap();
    // 900_000 * 10_500 / 10_000 = 945_000
    assert_eq!(seized, 945_000);
}

#[test]
fn test_oracle_staleness_rejected() {
    let mut env = make_env();
    let mut pool = StellarKraal::new();
    let (_, o1, o2, o3) = init(&env, &mut pool);
    push_prices(&env, &mut pool, o1, o2, o3, 100_000);
    env.sequence = 200;
    let res = pool.get_price(&env);
    assert_eq!(res, Err(Error::StalePrices));
}

#[test]
fn test_oracle_median() {
    let env = make_env();
    let mut pool = StellarKraal::new();
    let (_, o1, o2, o3) = init(&env, &mut pool);
    pool.submit_price(&env, o1, 100).unwrap();
    pool.submit_price(&env, o2, 200).unwrap();
    pool.submit_price(&env, o3, 150).unwrap();
    let price = pool.get_price(&env).unwrap();
    assert_eq!(price, 150); // median of [100, 150, 200]
}

#[test]
fn test_interest_accrual() {
    let mut env = make_env();
    let mut pool = StellarKraal::new();
    let _ = init(&env, &mut pool);
    let owner = address(10);
    let asset_id =
        pool.register_asset(&env, owner, symbol("CATTLE"), symbol("T6"), 1_000_000).unwrap();
    let loan_id = pool.open_loan(&env, owner, asset_id, 100_000).unwrap();
    // One year later:
    // 100_000 * 1000 * 6_307_200 / (10_000 * 6_307_200) = 10_000
    env.sequence = 6_307_200;
    let remaining = pool.repay_loan(&env, owner, loan_id, 0).unwrap();
    assert_eq!(remaining, 110_000);
}

#[test]
fn test_full_repayment_frees_asset() {
    let env = make_env();
    let mut pool = StellarKraal::new();
    let _ = init(&env, &mut pool);
    let owner = address(10);
    let asset_id =
        pool.register_asset(&env, owner, symbol("CATTLE"), symbol("T7"), 1_000_000).unwrap();
    let loan_id = pool.open_loan(&env, owner, asset_id, 100_000).unwrap();
    let remaining = pool.repay_loan(&env, owner, loan_id, 200_000).unwrap();
    assert_eq!(remaining, 0);
    let asset = pool.get_asset(asset_id).unwrap();
    assert!(!asset.on_loan);
}

#[test]
fn test_unauthorized_oracle_rejected() {
    let env = make_env();
    let mut pool = StellarKraal::new();
    let _ = init(&env, &mut pool);
    let rogue = address(12);
    let res = pool.submit_price(&env, rogue, 999);
    assert_eq!(res, Err(Error::Unauthorized));
}

// ---- More cases ----

#[test]
fn median_is_the_middle_in_any_order() {
    let orders =
        [(1, 2, 3), (1, 3, 2), (2, 1, 3), (2, 3, 1), (3, 1, 2), (3, 2, 1)];
    for (a, b, c) in orders {
        assert_eq!(median3(a, b, c), 2);
    }
    assert_eq!(median3(5, 5, -1), 5);
    assert_eq!(median3(i128::MIN, i128::MAX, 0), 0);
}

#[test]
fn accrual_formula() {
    assert_eq!(accrue(100_000, 1_000, 0), Ok(100_000));
    assert_eq!(accrue(100_000, 1_000, LEDGERS_PER_YEAR), Ok(110_000));
    assert_eq!(accrue(1_001_000, 1_000, LEDGERS_PER_YEAR / 2), Ok(1_051_050));
    // The interest is rounded toward zero.
    assert_eq!(accrue(100, 1_000, 1), Ok(100));
    assert_eq!(accrue(-100_000, 1_000, LEDGERS_PER_YEAR), Ok(-110_000));
    assert_eq!(accrue(-100, 1_000, 1), Ok(-100));
}

#[test]
fn accrual_that_overflows_is_refused() {
    assert_eq!(accrue(i128::MAX, 2, 0), Err(Error::ArithmeticError));
    assert_eq!(accrue(i128::MAX, 1, 2), Err(Error::ArithmeticError));
    // Every product fits, but not the sum.
    assert_eq!(accrue(i128::MAX, 1, 1), Err(Error::ArithmeticError));
    assert_eq!(accrue(i128::MIN, -1, 1), Err(Error::ArithmeticError));
}

#[test]
fn pool_must_be_set_up() {
    let env = make_env();
    let mut pool = StellarKraal::new();
    let id = BytesN::from_array([9; 32]);
    let owner = address(10);
    let refused = Error::NotInitialized;
    assert_eq!(pool.register_asset(&env, owner, symbol("A"), symbol("B"), 1), Err(refused));
    assert_eq!(pool.open_loan(&env, owner, id, 1), Err(refused));
    assert_eq!(pool.repay_loan(&env, owner, id, 1), Err(refused));
    assert_eq!(pool.liquidate(&env, owner, id), Err(refused));
    assert_eq!(pool.health_factor(id), Err(refused));
    assert_eq!(pool.submit_price(&env, owner, 1), Err(refused));
    assert_eq!(pool.get_asset(id).unwrap_err(), refused);
    assert_eq!(pool.get_loan(id).unwrap_err(), refused);
    assert_eq!(pool.get_config().unwrap_err(), refused);
    assert_eq!(pool.get_price(&env), Err(refused));
}

#[test]
fn unknown_assets_and_loans() {
    let env = make_env();
    let mut pool = StellarKraal::new();
    let _ = init(&env, &mut pool);
    let id = BytesN::from_array([9; 32]);
    let owner = address(10);
    assert_eq!(pool.open_loan(&env, owner, id, 1), Err(Error::AssetNotFound));
    assert_eq!(pool.repay_loan(&env, owner, id, 1), Err(Error::LoanNotFound));
    assert_eq!(pool.liquidate(&env, owner, id), Err(Error::LoanNotFound));
    assert_eq!(pool.health_factor(id), Err(Error::LoanNotFound));
    assert_eq!(pool.get_asset(id).unwrap_err(), Error::AssetNotFound);
    assert_eq!(pool.get_loan(id).unwrap_err(), Error::LoanNotFound);
}

#[test]
fn loan_that_overflows_is_refused() {
    let env = make_env();
    let mut pool = StellarKraal::new();
    let _ = init(&env, &mut pool);
    let owner = address(10);
    let asset_id =
        pool.register_asset(&env, owner, symbol("CATTLE"), symbol("T8"), i128::MAX).unwrap();
    assert_eq!(pool.open_loan(&env, owner, asset_id, 1), Err(Error::ArithmeticError));
    assert!(!pool.get_asset(asset_id).unwrap().on_loan);
}

#[test]
fn health_that_overflows_is_refused() {
    let env = make_env();
    let mut pool = StellarKraal::new();
    pool.initialize(
        &env,
        address(1),
        address(2),
        address(3),
        address(4),
        1,
        i128::MAX,
        0,
        0,
        0,
        100,
    )
    .unwrap();
    let owner = address(10);
    let asset_id =
        pool.register_asset(&env, owner, symbol("CATTLE"), symbol("T9"), 1_000_000).unwrap();
    let loan_id = pool.open_loan(&env, owner, asset_id, 100).unwrap();
    assert_eq!(pool.health_factor(loan_id), Err(Error::ArithmeticError));
    assert_eq!(pool.liquidate(&env, owner, loan_id), Err(Error::ArithmeticError));
}

#[test]
fn seizure_that_overflows_is_refused() {
    let env = make_env();
    let mut pool = StellarKraal::new();
    pool.initialize(
        &env,
        address(1),
        address(2),
        address(3),
        address(4),
        10_000,
        1,
        i128::MAX,
        0,
        0,
        100,
    )
    .unwrap();
    let owner = address(10);
    let asset_id =
        pool.register_asset(&env, owner, symbol("CATTLE"), symbol("T9"), 1_000_000).unwrap();
    let loan_id = pool.open_loan(&env, owner, asset_id, 1_000_000).unwrap();
    assert_eq!(pool.health_factor(loan_id), Ok(0));
    assert_eq!(pool.liquidate(&env, owner, loan_id), Err(Error::ArithmeticError));
    assert!(pool.get_loan(loan_id).unwrap().active);
}

#[test]
fn repaying_the_exact_balance_closes_the_loan() {
    let env = make_env();
    let mut pool = StellarKraal::new();
    let _ = init(&env, &mut pool);
    let owner = address(10);
    let asset_id =
        pool.register_asset(&env, owner, symbol("CATTLE"), symbol("T10"), 1_000_000).unwrap();
    let loan_id = pool.open_loan(&env, owner, asset_id, 100).unwrap();
    assert_eq!(pool.repay_loan(&env, owner, loan_id, 99), Ok(1));
    assert!(pool.get_loan(loan_id).unwrap().active);
    assert_eq!(pool.repay_loan(&env, owner, loan_id, 1), Ok(0));
    assert!(!pool.get_loan(loan_id).unwrap().active);
    assert_eq!(pool.health_factor(loan_id), Ok(i128::MAX));
}

#[test]
fn negative_repayment_adds_to_the_balance() {
    let env = make_env();
    let mut pool = StellarKraal::new();
    let _ = init(&env, &mut pool);
    let owner = address(10);
    let asset_id =
        pool.register_asset(&env, owner, symbol("CATTLE"), symbol("T11"), 1_000_000).unwrap();
    let loan_id = pool.open_loan(&env, owner, asset_id, 100).unwrap();
    assert_eq!(pool.repay_loan(&env, owner, loan_id, -5), Ok(105));
    assert_eq!(pool.repay_loan(&env, owner, loan_id, i128::MIN), Ok(i128::MAX));
}

#[test]
fn freed_asset_secures_another_loan() {
    let mut env = make_env();
    let mut pool = StellarKraal::new();
    let _ = init(&env, &mut pool);
    let owner = address(10);
    let asset_id =
        pool.register_asset(&env, owner, symbol("CATTLE"), symbol("T12"), 1_000_000).unwrap();
    let first = pool.open_loan(&env, owner, asset_id, 100).unwrap();
    assert_eq!(pool.open_loan(&env, owner, asset_id, 1), Err(Error::AssetAlreadyOnLoan));
    pool.repay_loan(&env, owner, first, 100).unwrap();
    env.sequence = 1;
    let second = pool.open_loan(&env, owner, asset_id, 100).unwrap();
    assert_ne!(first, second);
    assert!(!pool.get_loan(first).unwrap().active);
    assert!(pool.get_loan(second).unwrap().active);
}

#[test]
fn registration_in_the_same_ledger_takes_the_place_of_the_first() {
    let env = make_env();
    let mut pool = StellarKraal::new();
    let _ = init(&env, &mut pool);
    let first = pool.register_asset(&env, address(10), symbol("COW"), symbol("A"), 5).unwrap();
    let second = pool.register_asset(&env, address(11), symbol("GOAT"), symbol("B"), 6).unwrap();
    assert_eq!(first, second);
    let asset = pool.get_asset(first).unwrap();
    assert_eq!(asset.owner, address(11));
    assert_eq!(asset.animal_type, symbol("GOAT"));
    assert_eq!(asset.tag_id, symbol("B"));
    assert_eq!(asset.appraised_value_xlm, 6);
}

#[test]
fn missing_prices_are_stale() {
    let env = make_env();
    let mut pool = StellarKraal::new();
    let (_, o1, o2, _) = init(&env, &mut pool);
    assert_eq!(pool.get_price(&env), Err(Error::StalePrices));
    pool.submit_price(&env, o1, 1).unwrap();
    pool.submit_price(&env, o2, 1).unwrap();
    assert_eq!(pool.get_price(&env), Err(Error::StalePrices));
}

#[test]
fn one_oracle_cannot_move_the_price() {
    let env = make_env();
    let mut pool = StellarKraal::new();
    let (_, o1, o2, o3) = init(&env, &mut pool);
    pool.submit_price(&env, o1, 100).unwrap();
    pool.submit_price(&env, o2, 101).unwrap();
    pool.submit_price(&env, o3, i128::MAX).unwrap();
    assert_eq!(pool.get_price(&env), Ok(101));
    pool.submit_price(&env, o3, i128::MIN).unwrap();
    assert_eq!(pool.get_price(&env), Ok(100));
}

#[test]
fn repayments_in_one_ledger_add_up() {
    let mut env = make_env();
    let mut split = StellarKraal::new();
    let mut whole = StellarKraal::new();
    let owner = address(10);
    let mut loans = Vec::new();
    for pool in [&mut split, &mut whole] {
        let _ = init(&env, pool);
        let asset_id =
            pool.register_asset(&env, owner, symbol("CATTLE"), symbol("T13"), 1_000_000).unwrap();
        loans.push(pool.open_loan(&env, owner, asset_id, 500_000).unwrap());
    }
    env.sequence = 1_000_000;
    split.repay_loan(&env, owner, loans[0], 1_000).unwrap();
    let last = split.repay_loan(&env, owner, loans[0], 2_000).unwrap();
    assert_eq!(whole.repay_loan(&env, owner, loans[1], 3_000), Ok(last));
    // 500_000 + 500_000 * 1000 * 1_000_000 / (10_000 * 6_307_200) - 3_000
    assert_eq!(last, 504_927);
}

#[test]
fn interest_grows_with_time_and_balance() {
    let mut last = 0;
    for ledgers in [0, 1, 1_000, 1_000_000, LEDGERS_PER_YEAR, 3 * LEDGERS_PER_YEAR] {
        let grown = accrue(700_000, 1_000, ledgers).unwrap();
        assert!(grown >= last);
        last = grown;
    }
    assert_eq!(last, 910_000);
    let small = accrue(700_000, 1_000, 1_000_000).unwrap() - 700_000;
    let large = accrue(700_001, 1_000, 1_000_000).unwrap() - 700_001;
    assert!(small <= large);
}

#[test]
fn health_falls_as_the_balance_grows() {
    let mut env = make_env();
    let mut pool = StellarKraal::new();
    let _ = init(&env, &mut pool);
    let owner = address(10);
    let asset_id =
        pool.register_asset(&env, owner, symbol("CATTLE"), symbol("T14"), 1_000_000).unwrap();
    let loan_id = pool.open_loan(&env, owner, asset_id, 700_000).unwrap();
    assert_eq!(pool.health_factor(loan_id), Ok(121));
    env.sequence = 6_307_200;
    pool.repay_loan(&env, owner, loan_id, 0).unwrap();
    assert_eq!(pool.health_factor(loan_id), Ok(110));
}

#[test]
fn loan_of_nothing_is_safe() {
    let env = make_env();
    let mut pool = StellarKraal::new();
    let _ = init(&env, &mut pool);
    let owner = address(10);
    let asset_id =
        pool.register_asset(&env, owner, symbol("CATTLE"), symbol("T15"), 1_000_000).unwrap();
    let loan_id = pool.open_loan(&env, owner, asset_id, 0).unwrap();
    assert!(pool.get_loan(loan_id).unwrap().active);
    assert_eq!(pool.liquidate(&env, owner, loan_id), Err(Error::HealthFactorSafe));
    assert_eq!(pool.repay_loan(&env, owner, loan_id, 0), Ok(0));
    assert!(!pool.get_loan(loan_id).unwrap().active);
}

#[test]
fn open_loans_keep_their_assets_marked() {
    let mut env = make_env();
    let mut pool = StellarKraal::new();
    let _ = init(&env, &mut pool);
    let owner = address(10);
    let first = pool.register_asset(&env, owner, symbol("COW"), symbol("A"), 1_000_000).unwrap();
    env.sequence = 1;
    let second = pool.register_asset(&env, owner, symbol("COW"), symbol("B"), 1_000_000).unwrap();
    let loan_1 = pool.open_loan(&env, owner, first, 500).unwrap();
    let loan_2 = pool.open_loan(&env, owner, second, 500).unwrap();
    pool.repay_loan(&env, owner, loan_1, 500).unwrap();
    assert!(!pool.get_asset(first).unwrap().on_loan);
    assert!(pool.get_asset(second).unwrap().on_loan);
    assert!(pool.get_loan(loan_2).unwrap().active);
    assert_eq!(pool.get_loan(loan_1).unwrap().balance, 0);
}
