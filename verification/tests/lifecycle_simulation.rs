//! Loans from registration to settlement, with an administrator, three oracles,
//! two farmers and a liquidator, on a ledger that advances step by step.

use carbon_ledger::host::{Address, AddressKind, BytesN, Env, Symbol};
use carbon_ledger::stellarkraal::{Error, StellarKraal};

const GENESIS_SEQUENCE: u32 = 100;
const LEDGERS_PER_YEAR: u32 = 6_307_200;

const COLLATERAL_RATIO_BPS: i128 = 7_000;
const LIQ_THRESHOLD_BPS: i128 = 8_500;
const LIQ_BONUS_BPS: i128 = 500;
const INTEREST_RATE_BPS: i128 = 1_000;
const CREATION_FEE: i128 = 1_000;
const MAX_PRICE_AGE: u32 = 100;

struct Actors {
    admin: Address,
    oracle_1: Address,
    oracle_2: Address,
    oracle_3: Address,
    farmer_a: Address,
    farmer_b: Address,
    liquidator: Address,
}

struct Sim {
    env: Env,
    pool: StellarKraal,
    actors: Actors,
}

fn address(n: u8) -> Address {
    Address { kind: AddressKind::Account, id: BytesN::from_array([n; 32]) }
}

fn symbol(text: &str) -> Symbol {
    Symbol::new(text.as_bytes()).unwrap()
}

impl Sim {
    fn boot() -> Self {
        let env = Env { sequence: GENESIS_SEQUENCE, authorized: (1..=7).map(address).collect() };
        let actors = Actors {
            admin: address(1),
            oracle_1: address(2),
            oracle_2: address(3),
            oracle_3: address(4),
            farmer_a: address(5),
            farmer_b: address(6),
            liquidator: address(7),
        };
        let mut pool = StellarKraal::new();
        pool.initialize(
            &env,
            actors.admin,
            actors.oracle_1,
            actors.oracle_2,
            actors.oracle_3,
            COLLATERAL_RATIO_BPS,
            LIQ_THRESHOLD_BPS,
            LIQ_BONUS_BPS,
            INTEREST_RATE_BPS,
            CREATION_FEE,
            MAX_PRICE_AGE,
        )
        .unwrap();
        Sim { env, pool, actors }
    }

    fn advance(&mut self, ledgers: u32) {
        self.env.sequence += ledgers;
    }

    fn feed_prices(&mut self, p1: i128, p2: i128, p3: i128) {
        self.pool.submit_price(&self.env, self.actors.oracle_1, p1).unwrap();
        self.pool.submit_price(&self.env, self.actors.oracle_2, p2).unwrap();
        self.pool.submit_price(&self.env, self.actors.oracle_3, p3).unwrap();
    }

    fn register(&mut self, owner: Address, animal: &str, tag: &str, value: i128) -> BytesN<32> {
        self.pool.register_asset(&self.env, owner, symbol(animal), symbol(tag), value).unwrap()
    }
}

#[test]
fn scenario_happy_path_full_lifecycle() {
    let mut sim = Sim::boot();

    // The median of diverging prices wins.
    sim.feed_prices(95_000, 100_000, 104_000);
    assert_eq!(sim.pool.get_price(&sim.env), Ok(100_000));

    // Two farmers register collateral.
    let cow_a = sim.register(sim.actors.farmer_a, "CATTLE", "KR001", 2_000_000);
    sim.advance(1); // identifiers come from the ledger's number
    let goat_b = sim.register(sim.actors.farmer_b, "GOAT", "KR002", 500_000);
    assert_ne!(cow_a, goat_b);

    // One borrows half of the appraised value.
    let loan_id = sim.pool.open_loan(&sim.env, sim.actors.farmer_a, cow_a, 1_000_000).unwrap();
    let loan = sim.pool.get_loan(loan_id).unwrap();
    assert_eq!(loan.principal, 1_000_000);
    assert_eq!(loan.balance, 1_000_000 + CREATION_FEE); // fee rolled in
    assert!(loan.active);
    assert!(sim.pool.get_asset(cow_a).unwrap().on_loan);

    // Half a year passes; the oracles keep the feed alive.
    sim.advance(LEDGERS_PER_YEAR / 2);
    sim.feed_prices(101_000, 102_000, 103_000);

    // The loan is settled.
    let remaining =
        sim.pool.repay_loan(&sim.env, sim.actors.farmer_a, loan_id, 2_000_000).unwrap();
    assert_eq!(remaining, 0);

    // The configuration is as it was.
    let cfg = sim.pool.get_config().unwrap();
    assert_eq!(cfg.admin, sim.actors.admin);
    assert_eq!(cfg.interest_rate_bps, INTEREST_RATE_BPS);
    // The price is fresh and still the median.
    assert_eq!(sim.pool.get_price(&sim.env), Ok(102_000));
    // One farmer's collateral is free again, the other's was never bound.
    let asset_a = sim.pool.get_asset(cow_a).unwrap();
    assert_eq!(asset_a.owner, sim.actors.farmer_a);
    assert!(!asset_a.on_loan);
    let asset_b = sim.pool.get_asset(goat_b).unwrap();
    assert_eq!(asset_b.owner, sim.actors.farmer_b);
    assert!(!asset_b.on_loan);
    // The loan is closed, and its principal still on record.
    let loan = sim.pool.get_loan(loan_id).unwrap();
    assert!(!loan.active);
    assert_eq!(loan.balance, 0);
    assert_eq!(loan.principal, 1_000_000);
    assert_eq!(sim.pool.health_factor(loan_id), Ok(i128::MAX));
}

#[test]
fn scenario_partial_repayment_then_full() {
    let mut sim = Sim::boot();
    let farmer = sim.actors.farmer_a;

    let asset_id = sim.register(farmer, "CATTLE", "KR003", 1_000_000);
    let loan_id = sim.pool.open_loan(&sim.env, farmer, asset_id, 500_000).unwrap();
    let opening_balance = 500_000 + CREATION_FEE;

    // The balance drops, the collateral stays bound.
    let after_first = sim.pool.repay_loan(&sim.env, farmer, loan_id, 200_000).unwrap();
    assert_eq!(after_first, opening_balance - 200_000);
    assert!(sim.pool.get_loan(loan_id).unwrap().active);
    assert!(sim.pool.get_asset(asset_id).unwrap().on_loan);

    let after_second = sim.pool.repay_loan(&sim.env, farmer, loan_id, 150_000).unwrap();
    assert_eq!(after_second, opening_balance - 350_000);
    assert!(sim.pool.get_asset(asset_id).unwrap().on_loan);

    // The last payment overshoots: the balance is zero and the collateral free.
    let after_final = sim.pool.repay_loan(&sim.env, farmer, loan_id, 200_000).unwrap();
    assert_eq!(after_final, 0);
    let loan = sim.pool.get_loan(loan_id).unwrap();
    assert!(!loan.active);
    assert_eq!(loan.balance, 0);
    assert!(!sim.pool.get_asset(asset_id).unwrap().on_loan);

    // A closed loan takes no further payment.
    let res = sim.pool.repay_loan(&sim.env, farmer, loan_id, 1);
    assert_eq!(res, Err(Error::LoanNotActive));
}

#[test]
fn scenario_stale_oracle_feed_expires_and_recovers() {
    let mut sim = Sim::boot();

    sim.feed_prices(100_000, 100_500, 99_500);
    assert_eq!(sim.pool.get_price(&sim.env), Ok(100_000));

    // Still fresh exactly at the age limit.
    sim.advance(MAX_PRICE_AGE);
    assert_eq!(sim.pool.get_price(&sim.env), Ok(100_000));

    // One ledger past the limit the feed is stale.
    sim.advance(1);
    assert_eq!(sim.pool.get_price(&sim.env), Err(Error::StalePrices));

    // Two of three oracles do not bring it back.
    sim.pool.submit_price(&sim.env, sim.actors.oracle_1, 110_000).unwrap();
    sim.pool.submit_price(&sim.env, sim.actors.oracle_2, 111_000).unwrap();
    assert_eq!(sim.pool.get_price(&sim.env), Err(Error::StalePrices));

    // The third does, with the new median.
    sim.pool.submit_price(&sim.env, sim.actors.oracle_3, 112_000).unwrap();
    assert_eq!(sim.pool.get_price(&sim.env), Ok(111_000));
}

#[test]
fn scenario_rejected_requests_leave_state_untouched() {
    let mut sim = Sim::boot();
    let farmer = sim.actors.farmer_a;

    sim.feed_prices(100_000, 100_000, 100_000);
    let asset_id = sim.register(farmer, "CATTLE", "KR004", 1_000_000);

    // More than 70% of the value is refused, and the collateral stays free.
    let res = sim.pool.open_loan(&sim.env, farmer, asset_id, 700_001);
    assert_eq!(res, Err(Error::PrincipalExceedsLtv));
    assert!(!sim.pool.get_asset(asset_id).unwrap().on_loan);

    // A loan at the limit goes through.
    let loan_id = sim.pool.open_loan(&sim.env, farmer, asset_id, 700_000).unwrap();
    assert!(sim.pool.get_loan(loan_id).unwrap().active);

    // The same collateral backs no second loan.
    let res = sim.pool.open_loan(&sim.env, farmer, asset_id, 100_000);
    assert_eq!(res, Err(Error::AssetAlreadyOnLoan));

    // Nor does an asset that was never registered.
    let phantom = BytesN::from_array([7u8; 32]);
    let res = sim.pool.open_loan(&sim.env, sim.actors.farmer_b, phantom, 1);
    assert_eq!(res, Err(Error::AssetNotFound));

    // Nobody but the oracles can submit a price.
    let res = sim.pool.submit_price(&sim.env, sim.actors.liquidator, 1);
    assert_eq!(res, Err(Error::Unauthorized));
    assert_eq!(sim.pool.get_price(&sim.env), Ok(100_000));

    // A healthy loan cannot be liquidated.
    let res = sim.pool.liquidate(&sim.env, sim.actors.liquidator, loan_id);
    assert_eq!(res, Err(Error::HealthFactorSafe));
    let loan = sim.pool.get_loan(loan_id).unwrap();
    assert!(loan.active);
    assert_eq!(loan.balance, 700_000 + CREATION_FEE);
}

#[test]
fn scenario_forced_liquidation_after_interest_accrual() {
    let mut sim = Sim::boot();
    let farmer = sim.actors.farmer_b;

    sim.feed_prices(100_000, 100_000, 100_000);
    let asset_id = sim.register(farmer, "CATTLE", "KR005", 1_000_000);
    // (1_000_000 * 8_500 * 100) / (701_000 * 10_000) = 121: safe.
    let loan_id = sim.pool.open_loan(&sim.env, farmer, asset_id, 700_000).unwrap();
    assert!(sim.pool.health_factor(loan_id).unwrap() >= 120);
    assert_eq!(
        sim.pool.liquidate(&sim.env, sim.actors.liquidator, loan_id),
        Err(Error::HealthFactorSafe)
    );

    // A year at 10% makes 701_000 + 70_100 = 771_100, and
    // (1_000_000 * 8_500 * 100) / (771_100 * 10_000) = 110: no longer safe.
    sim.advance(LEDGERS_PER_YEAR);

    let seized = sim.pool.liquidate(&sim.env, sim.actors.liquidator, loan_id).unwrap();
    // 771_100 * (10_000 + 500) / 10_000 = 809_655
    assert_eq!(seized, 809_655);

    // The loan is closed and the collateral free.
    let loan = sim.pool.get_loan(loan_id).unwrap();
    assert!(!loan.active);
    assert_eq!(loan.balance, 0);
    assert!(!sim.pool.get_asset(asset_id).unwrap().on_loan);

    // It cannot be liquidated twice.
    assert_eq!(
        sim.pool.liquidate(&sim.env, sim.actors.liquidator, loan_id),
        Err(Error::LoanNotActive)
    );
}
