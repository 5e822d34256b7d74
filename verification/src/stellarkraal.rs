//! A lending pool that takes livestock as collateral.
//!
//! Owners register animals at an appraised value and borrow against them up to
//! a share of that value. Interest accrues per ledger on the open balance. Three
//! oracles feed a price, and a loan whose health factor falls too low can be
//! closed by anyone.

use vstd::prelude::*;
use crate::crypto::sha256;
use crate::crypto::sha256_digest;
use crate::host::{Address, BytesN, Env, Symbol};
use crate::numeric::{be_bytes, clamped, fits, lemma_be_bytes_len, quotient};
use crate::numeric::{saturating_sub, to_be_bytes};
use crate::table::Table;

verus! {

/// The number of ledgers that close in a year, at one every five seconds.
pub const LEDGERS_PER_YEAR: i128 = 6_307_200;

/// The parameters of the pool, fixed when it is set up.
#[derive(Clone, Copy, Debug)]
pub struct Config {
    pub admin: Address,
    pub oracle_1: Address,
    pub oracle_2: Address,
    pub oracle_3: Address,
    /// The share of an asset's value that can be borrowed.
    pub collateral_ratio_bps: i128,
    /// The share of an asset's value that counts toward a loan's health.
    pub liquidation_threshold_bps: i128,
    /// What a liquidator receives above the balance.
    pub liquidation_bonus_bps: i128,
    /// The yearly rate of interest.
    pub interest_rate_bps: i128,
    /// The fee added to a new loan's balance.
    pub creation_fee_stroops: i128,
    /// How old a submitted price may be.
    pub max_price_age_ledgers: u32,
}

/// An animal put up as collateral.
#[derive(Clone, Copy, Debug)]
pub struct Asset {
    pub owner: Address,
    pub animal_type: Symbol,
    pub tag_id: Symbol,
    pub appraised_value_xlm: i128,
    /// Whether an open loan is secured by the animal.
    pub on_loan: bool,
}

/// A loan against one asset.
#[derive(Clone, Copy, Debug)]
pub struct Loan {
    pub borrower: Address,
    pub asset_id: BytesN<32>,
    /// The sum that was lent.
    pub principal: i128,
    /// The sum owed as of `updated_at`.
    pub balance: i128,
    /// The ledger in which the loan was opened.
    pub opened_at: u32,
    /// The ledger up to which interest has been added to the balance.
    pub updated_at: u32,
    pub active: bool,
}

/// A price from one oracle.
#[derive(Clone, Copy, Debug)]
pub struct PriceEntry {
    pub price: i128,
    /// The ledger in which the price was submitted.
    pub submitted_at: u32,
}

/// The reasons for which the pool refuses a request.
#[derive(Clone, Copy, Debug, PartialEq, Eq, Structural)]
pub enum Error {
    AlreadyInitialized,
    NotInitialized,
    Unauthorized,
    AssetNotFound,
    LoanNotFound,
    AssetAlreadyOnLoan,
    PrincipalExceedsLtv,
    LoanNotActive,
    HealthFactorSafe,
    InsufficientPrice,
    ArithmeticError,
    StalePrices,
}

/// Everything the pool remembers.
#[verifier::ext_equal]
pub struct KraalState {
    pub config: Option<Config>,
    pub prices: Map<Address, PriceEntry>,
    pub assets: Map<BytesN<32>, Asset>,
    pub loans: Map<BytesN<32>, Loan>,
}

/// The lending pool.
pub struct StellarKraal {
    pub config: Option<Config>,
    pub prices: Table<Address, PriceEntry>,
    pub assets: Table<BytesN<32>, Asset>,
    pub loans: Table<BytesN<32>, Loan>,
}

impl View for StellarKraal {
    type V = KraalState;

    open spec fn view(&self) -> KraalState {
        KraalState {
            config: self.config,
            prices: self.prices@,
            assets: self.assets@,
            loans: self.loans@,
        }
    }
}

/// The middle one of three values.
pub open spec fn median(a: int, b: int, c: int) -> int {
    let low = if a <= b && a <= c {
        a
    } else if b <= c {
        b
    } else {
        c
    };
    let high = if a >= b && a >= c {
        a
    } else if b >= c {
        b
    } else {
        c
    };
    a + b + c - low - high
}

/// The middle one of three values.
pub fn median3(a: i128, b: i128, c: i128) -> (r: i128)
    ensures
        r == median(a as int, b as int, c as int),
{
    let mut arr: [i128; 3] = [a, b, c];
    if arr[0] > arr[1] {
        let t: i128 = arr[0];
        arr[0] = arr[1];
        arr[1] = t;
    }
    if arr[1] > arr[2] {
        let t: i128 = arr[1];
        arr[1] = arr[2];
        arr[2] = t;
    }
    if arr[0] > arr[1] {
        let t: i128 = arr[0];
        arr[0] = arr[1];
        arr[1] = t;
    }
    arr[1]
}

/// The interest on `balance` over `ledgers` at a yearly rate, rounded toward
/// zero.
pub open spec fn interest(balance: int, rate_bps: int, ledgers: int) -> int {
    quotient(balance * rate_bps * ledgers, 10_000 * LEDGERS_PER_YEAR)
}

/// Whether every step of adding the interest to the balance fits an `i128`.
pub open spec fn can_accrue(balance: int, rate_bps: int, ledgers: int) -> bool {
    &&& fits(balance * rate_bps)
    &&& fits(balance * rate_bps * ledgers)
    &&& fits(balance + interest(balance, rate_bps, ledgers))
}

/// Adds to `balance` its interest over `ledgers`.
pub fn accrue(balance: i128, rate_bps: i128, ledgers: i128) -> (r: Result<i128, Error>)
    ensures
        match r {
            Ok(grown) => {
                &&& can_accrue(balance as int, rate_bps as int, ledgers as int)
                &&& grown == balance + interest(balance as int, rate_bps as int, ledgers as int)
            },
            Err(error) => {
                &&& !can_accrue(balance as int, rate_bps as int, ledgers as int)
                &&& error == Error::ArithmeticError
            },
        },
{
    let scaled: i128 = match balance.checked_mul(rate_bps) {
        Some(v) => v,
        None => return Err(Error::ArithmeticError),
    };
    let total: i128 = match scaled.checked_mul(ledgers) {
        Some(v) => v,
        None => return Err(Error::ArithmeticError),
    };
    let year: i128 = match 10_000i128.checked_mul(LEDGERS_PER_YEAR) {
        Some(v) => v,
        None => return Err(Error::ArithmeticError),
    };
    let due: i128 = match total.checked_div(year) {
        Some(v) => v,
        None => return Err(Error::ArithmeticError),
    };
    match balance.checked_add(due) {
        Some(v) => Ok(v),
        None => Err(Error::ArithmeticError),
    }
}

/// The ledgers from `then` to `now`, or none if `then` lies ahead.
pub open spec fn ledgers_since(now: u32, then: u32) -> int {
    if now >= then {
        now - then
    } else {
        0
    }
}

/// The ledgers from `then` to `now`, or none if `then` lies ahead.
fn elapsed(now: u32, then: u32) -> (r: u32)
    ensures
        r == ledgers_since(now, then),
{
    now.saturating_sub(then)
}

/// What an asset's identifier is the digest of: the ledger's sequence number.
pub open spec fn asset_seed(sequence: u32) -> Seq<u8> {
    be_bytes(sequence as int, 4)
}

/// What a loan's identifier is the digest of: the ledger's sequence number and
/// the asset's identifier.
pub open spec fn loan_seed(sequence: u32, asset_id: BytesN<32>) -> Seq<u8> {
    be_bytes(sequence as int, 4) + asset_id@
}

/// The largest principal that `asset` secures.
pub open spec fn principal_limit(config: Config, asset: Asset) -> int {
    quotient(asset.appraised_value_xlm * config.collateral_ratio_bps, 10_000)
}

/// `loan` with its interest added up to `now`.
pub open spec fn accrued_loan(config: Config, loan: Loan, now: u32) -> Loan {
    Loan {
        balance: (loan.balance + interest(
            loan.balance as int,
            config.interest_rate_bps as int,
            ledgers_since(now, loan.updated_at),
        )) as i128,
        updated_at: now,
        ..loan
    }
}

/// Whether the interest on `loan` up to `now` can be added to its balance.
pub open spec fn loan_can_accrue(config: Config, loan: Loan, now: u32) -> bool {
    can_accrue(
        loan.balance as int,
        config.interest_rate_bps as int,
        ledgers_since(now, loan.updated_at),
    )
}

/// `loan` paid off.
pub open spec fn closed_loan(loan: Loan) -> Loan {
    Loan { balance: 0, active: false, ..loan }
}

/// The health factor of `loan`, in hundredths: the weighted value of its asset
/// over its balance. A loan with no balance is as healthy as can be.
pub open spec fn health(state: KraalState, config: Config, loan: Loan) -> Result<int, Error> {
    if loan.balance == 0 {
        Ok(i128::MAX as int)
    } else if !state.assets.contains_key(loan.asset_id) {
        Err(Error::AssetNotFound)
    } else {
        let weighted = state.assets[loan.asset_id].appraised_value_xlm
            * config.liquidation_threshold_bps;
        if fits(weighted) && fits(weighted * 100) && fits(loan.balance * 10_000) {
            Ok(quotient(weighted * 100, loan.balance * 10_000))
        } else {
            Err(Error::ArithmeticError)
        }
    }
}

/// What a liquidator is owed for closing a loan of `balance`.
pub open spec fn seizure(config: Config, balance: int) -> int {
    quotient(balance * (10_000 + config.liquidation_bonus_bps), 10_000)
}

/// Whether every step of the seizure fits an `i128`.
pub open spec fn can_seize(config: Config, balance: int) -> bool {
    &&& fits(10_000 + config.liquidation_bonus_bps)
    &&& fits(balance * (10_000 + config.liquidation_bonus_bps))
}

impl KraalState {
    /// The state before the pool is set up.
    pub open spec fn empty() -> KraalState {
        KraalState {
            config: None,
            prices: Map::empty(),
            assets: Map::empty(),
            loans: Map::empty(),
        }
    }

    /// The state with `asset` free of any loan.
    pub open spec fn release(self, asset_id: BytesN<32>) -> KraalState {
        KraalState {
            assets: self.assets.insert(
                asset_id,
                Asset { on_loan: false, ..self.assets[asset_id] },
            ),
            ..self
        }
    }

    /// The state with `loan` recorded under `loan_id`.
    pub open spec fn with_loan(self, loan_id: BytesN<32>, loan: Loan) -> KraalState {
        KraalState { loans: self.loans.insert(loan_id, loan), ..self }
    }

    /// The state with the pool set up.
    pub open spec fn initialized(self, config: Config) -> KraalState {
        KraalState { config: Some(config), ..self }
    }

    /// The state with an asset recorded under `asset_id`.
    pub open spec fn with_asset(self, asset_id: BytesN<32>, asset: Asset) -> KraalState {
        KraalState { assets: self.assets.insert(asset_id, asset), ..self }
    }

    /// Whether the pool takes prices from `oracle`.
    pub open spec fn trusts(self, oracle: Address) -> bool {
        self.config matches Some(config) && (oracle == config.oracle_1 || oracle == config.oracle_2
            || oracle == config.oracle_3)
    }

    /// The state with a price from `oracle`.
    pub open spec fn priced(self, now: u32, oracle: Address, price: i128) -> KraalState {
        KraalState {
            prices: self.prices.insert(oracle, PriceEntry { price, submitted_at: now }),
            ..self
        }
    }

    /// Whether the last price from `oracle` is recent enough to count.
    pub open spec fn fresh(self, now: u32, oracle: Address) -> bool {
        self.prices.contains_key(oracle) && ledgers_since(now, self.prices[oracle].submitted_at)
            <= self.config->0.max_price_age_ledgers
    }

    /// Whether the last price from each of the three oracles is recent enough.
    pub open spec fn all_fresh(self, now: u32) -> bool {
        &&& self.fresh(now, self.config->0.oracle_1)
        &&& self.fresh(now, self.config->0.oracle_2)
        &&& self.fresh(now, self.config->0.oracle_3)
    }

    /// The median of the three oracles' last prices.
    pub open spec fn median_price(self) -> int {
        median(
            self.prices[self.config->0.oracle_1].price as int,
            self.prices[self.config->0.oracle_2].price as int,
            self.prices[self.config->0.oracle_3].price as int,
        )
    }

    /// Why a loan of `principal` against an asset is refused.
    pub open spec fn open_loan_refusal(
        self,
        asset_id: BytesN<32>,
        principal: i128,
    ) -> Option<Error> {
        match self.config {
            None => Some(Error::NotInitialized),
            Some(config) => if !self.assets.contains_key(asset_id) {
                Some(Error::AssetNotFound)
            } else {
                let asset = self.assets[asset_id];
                if asset.on_loan {
                    Some(Error::AssetAlreadyOnLoan)
                } else if !fits(asset.appraised_value_xlm * config.collateral_ratio_bps) {
                    Some(Error::ArithmeticError)
                } else if principal > principal_limit(config, asset) {
                    Some(Error::PrincipalExceedsLtv)
                } else if !fits(principal + config.creation_fee_stroops) {
                    Some(Error::ArithmeticError)
                } else {
                    None
                }
            },
        }
    }

    /// The state once a loan has been opened.
    pub open spec fn loan_opened(
        self,
        now: u32,
        loan_id: BytesN<32>,
        borrower: Address,
        asset_id: BytesN<32>,
        principal: i128,
    ) -> KraalState {
        KraalState {
            assets: self.assets.insert(
                asset_id,
                Asset { on_loan: true, ..self.assets[asset_id] },
            ),
            loans: self.loans.insert(
                loan_id,
                Loan {
                    borrower,
                    asset_id,
                    principal,
                    balance: (principal + self.config->0.creation_fee_stroops) as i128,
                    opened_at: now,
                    updated_at: now,
                    active: true,
                },
            ),
            ..self
        }
    }

    /// Why neither a repayment nor a liquidation of a loan can begin.
    pub open spec fn loan_refusal(self, now: u32, loan_id: BytesN<32>) -> Option<Error> {
        match self.config {
            None => Some(Error::NotInitialized),
            Some(config) => if !self.loans.contains_key(loan_id) {
                Some(Error::LoanNotFound)
            } else if !self.loans[loan_id].active {
                Some(Error::LoanNotActive)
            } else if !loan_can_accrue(config, self.loans[loan_id], now) {
                Some(Error::ArithmeticError)
            } else {
                None
            },
        }
    }

    /// The loan with its interest added up to `now`.
    pub open spec fn accrued(self, now: u32, loan_id: BytesN<32>) -> Loan {
        accrued_loan(self.config->0, self.loans[loan_id], now)
    }

    /// Why a repayment is refused.
    pub open spec fn repay_refusal(
        self,
        now: u32,
        loan_id: BytesN<32>,
        repayment: i128,
    ) -> Option<Error> {
        match self.loan_refusal(now, loan_id) {
            Some(error) => Some(error),
            None => {
                let loan = self.accrued(now, loan_id);
                if repayment >= loan.balance && !self.assets.contains_key(loan.asset_id) {
                    Some(Error::AssetNotFound)
                } else {
                    None
                }
            },
        }
    }

    /// The state once a loan has been repaid, in part or in full.
    pub open spec fn loan_repaid(
        self,
        now: u32,
        loan_id: BytesN<32>,
        repayment: i128,
    ) -> KraalState {
        let loan = self.accrued(now, loan_id);
        if repayment >= loan.balance {
            self.release(loan.asset_id).with_loan(loan_id, closed_loan(loan))
        } else {
            self.with_loan(
                loan_id,
                Loan { balance: clamped(loan.balance - repayment) as i128, ..loan },
            )
        }
    }

    /// Why a liquidation is refused.
    pub open spec fn liquidate_refusal(self, now: u32, loan_id: BytesN<32>) -> Option<Error> {
        match self.loan_refusal(now, loan_id) {
            Some(error) => Some(error),
            None => {
                let loan = self.accrued(now, loan_id);
                match health(self, self.config->0, loan) {
                    Err(error) => Some(error),
                    Ok(factor) => if factor >= 120 {
                        Some(Error::HealthFactorSafe)
                    } else if !can_seize(self.config->0, loan.balance as int) {
                        Some(Error::ArithmeticError)
                    } else {
                        None
                    },
                }
            },
        }
    }

    /// The state once a loan has been liquidated.
    pub open spec fn loan_liquidated(self, now: u32, loan_id: BytesN<32>) -> KraalState {
        let loan = self.accrued(now, loan_id);
        self.release(loan.asset_id).with_loan(loan_id, closed_loan(loan))
    }
}

impl StellarKraal {
    /// A pool that has not been set up.
    pub fn new() -> (r: Self)
        ensures
            r@ == KraalState::empty(),
    {
        StellarKraal {
            config: None,
            prices: Table::new(),
            assets: Table::new(),
            loans: Table::new(),
        }
    }

    /// Sets the pool up. This can be done once.
    pub fn initialize(
        &mut self,
        e: &Env,
        admin: Address,
        oracle_1: Address,
        oracle_2: Address,
        oracle_3: Address,
        collateral_ratio_bps: i128,
        liquidation_threshold_bps: i128,
        liquidation_bonus_bps: i128,
        interest_rate_bps: i128,
        creation_fee_stroops: i128,
        max_price_age_ledgers: u32,
    ) -> (r: Result<(), Error>)
        requires
            old(self)@.config is None ==> e.authorizes(admin),
        ensures
            match (r, old(self)@.config) {
                (Ok(_), None) => final(self)@ == old(self)@.initialized(
                    (Config {
                        admin,
                        oracle_1,
                        oracle_2,
                        oracle_3,
                        collateral_ratio_bps,
                        liquidation_threshold_bps,
                        liquidation_bonus_bps,
                        interest_rate_bps,
                        creation_fee_stroops,
                        max_price_age_ledgers,
                    }),
                ),
                (Err(error), Some(_)) => error == Error::AlreadyInitialized && final(self)@ == old(
                    self,
                )@,
                _ => false,
            },
    {
        if self.config.is_some() {
            return Err(Error::AlreadyInitialized);
        }
        self.config = Some(
            Config {
                admin,
                oracle_1,
                oracle_2,
                oracle_3,
                collateral_ratio_bps,
                liquidation_threshold_bps,
                liquidation_bonus_bps,
                interest_rate_bps,
                creation_fee_stroops,
                max_price_age_ledgers,
            },
        );
        Ok(())
    }

    /// Records an animal as an asset. Its identifier is derived from the ledger
    /// alone, so a second registration in the same ledger takes the place of
    /// the first.
    pub fn register_asset(
        &mut self,
        e: &Env,
        owner: Address,
        animal_type: Symbol,
        tag_id: Symbol,
        appraised_value_xlm: i128,
    ) -> (r: Result<BytesN<32>, Error>)
        requires
            old(self)@.config is Some ==> e.authorizes(owner),
        ensures
            match (r, old(self)@.config) {
                (Ok(asset_id), Some(_)) => {
                    &&& asset_id@ == sha256_digest(asset_seed(e.sequence))
                    &&& final(self)@ == old(self)@.with_asset(
                        asset_id,
                        (Asset { owner, animal_type, tag_id, appraised_value_xlm, on_loan: false }),
                    )
                },
                (Err(error), None) => error == Error::NotInitialized && final(self)@ == old(self)@,
                _ => false,
            },
    {
        if self.config.is_none() {
            return Err(Error::NotInitialized);
        }
        let seed = to_be_bytes(e.sequence as i64, 4);
        proof {
            lemma_be_bytes_len(e.sequence as int, 4);
        }
        let id = sha256(seed.as_slice());
        self.assets.set(
            id,
            Asset { owner, animal_type, tag_id, appraised_value_xlm, on_loan: false },
        );
        Ok(id)
    }

    /// Opens a loan of `principal_stroops` against an asset.
    pub fn open_loan(
        &mut self,
        e: &Env,
        borrower: Address,
        asset_id: BytesN<32>,
        principal_stroops: i128,
    ) -> (r: Result<BytesN<32>, Error>)
        requires
            old(self)@.config is Some ==> e.authorizes(borrower),
        ensures
            match (r, old(self)@.open_loan_refusal(asset_id, principal_stroops)) {
                (Ok(loan_id), None) => {
                    &&& loan_id@ == sha256_digest(loan_seed(e.sequence, asset_id))
                    &&& final(self)@ == old(self)@.loan_opened(
                        e.sequence,
                        loan_id,
                        borrower,
                        asset_id,
                        principal_stroops,
                    )
                },
                (Err(error), Some(refusal)) => error == refusal && final(self)@ == old(self)@,
                _ => false,
            },
    {
        let cfg = match self.config {
            Some(cfg) => cfg,
            None => return Err(Error::NotInitialized),
        };
        let asset = match self.assets.read(&asset_id) {
            Some(asset) => asset,
            None => return Err(Error::AssetNotFound),
        };
        if asset.on_loan {
            return Err(Error::AssetAlreadyOnLoan);
        }
        let scaled: i128 = match asset.appraised_value_xlm.checked_mul(cfg.collateral_ratio_bps) {
            Some(v) => v,
            None => return Err(Error::ArithmeticError),
        };
        let max_principal: i128 = match scaled.checked_div(10_000) {
            Some(v) => v,
            None => return Err(Error::ArithmeticError),
        };
        if principal_stroops > max_principal {
            return Err(Error::PrincipalExceedsLtv);
        }
        let balance: i128 = match principal_stroops.checked_add(cfg.creation_fee_stroops) {
            Some(v) => v,
            None => return Err(Error::ArithmeticError),
        };
        let now: u32 = e.sequence;
        let mut seed = to_be_bytes(now as i64, 4);
        proof {
            lemma_be_bytes_len(now as int, 4);
        }
        let mut i: usize = 0;
        while i < 32
            invariant
                i <= 32,
                seed@ == be_bytes(now as int, 4) + asset_id@.take(i as int),
            decreases 32 - i,
        {
            seed.push(asset_id.bytes[i]);
            i = i + 1;
            assert(seed@ =~= be_bytes(now as int, 4) + asset_id@.take(i as int));
        }
        assert(asset_id@.take(32) =~= asset_id@);
        let loan_id = sha256(seed.as_slice());
        self.assets.set(asset_id, Asset { on_loan: true, ..asset });
        self.loans.set(
            loan_id,
            Loan {
                borrower,
                asset_id,
                principal: principal_stroops,
                balance,
                opened_at: now,
                updated_at: now,
                active: true,
            },
        );
        Ok(loan_id)
    }

    /// Pays `repayment_stroops` toward a loan and returns what is left to pay.
    /// A payment that covers the balance closes the loan and frees its asset.
    pub fn repay_loan(
        &mut self,
        e: &Env,
        caller: Address,
        loan_id: BytesN<32>,
        repayment_stroops: i128,
    ) -> (r: Result<i128, Error>)
        requires
            old(self)@.config is Some ==> e.authorizes(caller),
        ensures
            match (r, old(self)@.repay_refusal(e.sequence, loan_id, repayment_stroops)) {
                (Ok(balance), None) => {
                    &&& final(self)@ == old(self)@.loan_repaid(
                        e.sequence,
                        loan_id,
                        repayment_stroops,
                    )
                    &&& balance == final(self)@.loans[loan_id].balance
                },
                (Err(error), Some(refusal)) => error == refusal && final(self)@ == old(self)@,
                _ => false,
            },
    {
        let cfg = match self.config {
            Some(cfg) => cfg,
            None => return Err(Error::NotInitialized),
        };
        let mut loan = match self.loans.read(&loan_id) {
            Some(loan) => loan,
            None => return Err(Error::LoanNotFound),
        };
        if !loan.active {
            return Err(Error::LoanNotActive);
        }
        let now: u32 = e.sequence;
        let ledgers: i128 = elapsed(now, loan.updated_at) as i128;
        loan.balance = match accrue(loan.balance, cfg.interest_rate_bps, ledgers) {
            Ok(balance) => balance,
            Err(error) => return Err(error),
        };
        loan.updated_at = now;
        assert(loan == old(self)@.accrued(now, loan_id));

        let new_balance: i128 = saturating_sub(loan.balance, repayment_stroops);
        if new_balance == 0 || repayment_stroops >= loan.balance {
            let asset = match self.assets.read(&loan.asset_id) {
                Some(asset) => asset,
                None => return Err(Error::AssetNotFound),
            };
            loan.balance = 0;
            loan.active = false;
            self.assets.set(loan.asset_id, Asset { on_loan: false, ..asset });
        } else {
            loan.balance = new_balance;
        }
        self.loans.set(loan_id, loan);
        Ok(loan.balance)
    }

    /// Closes a loan whose health factor has fallen below 120 and returns what
    /// the liquidator is owed.
    pub fn liquidate(&mut self, e: &Env, liquidator: Address, loan_id: BytesN<32>) -> (r: Result<
        i128,
        Error,
    >)
        requires
            old(self)@.config is Some ==> e.authorizes(liquidator),
        ensures
            match (r, old(self)@.liquidate_refusal(e.sequence, loan_id)) {
                (Ok(seized), None) => {
                    &&& final(self)@ == old(self)@.loan_liquidated(e.sequence, loan_id)
                    &&& seized == seizure(
                        old(self)@.config->0,
                        old(self)@.accrued(e.sequence, loan_id).balance as int,
                    )
                },
                (Err(error), Some(refusal)) => error == refusal && final(self)@ == old(self)@,
                _ => false,
            },
    {
        let cfg = match self.config {
            Some(cfg) => cfg,
            None => return Err(Error::NotInitialized),
        };
        let mut loan = match self.loans.read(&loan_id) {
            Some(loan) => loan,
            None => return Err(Error::LoanNotFound),
        };
        if !loan.active {
            return Err(Error::LoanNotActive);
        }
        let now: u32 = e.sequence;
        let ledgers: i128 = elapsed(now, loan.updated_at) as i128;
        loan.balance = match accrue(loan.balance, cfg.interest_rate_bps, ledgers) {
            Ok(balance) => balance,
            Err(error) => return Err(error),
        };
        loan.updated_at = now;
        assert(loan == old(self)@.accrued(now, loan_id));

        let factor: i128 = match self.health_factor_inner(&cfg, &loan) {
            Ok(factor) => factor,
            Err(error) => return Err(error),
        };
        if factor >= 120 {
            return Err(Error::HealthFactorSafe);
        }
        let share: i128 = match 10_000i128.checked_add(cfg.liquidation_bonus_bps) {
            Some(v) => v,
            None => return Err(Error::ArithmeticError),
        };
        let scaled: i128 = match loan.balance.checked_mul(share) {
            Some(v) => v,
            None => return Err(Error::ArithmeticError),
        };
        let seized: i128 = match scaled.checked_div(10_000) {
            Some(v) => v,
            None => return Err(Error::ArithmeticError),
        };
        let asset = match self.assets.read(&loan.asset_id) {
            Some(asset) => asset,
            None => return Err(Error::AssetNotFound),
        };
        loan.active = false;
        loan.balance = 0;
        self.assets.set(loan.asset_id, Asset { on_loan: false, ..asset });
        self.loans.set(loan_id, loan);
        Ok(seized)
    }

    /// The health factor of a loan, on its balance as last updated.
    pub fn health_factor(&self, loan_id: BytesN<32>) -> (r: Result<i128, Error>)
        ensures
            match self@.config {
                None => r == Err::<i128, Error>(Error::NotInitialized),
                Some(config) => if !self@.loans.contains_key(loan_id) {
                    r == Err::<i128, Error>(Error::LoanNotFound)
                } else {
                    match (r, health(self@, config, self@.loans[loan_id])) {
                        (Ok(factor), Ok(expected)) => factor == expected,
                        (Err(error), Err(refusal)) => error == refusal,
                        _ => false,
                    }
                },
            },
    {
        let cfg = match self.config {
            Some(cfg) => cfg,
            None => return Err(Error::NotInitialized),
        };
        match self.loans.read(&loan_id) {
            Some(loan) => self.health_factor_inner(&cfg, &loan),
            None => Err(Error::LoanNotFound),
        }
    }

    fn health_factor_inner(&self, cfg: &Config, loan: &Loan) -> (r: Result<i128, Error>)
        ensures
            match (r, health(self@, *cfg, *loan)) {
                (Ok(factor), Ok(expected)) => factor == expected,
                (Err(error), Err(refusal)) => error == refusal,
                _ => false,
            },
    {
        if loan.balance == 0 {
            return Ok(i128::MAX);
        }
        let asset = match self.assets.read(&loan.asset_id) {
            Some(asset) => asset,
            None => return Err(Error::AssetNotFound),
        };
        let weighted: i128 = match asset.appraised_value_xlm.checked_mul(
            cfg.liquidation_threshold_bps,
        ) {
            Some(v) => v,
            None => return Err(Error::ArithmeticError),
        };
        let numerator: i128 = match weighted.checked_mul(100) {
            Some(v) => v,
            None => return Err(Error::ArithmeticError),
        };
        let denominator: i128 = match loan.balance.checked_mul(10_000) {
            Some(v) => v,
            None => return Err(Error::ArithmeticError),
        };
        match numerator.checked_div(denominator) {
            Some(v) => Ok(v),
            None => Err(Error::ArithmeticError),
        }
    }

    /// Takes a price from one of the three oracles.
    pub fn submit_price(&mut self, e: &Env, oracle: Address, price: i128) -> (r: Result<(), Error>)
        requires
            old(self)@.config is Some ==> e.authorizes(oracle),
        ensures
            match r {
                Ok(_) => old(self)@.trusts(oracle) && final(self)@ == old(self)@.priced(
                    e.sequence,
                    oracle,
                    price,
                ),
                Err(error) => {
                    &&& !old(self)@.trusts(oracle)
                    &&& error == (if old(self)@.config is None {
                        Error::NotInitialized
                    } else {
                        Error::Unauthorized
                    })
                    &&& final(self)@ == old(self)@
                },
            },
    {
        let cfg = match self.config {
            Some(cfg) => cfg,
            None => return Err(Error::NotInitialized),
        };
        if oracle != cfg.oracle_1 && oracle != cfg.oracle_2 && oracle != cfg.oracle_3 {
            return Err(Error::Unauthorized);
        }
        self.prices.set(oracle, PriceEntry { price, submitted_at: e.sequence });
        Ok(())
    }

    /// The asset recorded under `asset_id`.
    pub fn get_asset(&self, asset_id: BytesN<32>) -> (r: Result<Asset, Error>)
        ensures
            r == (if self@.config is None {
                Err(Error::NotInitialized)
            } else if self@.assets.contains_key(asset_id) {
                Ok(self@.assets[asset_id])
            } else {
                Err(Error::AssetNotFound)
            }),
    {
        if self.config.is_none() {
            return Err(Error::NotInitialized);
        }
        match self.assets.read(&asset_id) {
            Some(asset) => Ok(asset),
            None => Err(Error::AssetNotFound),
        }
    }

    /// The loan recorded under `loan_id`.
    pub fn get_loan(&self, loan_id: BytesN<32>) -> (r: Result<Loan, Error>)
        ensures
            r == (if self@.config is None {
                Err(Error::NotInitialized)
            } else if self@.loans.contains_key(loan_id) {
                Ok(self@.loans[loan_id])
            } else {
                Err(Error::LoanNotFound)
            }),
    {
        if self.config.is_none() {
            return Err(Error::NotInitialized);
        }
        match self.loans.read(&loan_id) {
            Some(loan) => Ok(loan),
            None => Err(Error::LoanNotFound),
        }
    }

    /// The parameters of the pool.
    pub fn get_config(&self) -> (r: Result<Config, Error>)
        ensures
            r == (match self@.config {
                Some(config) => Ok(config),
                None => Err(Error::NotInitialized),
            }),
    {
        match self.config {
            Some(cfg) => Ok(cfg),
            None => Err(Error::NotInitialized),
        }
    }

    /// The median of the three oracles' prices, while all three are fresh.
    pub fn get_price(&self, e: &Env) -> (r: Result<i128, Error>)
        ensures
            match r {
                Ok(price) => {
                    &&& self@.config is Some
                    &&& self@.all_fresh(e.sequence)
                    &&& price == self@.median_price()
                },
                Err(error) => if self@.config is None {
                    error == Error::NotInitialized
                } else {
                    !self@.all_fresh(e.sequence) && error == Error::StalePrices
                },
            },
    {
        match self.config {
            Some(cfg) => self.get_median_price(e, &cfg),
            None => Err(Error::NotInitialized),
        }
    }

    fn get_median_price(&self, e: &Env, cfg: &Config) -> (r: Result<i128, Error>)
        requires
            self@.config == Some(*cfg),
        ensures
            match r {
                Ok(price) => self@.all_fresh(e.sequence) && price == self@.median_price(),
                Err(error) => !self@.all_fresh(e.sequence) && error == Error::StalePrices,
            },
    {
        let now: u32 = e.sequence;
        let p1 = match self.prices.read(&cfg.oracle_1) {
            Some(entry) => entry,
            None => return Err(Error::StalePrices),
        };
        let p2 = match self.prices.read(&cfg.oracle_2) {
            Some(entry) => entry,
            None => return Err(Error::StalePrices),
        };
        let p3 = match self.prices.read(&cfg.oracle_3) {
            Some(entry) => entry,
            None => return Err(Error::StalePrices),
        };
        if elapsed(now, p1.submitted_at) > cfg.max_price_age_ledgers || elapsed(
            now,
            p2.submitted_at,
        ) > cfg.max_price_age_ledgers || elapsed(now, p3.submitted_at)
            > cfg.max_price_age_ledgers {
            return Err(Error::StalePrices);
        }
        Ok(median3(p1.price, p2.price, p3.price))
    }
}

} // verus!
