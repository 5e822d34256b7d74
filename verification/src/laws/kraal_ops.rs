//! What each operation of the lending pool decides and changes, in terms of what
//! is on record and what is asked.

use vstd::prelude::*;
use crate::host::{Address, BytesN};
use crate::laws::arithmetic::{law_four_bytes, law_quotient_leaves_a_remainder};
use crate::laws::kraal::law_median_is_the_middle;
use crate::stellarkraal::{
    accrued_loan, asset_seed, can_accrue, can_seize, closed_loan, health, interest, ledgers_since,
    loan_can_accrue, loan_seed, principal_limit, seizure,
};
use crate::stellarkraal::{Asset, Config, Error, KraalState, Loan, StellarKraal};

verus! {

// ---- Prices ----

/// The pool's price is one of the three oracles' last prices. At least two of
/// the three are no larger than it, and at least two no smaller, in whatever
/// ledgers they were submitted.
pub proof fn law_price_is_the_middle_of_the_last_three(state: KraalState, config: Config)
    requires
        state.config == Some(config),
    ensures
        ({
            let a = state.prices[config.oracle_1].price as int;
            let b = state.prices[config.oracle_2].price as int;
            let c = state.prices[config.oracle_3].price as int;
            let price = state.median_price();
            &&& price == a || price == b || price == c
            &&& (a <= price && b <= price) || (a <= price && c <= price) || (b <= price && c
                <= price)
            &&& (a >= price && b >= price) || (a >= price && c >= price) || (b >= price && c
                >= price)
        }),
{
    law_median_is_the_middle(
        state.prices[config.oracle_1].price as int,
        state.prices[config.oracle_2].price as int,
        state.prices[config.oracle_3].price as int,
    );
}

/// The price does not depend on when the prices were submitted, nor on the
/// pool's other parameters, assets and loans.
pub proof fn law_price_depends_on_prices_alone(
    state: KraalState,
    config: Config,
    other: KraalState,
    other_config: Config,
)
    requires
        state.config == Some(config),
        other.config == Some(other_config),
        state.prices[config.oracle_1].price == other.prices[other_config.oracle_1].price,
        state.prices[config.oracle_2].price == other.prices[other_config.oracle_2].price,
        state.prices[config.oracle_3].price == other.prices[other_config.oracle_3].price,
    ensures
        state.median_price() == other.median_price(),
{
}

/// A price counts while it is no older than the limit, and a price from a ledger
/// that lies ahead counts too.
pub proof fn law_price_counts_up_to_its_age(
    state: KraalState,
    config: Config,
    now: u32,
    oracle: Address,
)
    requires
        state.config == Some(config),
    ensures
        state.fresh(now, oracle) <==> state.prices.contains_key(oracle) && now
            <= state.prices[oracle].submitted_at + config.max_price_age_ledgers,
{
}

/// There is a price where the last prices of all three oracles count.
pub proof fn law_price_needs_all_three(state: KraalState, config: Config, now: u32)
    requires
        state.config == Some(config),
    ensures
        state.all_fresh(now) <==> {
            &&& state.prices.contains_key(config.oracle_1)
            &&& state.prices.contains_key(config.oracle_2)
            &&& state.prices.contains_key(config.oracle_3)
            &&& now <= state.prices[config.oracle_1].submitted_at + config.max_price_age_ledgers
            &&& now <= state.prices[config.oracle_2].submitted_at + config.max_price_age_ledgers
            &&& now <= state.prices[config.oracle_3].submitted_at + config.max_price_age_ledgers
        },
{
}

/// The three configured oracles are trusted, and nobody else.
pub proof fn law_three_oracles_are_trusted(state: KraalState, config: Config, oracle: Address)
    ensures
        state.config == Some(config) ==> (state.trusts(oracle) <==> oracle == config.oracle_1
            || oracle == config.oracle_2 || oracle == config.oracle_3),
        state.config is None ==> !state.trusts(oracle),
{
}

/// A submitted price stands under its oracle with the ledger of its submission.
/// Nothing else changes.
pub proof fn law_price_is_put_on_record(state: KraalState, now: u32, oracle: Address, price: i128)
    ensures
        ({
            let done = state.priced(now, oracle, price);
            &&& done.prices.dom() =~= state.prices.dom().insert(oracle)
            &&& done.prices[oracle].price == price
            &&& done.prices[oracle].submitted_at == now
            &&& forall|o: Address| o != oracle ==> #[trigger] done.prices[o] == state.prices[o]
            &&& done.config == state.config
            &&& done.assets == state.assets
            &&& done.loans == state.loans
        }),
{
}

// ---- Setup ----

/// A pool starts with nothing on record.
pub proof fn law_pool_starts_empty(id: BytesN<32>, oracle: Address)
    ensures
        KraalState::empty().config is None,
        !KraalState::empty().prices.contains_key(oracle),
        !KraalState::empty().assets.contains_key(id),
        !KraalState::empty().loans.contains_key(id),
{
}

/// The setup records the parameters as they are given, and nothing else.
pub proof fn law_setup_records_the_parameters(state: KraalState, config: Config)
    ensures
        state.initialized(config).config == Some(config),
        state.initialized(config).prices == state.prices,
        state.initialized(config).assets == state.assets,
        state.initialized(config).loans == state.loans,
{
}

/// What is on record is what the tables of the pool hold.
pub proof fn law_pool_is_what_its_tables_hold(pool: StellarKraal)
    ensures
        pool@.config == pool.config,
        pool@.prices == pool.prices@,
        pool@.assets == pool.assets@,
        pool@.loans == pool.loans@,
{
}

/// A registered asset stands under its identifier as it is given. Nothing else
/// changes.
pub proof fn law_asset_is_put_on_record(state: KraalState, asset_id: BytesN<32>, asset: Asset)
    ensures
        ({
            let done = state.with_asset(asset_id, asset);
            &&& done.assets.dom() =~= state.assets.dom().insert(asset_id)
            &&& done.assets[asset_id] == asset
            &&& forall|id: BytesN<32>|
                id != asset_id ==> #[trigger] done.assets[id] == state.assets[id]
            &&& done.config == state.config
            &&& done.prices == state.prices
            &&& done.loans == state.loans
        }),
{
}

/// An asset's identifier comes from the four bytes of its ledger's number, a
/// loan's from those of its ledger's number and its asset's identifier.
pub proof fn law_seeds_spell_ledger_and_asset(sequence: u32, asset_id: BytesN<32>)
    ensures
        ({
            let ledger = seq![
                (sequence / 0x100_0000) as u8,
                (sequence / 0x1_0000 % 256) as u8,
                (sequence / 0x100 % 256) as u8,
                (sequence % 256) as u8,
            ];
            &&& asset_seed(sequence) == ledger
            &&& loan_seed(sequence, asset_id) == ledger + asset_id.bytes@
        }),
{
    law_four_bytes(sequence);
}

// ---- Interest ----

/// The ledgers since an earlier one are those in between; since a later one
/// there are none.
pub proof fn law_ledgers_since(now: u32, then: u32)
    ensures
        now >= then ==> ledgers_since(now, then) + then == now,
        now < then ==> ledgers_since(now, then) == 0,
{
}

/// The interest falls short of balance times rate times ledgers, over ten
/// thousand years' parts, by less than one part, toward zero.
pub proof fn law_interest_is_proportional(balance: int, rate_bps: int, ledgers: int)
    ensures
        ({
            let due = interest(balance, rate_bps, ledgers);
            let rest = balance * rate_bps * ledgers - 63_072_000_000 * due;
            &&& balance * rate_bps * ledgers >= 0 ==> 0 <= rest < 63_072_000_000
            &&& balance * rate_bps * ledgers <= 0 ==> -63_072_000_000 < rest <= 0
        }),
{
}

/// Interest can be added where each of the products and the sum fits.
pub proof fn law_interest_needs_room(balance: int, rate_bps: int, ledgers: int)
    ensures
        can_accrue(balance, rate_bps, ledgers) <==> {
            &&& i128::MIN <= balance * rate_bps <= i128::MAX
            &&& i128::MIN <= balance * rate_bps * ledgers <= i128::MAX
            &&& i128::MIN <= balance + interest(balance, rate_bps, ledgers) <= i128::MAX
        },
{
}

/// A loan with its interest owes its open balance and the interest on that
/// balance for the ledgers since it was last updated. Nothing else of the loan
/// changes but the ledger of the update.
pub proof fn law_open_balance_bears_the_interest(
    state: KraalState,
    config: Config,
    now: u32,
    loan_id: BytesN<32>,
)
    requires
        state.config == Some(config),
        state.loan_refusal(now, loan_id) is None,
    ensures
        ({
            let loan = state.loans[loan_id];
            let grown = state.accrued(now, loan_id);
            let ledgers: int = if now >= loan.updated_at {
                now - loan.updated_at
            } else {
                0
            };
            let product = loan.balance * config.interest_rate_bps * ledgers;
            let rest = product - 63_072_000_000 * (grown.balance - loan.balance);
            &&& product >= 0 ==> 0 <= rest < 63_072_000_000
            &&& product <= 0 ==> -63_072_000_000 < rest <= 0
            &&& grown.updated_at == now
            &&& grown.borrower == loan.borrower
            &&& grown.asset_id == loan.asset_id
            &&& grown.principal == loan.principal
            &&& grown.opened_at == loan.opened_at
            &&& grown.active == loan.active
        }),
{
}

/// Two loans with the same open balance, updated in the same ledger, owe the
/// same at the same rate, whatever was lent and to whom.
pub proof fn law_debt_depends_on_the_open_balance(
    config: Config,
    loan: Loan,
    other_config: Config,
    other: Loan,
    now: u32,
)
    requires
        loan.balance == other.balance,
        loan.updated_at == other.updated_at,
        config.interest_rate_bps == other_config.interest_rate_bps,
    ensures
        accrued_loan(config, loan, now).balance == accrued_loan(other_config, other, now).balance,
        loan_can_accrue(config, loan, now) == loan_can_accrue(other_config, other, now),
{
}

// ---- Opening a loan ----

/// An asset secures a share of its appraised value: ten thousand times the limit
/// is the value times the ratio, but for less than ten thousand, toward zero.
pub proof fn law_limit_is_a_share_of_the_value(config: Config, asset: Asset)
    ensures
        ({
            let product = asset.appraised_value_xlm * config.collateral_ratio_bps;
            let rest = product - 10_000 * principal_limit(config, asset);
            &&& product >= 0 ==> 0 <= rest < 10_000
            &&& product <= 0 ==> -10_000 < rest <= 0
        }),
{
}

/// Why a loan is refused, and when it is granted.
pub proof fn law_when_a_loan_is_granted(
    state: KraalState,
    config: Config,
    asset_id: BytesN<32>,
    principal: i128,
)
    ensures
        ({
            let refusal = state.open_loan_refusal(asset_id, principal);
            let asset = state.assets[asset_id];
            let free = state.assets.contains_key(asset_id) && !asset.on_loan;
            let product = asset.appraised_value_xlm * config.collateral_ratio_bps;
            let room = i128::MIN <= product <= i128::MAX;
            let over = if product >= 0 {
                principal * 10_000 > product
            } else {
                (principal - 1) * 10_000 >= product
            };
            let balance = principal + config.creation_fee_stroops;
            &&& state.config is None ==> refusal == Some(Error::NotInitialized)
            &&& state.config == Some(config) ==> {
                &&& refusal == Some(Error::AssetNotFound) <==> !state.assets.contains_key(asset_id)
                &&& refusal == Some(Error::AssetAlreadyOnLoan) <==> state.assets.contains_key(
                    asset_id,
                ) && asset.on_loan
                &&& refusal == Some(Error::PrincipalExceedsLtv) <==> free && room && over
                &&& refusal == Some(Error::ArithmeticError) <==> free && (!room || (!over && !(
                i128::MIN <= balance <= i128::MAX)))
                &&& refusal is None <==> free && room && !over && i128::MIN <= balance <= i128::MAX
            }
        }),
{
}

/// What a granted loan puts on record: the loan, as large as was asked and with
/// the creation fee on its balance, and the mark on its asset. Nothing else
/// changes.
pub proof fn law_granted_loan_is_put_on_record(
    state: KraalState,
    config: Config,
    now: u32,
    loan_id: BytesN<32>,
    borrower: Address,
    asset_id: BytesN<32>,
    principal: i128,
)
    requires
        state.config == Some(config),
        state.assets.contains_key(asset_id),
        i128::MIN <= principal + config.creation_fee_stroops <= i128::MAX,
    ensures
        ({
            let done = state.loan_opened(now, loan_id, borrower, asset_id, principal);
            let loan = done.loans[loan_id];
            let asset = done.assets[asset_id];
            &&& loan.borrower == borrower
            &&& loan.asset_id == asset_id
            &&& loan.principal == principal
            &&& loan.balance == principal + config.creation_fee_stroops
            &&& loan.opened_at == now
            &&& loan.updated_at == now
            &&& loan.active
            &&& asset.on_loan
            &&& asset.owner == state.assets[asset_id].owner
            &&& asset.animal_type == state.assets[asset_id].animal_type
            &&& asset.tag_id == state.assets[asset_id].tag_id
            &&& asset.appraised_value_xlm == state.assets[asset_id].appraised_value_xlm
            &&& done.loans.dom() =~= state.loans.dom().insert(loan_id)
            &&& done.assets.dom() =~= state.assets.dom()
            &&& forall|id: BytesN<32>|
                id != loan_id ==> #[trigger] done.loans[id] == state.loans[id]
            &&& forall|id: BytesN<32>|
                id != asset_id ==> #[trigger] done.assets[id] == state.assets[id]
            &&& done.config == state.config
            &&& done.prices == state.prices
        }),
{
}

// ---- Repayment ----

/// A loan can be repaid or liquidated where it is on record and open, and its
/// interest can be added.
pub proof fn law_when_a_loan_can_be_closed(
    state: KraalState,
    config: Config,
    now: u32,
    loan_id: BytesN<32>,
)
    ensures
        ({
            let refusal = state.loan_refusal(now, loan_id);
            let loan = state.loans[loan_id];
            let ledgers: int = if now >= loan.updated_at {
                now - loan.updated_at
            } else {
                0
            };
            let open = state.loans.contains_key(loan_id) && loan.active;
            let scaled = loan.balance * config.interest_rate_bps;
            let grown = loan.balance + interest(
                loan.balance as int,
                config.interest_rate_bps as int,
                ledgers,
            );
            let room = i128::MIN <= scaled <= i128::MAX && i128::MIN <= scaled * ledgers
                <= i128::MAX && i128::MIN <= grown <= i128::MAX;
            &&& state.config is None ==> refusal == Some(Error::NotInitialized)
            &&& state.config == Some(config) ==> {
                &&& refusal == Some(Error::LoanNotFound) <==> !state.loans.contains_key(loan_id)
                &&& refusal == Some(Error::LoanNotActive) <==> state.loans.contains_key(loan_id)
                    && !loan.active
                &&& refusal == Some(Error::ArithmeticError) <==> open && !room
                &&& refusal is None <==> open && room
            }
        }),
{
}

/// A repayment is refused for the loan's sake, or where it covers the debt and
/// the asset is not on record. Otherwise it goes through, whatever its size.
pub proof fn law_when_a_repayment_goes_through(
    state: KraalState,
    now: u32,
    loan_id: BytesN<32>,
    repayment: i128,
)
    ensures
        ({
            let refusal = state.repay_refusal(now, loan_id, repayment);
            let covered = repayment >= state.accrued(now, loan_id).balance;
            let lost = !state.assets.contains_key(state.loans[loan_id].asset_id);
            &&& state.loan_refusal(now, loan_id) is Some ==> refusal == state.loan_refusal(
                now,
                loan_id,
            )
            &&& state.loan_refusal(now, loan_id) is None ==> {
                &&& refusal == Some(Error::AssetNotFound) <==> covered && lost
                &&& refusal is None <==> !(covered && lost)
            }
        }),
{
}

/// A repayment takes what is paid off the debt with its interest. Where it
/// covers the debt, nothing is left, the loan is closed and its asset free.
/// Where it does not, the rest is left, the loan open and the asset as it was.
/// Nothing else changes.
pub proof fn law_repayment_is_taken_off_the_debt(
    state: KraalState,
    now: u32,
    loan_id: BytesN<32>,
    repayment: i128,
)
    requires
        state.repay_refusal(now, loan_id, repayment) is None,
    ensures
        ({
            let done = state.loan_repaid(now, loan_id, repayment);
            let before = state.loans[loan_id];
            let after = done.loans[loan_id];
            let asset_id = before.asset_id;
            let debt = state.accrued(now, loan_id).balance;
            &&& repayment >= debt ==> {
                &&& after.balance == 0
                &&& !after.active
                &&& !done.assets[asset_id].on_loan
                &&& done.assets[asset_id].owner == state.assets[asset_id].owner
                &&& done.assets[asset_id].animal_type == state.assets[asset_id].animal_type
                &&& done.assets[asset_id].tag_id == state.assets[asset_id].tag_id
                &&& done.assets[asset_id].appraised_value_xlm
                    == state.assets[asset_id].appraised_value_xlm
                &&& done.assets.dom() =~= state.assets.dom()
                &&& forall|id: BytesN<32>|
                    id != asset_id ==> #[trigger] done.assets[id] == state.assets[id]
            }
            &&& repayment < debt ==> {
                &&& debt - repayment <= i128::MAX ==> after.balance + repayment == debt
                &&& debt - repayment > i128::MAX ==> after.balance == i128::MAX
                &&& after.active
                &&& done.assets == state.assets
            }
            &&& after.updated_at == now
            &&& after.borrower == before.borrower
            &&& after.asset_id == before.asset_id
            &&& after.principal == before.principal
            &&& after.opened_at == before.opened_at
            &&& done.loans.dom() =~= state.loans.dom()
            &&& forall|id: BytesN<32>|
                id != loan_id ==> #[trigger] done.loans[id] == state.loans[id]
            &&& done.config == state.config
            &&& done.prices == state.prices
        }),
{
}

/// A closed loan keeps everything but its balance, which is nothing, and its
/// being open.
pub proof fn law_closed_loan_owes_nothing(loan: Loan)
    ensures
        closed_loan(loan).balance == 0,
        !closed_loan(loan).active,
        closed_loan(loan).borrower == loan.borrower,
        closed_loan(loan).asset_id == loan.asset_id,
        closed_loan(loan).principal == loan.principal,
        closed_loan(loan).opened_at == loan.opened_at,
        closed_loan(loan).updated_at == loan.updated_at,
{
}

// ---- Liquidation ----

/// The health factor is the asset's full appraised value times the threshold
/// times a hundred, over the balance times ten thousand: the one number that
/// leaves less than a whole balance over, toward zero. It is there where the
/// asset is on record and the products fit.
pub proof fn law_health_weighs_value_against_balance(
    state: KraalState,
    config: Config,
    loan: Loan,
)
    ensures
        ({
            let factor = health(state, config, loan);
            let value = state.assets[loan.asset_id].appraised_value_xlm;
            let weighted = value * config.liquidation_threshold_bps * 100;
            let owed = loan.balance * 10_000;
            let room = i128::MIN <= value * config.liquidation_threshold_bps <= i128::MAX
                && i128::MIN <= weighted <= i128::MAX && i128::MIN <= owed <= i128::MAX;
            let rest = weighted - owed * factor->Ok_0;
            &&& loan.balance == 0 ==> factor == Ok::<int, Error>(i128::MAX as int)
            &&& loan.balance != 0 && !state.assets.contains_key(loan.asset_id) ==> factor == Err::<
                int,
                Error,
            >(Error::AssetNotFound)
            &&& loan.balance != 0 && state.assets.contains_key(loan.asset_id) && !room ==> factor
                == Err::<int, Error>(Error::ArithmeticError)
            &&& loan.balance != 0 && state.assets.contains_key(loan.asset_id) && room ==> {
                &&& factor is Ok
                &&& weighted >= 0 ==> rest >= 0
                &&& weighted <= 0 ==> rest <= 0
                &&& owed > 0 ==> -owed < rest < owed
                &&& owed < 0 ==> owed < rest < -owed
            }
        }),
{
    if loan.balance != 0 {
        law_quotient_leaves_a_remainder(
            state.assets[loan.asset_id].appraised_value_xlm * config.liquidation_threshold_bps
                * 100,
            loan.balance * 10_000,
        );
    }
}

/// The bounds of the health factor of a loan with something to pay: it times the
/// balance does not exceed the weighted value, and one more would.
pub proof fn law_health_is_bounded_by_the_value(state: KraalState, config: Config, loan: Loan)
    requires
        loan.balance > 0,
        config.liquidation_threshold_bps >= 0,
        state.assets[loan.asset_id].appraised_value_xlm >= 0,
        health(state, config, loan) is Ok,
    ensures
        ({
            let factor = health(state, config, loan)->Ok_0;
            let weighted = state.assets[loan.asset_id].appraised_value_xlm
                * config.liquidation_threshold_bps * 100;
            factor * loan.balance * 10_000 <= weighted < (factor + 1) * loan.balance * 10_000
        }),
{
    let factor = health(state, config, loan)->Ok_0;
    let value = state.assets[loan.asset_id].appraised_value_xlm as int;
    let threshold = config.liquidation_threshold_bps as int;
    let weighted = value * threshold * 100;
    let balance = loan.balance as int;
    assert(value * threshold >= 0) by (nonlinear_arith)
        requires
            value >= 0,
            threshold >= 0,
    ;
    law_health_weighs_value_against_balance(state, config, loan);
    assert((balance * 10_000) * factor == factor * balance * 10_000) by (nonlinear_arith);
    assert((factor + 1) * balance * 10_000 == factor * balance * 10_000 + balance * 10_000)
        by (nonlinear_arith);
}

/// When a loan can be liquidated: it is refused as safe exactly where nothing is
/// owed, or the weighted value of its asset is at least 120 hundredths of the
/// debt with its interest.
pub proof fn law_when_a_loan_is_liquidated(
    state: KraalState,
    config: Config,
    now: u32,
    loan_id: BytesN<32>,
)
    requires
        state.config == Some(config),
    ensures
        ({
            let refusal = state.liquidate_refusal(now, loan_id);
            let debt = state.accrued(now, loan_id).balance;
            let asset_id = state.loans[loan_id].asset_id;
            let known = state.assets.contains_key(asset_id);
            let value = state.assets[asset_id].appraised_value_xlm;
            let weighted = value * config.liquidation_threshold_bps * 100;
            let owed = debt * 10_000;
            let room = i128::MIN <= value * config.liquidation_threshold_bps <= i128::MAX
                && i128::MIN <= weighted <= i128::MAX && i128::MIN <= owed <= i128::MAX;
            let safe = (debt > 0 && weighted >= 120 * owed) || (debt < 0 && weighted <= 120 * owed);
            let share = 10_000 + config.liquidation_bonus_bps;
            let payable = share <= i128::MAX && i128::MIN <= debt * share <= i128::MAX;
            &&& state.loan_refusal(now, loan_id) is Some ==> refusal == state.loan_refusal(
                now,
                loan_id,
            )
            &&& state.loan_refusal(now, loan_id) is None ==> {
                &&& refusal == Some(Error::HealthFactorSafe) <==> debt == 0 || (known && room
                    && safe)
                &&& refusal == Some(Error::AssetNotFound) <==> debt != 0 && !known
                &&& refusal == Some(Error::ArithmeticError) <==> debt != 0 && known && (!room || (
                !safe && !payable))
                &&& refusal is None <==> debt != 0 && known && room && !safe && payable
            }
        }),
{
    if state.loan_refusal(now, loan_id) is None {
        let loan = state.accrued(now, loan_id);
        law_health_weighs_value_against_balance(state, config, loan);
        if loan.balance != 0 && health(state, config, loan) is Ok {
            let factor = health(state, config, loan)->Ok_0;
            let owed = loan.balance * 10_000;
            let weighted = state.assets[loan.asset_id].appraised_value_xlm
                * config.liquidation_threshold_bps * 100;
            let rest = weighted - owed * factor;
            assert(owed > 0 && (weighted >= 0 ==> rest >= 0) && (weighted <= 0 ==> rest <= 0)
                && -owed < rest < owed ==> (factor >= 120 <==> weighted >= 120 * owed))
                by (nonlinear_arith)
                requires
                    weighted == owed * factor + rest,
            ;
            assert(owed < 0 && (weighted >= 0 ==> rest >= 0) && (weighted <= 0 ==> rest <= 0)
                && owed < rest < -owed ==> (factor >= 120 <==> weighted <= 120 * owed))
                by (nonlinear_arith)
                requires
                    weighted == owed * factor + rest,
            ;
        }
    }
}

/// A liquidator is owed the balance and the bonus on it: ten thousand times the
/// sum is the balance times ten thousand and the bonus, but for less than ten
/// thousand, toward zero.
pub proof fn law_seizure_is_balance_and_bonus(config: Config, balance: int)
    ensures
        ({
            let product = balance * (10_000 + config.liquidation_bonus_bps);
            let rest = product - 10_000 * seizure(config, balance);
            &&& product >= 0 ==> 0 <= rest < 10_000
            &&& product <= 0 ==> -10_000 < rest <= 0
        }),
        can_seize(config, balance) <==> {
            &&& 10_000 + config.liquidation_bonus_bps <= i128::MAX
            &&& i128::MIN <= balance * (10_000 + config.liquidation_bonus_bps) <= i128::MAX
        },
{
}

/// A liquidation closes the loan with nothing left to pay, frees its asset, and
/// changes nothing else.
pub proof fn law_liquidation_closes_the_loan(state: KraalState, now: u32, loan_id: BytesN<32>)
    requires
        state.liquidate_refusal(now, loan_id) is None,
    ensures
        ({
            let done = state.loan_liquidated(now, loan_id);
            let before = state.loans[loan_id];
            let after = done.loans[loan_id];
            let asset_id = before.asset_id;
            &&& after.balance == 0
            &&& !after.active
            &&& after.updated_at == now
            &&& after.borrower == before.borrower
            &&& after.asset_id == before.asset_id
            &&& after.principal == before.principal
            &&& after.opened_at == before.opened_at
            &&& !done.assets[asset_id].on_loan
            &&& done.assets[asset_id].owner == state.assets[asset_id].owner
            &&& done.assets[asset_id].animal_type == state.assets[asset_id].animal_type
            &&& done.assets[asset_id].tag_id == state.assets[asset_id].tag_id
            &&& done.assets[asset_id].appraised_value_xlm
                == state.assets[asset_id].appraised_value_xlm
            &&& done.assets.dom() =~= state.assets.dom()
            &&& done.loans.dom() =~= state.loans.dom()
            &&& forall|id: BytesN<32>|
                id != loan_id ==> #[trigger] done.loans[id] == state.loans[id]
            &&& forall|id: BytesN<32>|
                id != asset_id ==> #[trigger] done.assets[id] == state.assets[id]
            &&& done.config == state.config
            &&& done.prices == state.prices
        }),
{
}

} // verus!
