//! Laws of the lending pool.

use vstd::prelude::*;
use vstd::arithmetic::div_mod::{
    lemma_div_is_ordered, lemma_div_is_ordered_by_denominator, lemma_div_multiples_vanish_quotient,
};
use crate::crypto::{digests_collide, sha256_digest};
use crate::host::{Address, BytesN};
use crate::numeric::{be_bytes, byte_range, fits, lemma_be_bytes_injective, lemma_be_bytes_len};
use crate::numeric::lemma_split;
use crate::stellarkraal::{
    accrued_loan, asset_seed, can_accrue, closed_loan, health, interest, loan_seed, median,
    principal_limit, seizure,
};
use crate::stellarkraal::{Asset, Config, Error, KraalState, Loan, LEDGERS_PER_YEAR};

verus! {

// ---- Prices ----

/// The median of three values is one of them. At least two of the three are no
/// larger than it, and at least two no smaller.
pub proof fn law_median_is_the_middle(a: int, b: int, c: int)
    ensures
        median(a, b, c) == a || median(a, b, c) == b || median(a, b, c) == c,
        (a <= median(a, b, c) && b <= median(a, b, c)) || (a <= median(a, b, c) && c <= median(
            a,
            b,
            c,
        )) || (b <= median(a, b, c) && c <= median(a, b, c)),
        (a >= median(a, b, c) && b >= median(a, b, c)) || (a >= median(a, b, c) && c >= median(
            a,
            b,
            c,
        )) || (b >= median(a, b, c) && c >= median(a, b, c)),
{
}

/// The median does not depend on the order of its arguments.
pub proof fn law_median_ignores_order(a: int, b: int, c: int)
    ensures
        median(a, b, c) == median(b, a, c),
        median(a, b, c) == median(a, c, b),
        median(a, b, c) == median(c, b, a),
{
}

/// One oracle cannot move the price beyond what the other two report.
pub proof fn law_one_oracle_cannot_move_the_median(honest_1: int, honest_2: int, rogue: int)
    requires
        honest_1 <= honest_2,
    ensures
        honest_1 <= median(honest_1, honest_2, rogue) <= honest_2,
{
}

/// Once each of three distinct oracles has submitted a price in one ledger, the
/// price stands until the prices are older than the limit, to the ledger. It is
/// the median of the three.
pub proof fn law_complete_round_sets_price(
    state: KraalState,
    now: u32,
    later: u32,
    price_1: i128,
    price_2: i128,
    price_3: i128,
)
    requires
        state.config matches Some(config) && config.oracle_1 != config.oracle_2 && config.oracle_2
            != config.oracle_3 && config.oracle_1 != config.oracle_3,
        now <= later,
    ensures
        ({
            let config = state.config->0;
            let round = state.priced(now, config.oracle_1, price_1).priced(
                now,
                config.oracle_2,
                price_2,
            ).priced(now, config.oracle_3, price_3);
            &&& round.all_fresh(later) <==> later - now <= config.max_price_age_ledgers
            &&& round.median_price() == median(price_1 as int, price_2 as int, price_3 as int)
        }),
{
}

/// A price from one oracle leaves the other oracles' prices as they were, so it
/// cannot make up for a price of theirs that is missing or stale.
pub proof fn law_oracles_do_not_stand_in_for_each_other(
    state: KraalState,
    now: u32,
    oracle: Address,
    other: Address,
    price: i128,
)
    requires
        state.config is Some,
        oracle != other,
    ensures
        state.priced(now, oracle, price).fresh(now, other) == state.fresh(now, other),
        state.trusts(other) && !state.fresh(now, other) ==> !state.priced(
            now,
            oracle,
            price,
        ).all_fresh(now),
{
}

// ---- Interest ----

/// No interest accrues within one ledger.
pub proof fn law_no_interest_within_a_ledger(balance: int, rate_bps: int)
    ensures
        interest(balance, rate_bps, 0) == 0,
{
    assert(balance * rate_bps * 0 == 0) by (nonlinear_arith);
    assert(0int / (10_000 * LEDGERS_PER_YEAR as int) == 0);
}

/// Over one year the interest is the yearly rate's share of the balance.
pub proof fn law_interest_over_a_year(balance: int, rate_bps: int)
    requires
        balance >= 0,
        rate_bps >= 0,
    ensures
        interest(balance, rate_bps, LEDGERS_PER_YEAR as int) == balance * rate_bps / 10_000,
{
    let year = LEDGERS_PER_YEAR as int;
    assert(balance * rate_bps >= 0) by (nonlinear_arith)
        requires
            balance >= 0,
            rate_bps >= 0,
    ;
    let scaled = balance * rate_bps;
    assert(scaled * year >= 0) by (nonlinear_arith)
        requires
            scaled >= 0,
            year > 0,
    ;
    assert(year * scaled == scaled * year) by (nonlinear_arith);
    lemma_div_multiples_vanish_quotient(year, scaled, 10_000);
}

/// Interest is never negative and grows with time, on a balance and at a rate
/// that are not negative.
pub proof fn law_interest_grows_with_time(balance: int, rate_bps: int, fewer: int, more: int)
    requires
        balance >= 0,
        rate_bps >= 0,
        0 <= fewer <= more,
    ensures
        0 <= interest(balance, rate_bps, fewer) <= interest(balance, rate_bps, more),
{
    let scaled = balance * rate_bps;
    assert(scaled >= 0) by (nonlinear_arith)
        requires
            balance >= 0,
            rate_bps >= 0,
            scaled == balance * rate_bps,
    ;
    assert(0 <= scaled * fewer <= scaled * more) by (nonlinear_arith)
        requires
            scaled >= 0,
            0 <= fewer <= more,
    ;
    lemma_div_is_ordered(scaled * fewer, scaled * more, 10_000 * LEDGERS_PER_YEAR as int);
    lemma_div_is_ordered(0, scaled * fewer, 10_000 * LEDGERS_PER_YEAR as int);
}

/// A larger balance bears at least as much interest.
pub proof fn law_interest_grows_with_balance(
    smaller: int,
    larger: int,
    rate_bps: int,
    ledgers: int,
)
    requires
        0 <= smaller <= larger,
        rate_bps >= 0,
        ledgers >= 0,
    ensures
        interest(smaller, rate_bps, ledgers) <= interest(larger, rate_bps, ledgers),
{
    assert(0 <= smaller * rate_bps <= larger * rate_bps) by (nonlinear_arith)
        requires
            0 <= smaller <= larger,
            rate_bps >= 0,
    ;
    let low = smaller * rate_bps;
    let high = larger * rate_bps;
    assert(0 <= low * ledgers <= high * ledgers) by (nonlinear_arith)
        requires
            0 <= low <= high,
            ledgers >= 0,
    ;
    lemma_div_is_ordered(low * ledgers, high * ledgers, 10_000 * LEDGERS_PER_YEAR as int);
}

// ---- Loans ----

/// A loan that is granted stays within its asset's limit, marks the asset, and
/// starts with the principal and the creation fee to pay.
pub proof fn law_loan_is_within_limit(
    state: KraalState,
    now: u32,
    loan_id: BytesN<32>,
    borrower: Address,
    asset_id: BytesN<32>,
    principal: i128,
)
    requires
        state.open_loan_refusal(asset_id, principal) is None,
    ensures
        ({
            let opened = state.loan_opened(now, loan_id, borrower, asset_id, principal);
            &&& principal <= principal_limit(state.config->0, state.assets[asset_id])
            &&& opened.loans[loan_id].active
            &&& opened.loans[loan_id].borrower == borrower
            &&& opened.loans[loan_id].balance == principal + state.config->0.creation_fee_stroops
            &&& opened.assets[asset_id].on_loan
        }),
{
}

/// An asset on loan secures no second loan, of whatever size.
pub proof fn law_asset_secures_one_loan(
    state: KraalState,
    now: u32,
    loan_id: BytesN<32>,
    borrower: Address,
    asset_id: BytesN<32>,
    principal: i128,
    second_principal: i128,
)
    requires
        state.open_loan_refusal(asset_id, principal) is None,
    ensures
        state.loan_opened(now, loan_id, borrower, asset_id, principal).open_loan_refusal(
            asset_id,
            second_principal,
        ) == Some(Error::AssetAlreadyOnLoan),
{
}

/// A payment of the balance or more closes the loan, leaves nothing to pay, and
/// frees the asset, which can then secure a loan of the same size again.
pub proof fn law_full_repayment_frees_the_asset(
    state: KraalState,
    now: u32,
    loan_id: BytesN<32>,
    repayment: i128,
)
    requires
        state.repay_refusal(now, loan_id, repayment) is None,
        repayment >= state.accrued(now, loan_id).balance,
    ensures
        ({
            let repaid = state.loan_repaid(now, loan_id, repayment);
            let asset_id = state.loans[loan_id].asset_id;
            &&& !repaid.loans[loan_id].active
            &&& repaid.loans[loan_id].balance == 0
            &&& !repaid.assets[asset_id].on_loan
            &&& forall|principal: i128| #[trigger]
                repaid.open_loan_refusal(asset_id, principal) != Some(Error::AssetAlreadyOnLoan)
        }),
{
}

/// A payment below the balance leaves the loan open with the rest to pay, and
/// its asset as it was.
pub proof fn law_partial_repayment_keeps_the_loan(
    state: KraalState,
    now: u32,
    loan_id: BytesN<32>,
    repayment: i128,
)
    requires
        state.repay_refusal(now, loan_id, repayment) is None,
        0 <= repayment < state.accrued(now, loan_id).balance,
    ensures
        ({
            let repaid = state.loan_repaid(now, loan_id, repayment);
            &&& repaid.loans[loan_id].active
            &&& repaid.loans[loan_id].balance == state.accrued(now, loan_id).balance - repayment
            &&& repaid.assets == state.assets
        }),
{
}

/// Two payments in one ledger, the first of which does not cover the balance,
/// come to the same as one payment of their sum.
pub proof fn law_repayments_add_up(
    state: KraalState,
    now: u32,
    loan_id: BytesN<32>,
    first: i128,
    second: i128,
)
    requires
        state.repay_refusal(now, loan_id, first) is None,
        0 <= first < state.accrued(now, loan_id).balance,
        0 <= second,
        fits(first + second),
        can_accrue(
            state.accrued(now, loan_id).balance - first,
            state.config->0.interest_rate_bps as int,
            0,
        ),
    ensures
        state.loan_repaid(now, loan_id, first).repay_refusal(now, loan_id, second)
            == state.repay_refusal(now, loan_id, (first + second) as i128),
        state.loan_repaid(now, loan_id, first).repay_refusal(now, loan_id, second) is None
            ==> state.loan_repaid(now, loan_id, first).loan_repaid(now, loan_id, second)
            == state.loan_repaid(now, loan_id, (first + second) as i128),
{
    let config = state.config->0;
    let paid = state.loan_repaid(now, loan_id, first);
    let left = paid.loans[loan_id];
    law_no_interest_within_a_ledger(left.balance as int, config.interest_rate_bps as int);
    assert(left.balance == state.accrued(now, loan_id).balance - first);
    assert(accrued_loan(config, left, now) == left);
    assert(paid.loan_repaid(now, loan_id, second) =~= state.loan_repaid(
        now,
        loan_id,
        (first + second) as i128,
    ));
}

/// A loan that has been repaid or liquidated can be neither repaid nor
/// liquidated again.
pub proof fn law_closed_loan_is_final(
    state: KraalState,
    now: u32,
    loan_id: BytesN<32>,
    repayment: i128,
)
    requires
        state.config is Some,
        state.loans.contains_key(loan_id),
        !state.loans[loan_id].active,
    ensures
        state.repay_refusal(now, loan_id, repayment) == Some(Error::LoanNotActive),
        state.liquidate_refusal(now, loan_id) == Some(Error::LoanNotActive),
{
}

// ---- Liquidation ----

/// A loan is liquidated only while its health factor, on its balance with
/// interest, is below the safe mark. The loan is closed and its asset freed.
pub proof fn law_only_unhealthy_loans_are_liquidated(
    state: KraalState,
    now: u32,
    loan_id: BytesN<32>,
)
    requires
        state.liquidate_refusal(now, loan_id) is None,
    ensures
        health(state, state.config->0, state.accrued(now, loan_id)) matches Ok(factor) && factor
            < 120,
        state.loan_liquidated(now, loan_id).loans[loan_id] == closed_loan(
            state.accrued(now, loan_id),
        ),
        !state.loan_liquidated(now, loan_id).assets[state.loans[loan_id].asset_id].on_loan,
{
}

/// Nothing can be liquidated for a balance of zero.
pub proof fn law_paid_loans_are_safe(state: KraalState, now: u32, loan_id: BytesN<32>)
    requires
        state.loan_refusal(now, loan_id) is None,
        state.accrued(now, loan_id).balance == 0,
    ensures
        state.liquidate_refusal(now, loan_id) == Some(Error::HealthFactorSafe),
{
}

/// The more is owed on an asset, the lower the health factor.
pub proof fn law_health_falls_with_balance(
    state: KraalState,
    config: Config,
    smaller: Loan,
    larger: Loan,
)
    requires
        smaller.asset_id == larger.asset_id,
        0 < smaller.balance <= larger.balance,
        state.assets[smaller.asset_id].appraised_value_xlm >= 0,
        config.liquidation_threshold_bps >= 0,
        health(state, config, larger) is Ok,
    ensures
        health(state, config, smaller) matches Ok(factor) && factor >= health(
            state,
            config,
            larger,
        )->Ok_0,
{
    let value = state.assets[smaller.asset_id].appraised_value_xlm as int;
    let threshold = config.liquidation_threshold_bps as int;
    let weighted = value * threshold;
    assert(weighted >= 0) by (nonlinear_arith)
        requires
            value >= 0,
            threshold >= 0,
            weighted == value * threshold,
    ;
    lemma_div_is_ordered_by_denominator(
        weighted * 100,
        smaller.balance * 10_000,
        larger.balance * 10_000,
    );
}

/// A liquidator is owed at least the balance, where the bonus is not negative.
pub proof fn law_seizure_covers_the_balance(config: Config, balance: int)
    requires
        balance >= 0,
        config.liquidation_bonus_bps >= 0,
    ensures
        seizure(config, balance) >= balance,
{
    let share = 10_000 + config.liquidation_bonus_bps;
    assert(balance * share >= balance * 10_000) by (nonlinear_arith)
        requires
            balance >= 0,
            share >= 10_000,
    ;
    lemma_div_is_ordered(balance * 10_000, balance * share, 10_000);
}

// ---- Identifiers ----

/// Assets registered in different ledgers have different bytes under their
/// identifiers.
pub proof fn law_asset_seeds_are_distinct(sequence_1: u32, sequence_2: u32)
    requires
        asset_seed(sequence_1) == asset_seed(sequence_2),
    ensures
        sequence_1 == sequence_2,
{
    reveal_with_fuel(byte_range, 5);
    lemma_be_bytes_injective(sequence_1 as int, sequence_2 as int, 4);
}

/// Loans opened in different ledgers or on different assets have different bytes
/// under their identifiers.
pub proof fn law_loan_seeds_are_distinct(
    sequence_1: u32,
    asset_1: BytesN<32>,
    sequence_2: u32,
    asset_2: BytesN<32>,
)
    requires
        loan_seed(sequence_1, asset_1) == loan_seed(sequence_2, asset_2),
    ensures
        sequence_1 == sequence_2,
        asset_1@ == asset_2@,
{
    lemma_be_bytes_len(sequence_1 as int, 4);
    lemma_be_bytes_len(sequence_2 as int, 4);
    lemma_split(
        be_bytes(sequence_1 as int, 4),
        asset_1@,
        be_bytes(sequence_2 as int, 4),
        asset_2@,
    );
    law_asset_seeds_are_distinct(sequence_1, sequence_2);
}

/// Two assets have the same identifier only where they were registered in the
/// same ledger, or where the bytes that tell the ledgers apart have the same
/// digest. An asset under another identifier is not touched.
pub proof fn law_asset_ids_are_distinct(
    state: KraalState,
    sequence: u32,
    other_sequence: u32,
    id: BytesN<32>,
    asset: Asset,
    other: BytesN<32>,
)
    ensures
        sha256_digest(asset_seed(sequence)) == sha256_digest(asset_seed(other_sequence)) ==> sequence
            == other_sequence || digests_collide(asset_seed(sequence), asset_seed(other_sequence)),
        other != id && state.assets.contains_key(other) ==> state.with_asset(
            id,
            asset,
        ).assets.contains_key(other) && state.with_asset(id, asset).assets[other]
            == state.assets[other],
{
    if asset_seed(sequence) == asset_seed(other_sequence) {
        law_asset_seeds_are_distinct(sequence, other_sequence);
    }
}

/// Assets registered in two ledgers stand side by side, unless the bytes under
/// their identifiers have the same digest.
pub proof fn law_assets_stand_side_by_side(
    state: KraalState,
    sequence: u32,
    first: Asset,
    other_sequence: u32,
    second: Asset,
    id: BytesN<32>,
    other_id: BytesN<32>,
)
    requires
        sequence != other_sequence,
    ensures
        ({
            let done = state.with_asset(id, first).with_asset(other_id, second);
            id@ == sha256_digest(asset_seed(sequence)) && other_id@ == sha256_digest(
                asset_seed(other_sequence),
            ) && !digests_collide(asset_seed(sequence), asset_seed(other_sequence)) ==> id
                != other_id && done.assets[id] == first && done.assets[other_id] == second
        }),
{
    law_asset_ids_are_distinct(state, sequence, other_sequence, id, first, other_id);
}

/// Two loans have the same identifier only where they were opened in the same
/// ledger on the same asset, or where the bytes that tell them apart have the
/// same digest.
pub proof fn law_loan_ids_are_distinct(
    sequence: u32,
    asset_id: BytesN<32>,
    other_sequence: u32,
    other_asset_id: BytesN<32>,
)
    ensures
        ({
            let bytes = loan_seed(sequence, asset_id);
            let other_bytes = loan_seed(other_sequence, other_asset_id);
            sha256_digest(bytes) == sha256_digest(other_bytes) ==> digests_collide(
                bytes,
                other_bytes,
            ) || (sequence == other_sequence && asset_id@ == other_asset_id@)
        }),
{
    if loan_seed(sequence, asset_id) == loan_seed(other_sequence, other_asset_id) {
        law_loan_seeds_are_distinct(sequence, asset_id, other_sequence, other_asset_id);
    }
}

// ---- Histories ----

/// A request to the pool. A new asset or loan comes with the identifier that it
/// is given.
pub enum Request {
    Initialize { config: Config },
    RegisterAsset { asset_id: BytesN<32>, asset: Asset },
    OpenLoan {
        now: u32,
        loan_id: BytesN<32>,
        borrower: Address,
        asset_id: BytesN<32>,
        principal: i128,
    },
    Repay { now: u32, loan_id: BytesN<32>, repayment: i128 },
    Liquidate { now: u32, loan_id: BytesN<32> },
    SubmitPrice { now: u32, oracle: Address, price: i128 },
}

/// The state after a request, which a refused request leaves as it was.
pub open spec fn after(state: KraalState, request: Request) -> KraalState {
    match request {
        Request::Initialize { config } => if state.config is None {
            state.initialized(config)
        } else {
            state
        },
        Request::RegisterAsset { asset_id, asset } => if state.config is Some {
            state.with_asset(asset_id, Asset { on_loan: false, ..asset })
        } else {
            state
        },
        Request::OpenLoan { now, loan_id, borrower, asset_id, principal } => {
            match state.open_loan_refusal(asset_id, principal) {
                None => state.loan_opened(now, loan_id, borrower, asset_id, principal),
                Some(_) => state,
            }
        },
        Request::Repay { now, loan_id, repayment } => {
            match state.repay_refusal(now, loan_id, repayment) {
                None => state.loan_repaid(now, loan_id, repayment),
                Some(_) => state,
            }
        },
        Request::Liquidate { now, loan_id } => match state.liquidate_refusal(now, loan_id) {
            None => state.loan_liquidated(now, loan_id),
            Some(_) => state,
        },
        Request::SubmitPrice { now, oracle, price } => if state.trusts(oracle) {
            state.priced(now, oracle, price)
        } else {
            state
        },
    }
}

/// The state after a list of requests.
pub open spec fn after_all(state: KraalState, requests: Seq<Request>) -> KraalState
    decreases requests.len(),
{
    if requests.len() == 0 {
        state
    } else {
        after(after_all(state, requests.drop_last()), requests.last())
    }
}

/// The pool's parameters never change once they are set.
pub proof fn law_config_is_fixed(state: KraalState, requests: Seq<Request>)
    requires
        state.config is Some,
    ensures
        after_all(state, requests).config == state.config,
    decreases requests.len(),
{
    if requests.len() > 0 {
        law_config_is_fixed(state, requests.drop_last());
    }
}

/// What holds of the pool at all times: nothing is owed on a closed loan, the
/// asset of every loan is on record, and prices come from the three oracles
/// alone.
pub open spec fn orderly(state: KraalState) -> bool {
    &&& forall|id: BytesN<32>| #[trigger]
        state.loans.contains_key(id) ==> (state.loans[id].active || state.loans[id].balance == 0)
    &&& forall|id: BytesN<32>| #[trigger]
        state.loans.contains_key(id) ==> state.assets.contains_key(state.loans[id].asset_id)
    &&& forall|oracle: Address| #[trigger]
        state.prices.contains_key(oracle) ==> state.trusts(oracle)
}

/// Every request leaves the pool orderly.
pub proof fn law_request_keeps_order(state: KraalState, request: Request)
    requires
        orderly(state),
    ensures
        orderly(after(state, request)),
{
}

/// Whatever requests the pool has seen, nothing is owed on a closed loan, the
/// asset of every loan is on record, and prices come from the three oracles
/// alone.
pub proof fn law_pool_is_orderly(requests: Seq<Request>)
    ensures
        orderly(after_all(KraalState::empty(), requests)),
    decreases requests.len(),
{
    if requests.len() > 0 {
        law_pool_is_orderly(requests.drop_last());
        law_request_keeps_order(
            after_all(KraalState::empty(), requests.drop_last()),
            requests.last(),
        );
    }
}

/// Every open loan is secured by an asset that is marked as on loan, and no two
/// open loans by the same one.
pub open spec fn secured(state: KraalState) -> bool {
    &&& forall|id: BytesN<32>| #[trigger]
        state.loans.contains_key(id) && state.loans[id].active ==> state.assets.contains_key(
            state.loans[id].asset_id,
        ) && state.assets[state.loans[id].asset_id].on_loan
    &&& forall|id: BytesN<32>, other: BytesN<32>|
        #![trigger state.loans.contains_key(id), state.loans.contains_key(other)]
        state.loans.contains_key(id) && state.loans.contains_key(other) && id != other
            && state.loans[id].active && state.loans[other].active ==> state.loans[id].asset_id
            != state.loans[other].asset_id
}

/// Whether a request registers an animal under an identifier that is in use.
pub open spec fn registers_again(state: KraalState, request: Request) -> bool {
    request matches Request::RegisterAsset { asset_id, .. } && state.assets.contains_key(asset_id)
}

/// Whether no identifier is registered anew in a list of requests.
pub open spec fn registers_once(requests: Seq<Request>) -> bool
    decreases requests.len(),
{
    requests.len() == 0 || (registers_once(requests.drop_last()) && !registers_again(
        after_all(KraalState::empty(), requests.drop_last()),
        requests.last(),
    ))
}

/// Every request keeps the open loans secured, except one that registers an
/// animal under an identifier that is in use.
pub proof fn law_request_keeps_loans_secured(state: KraalState, request: Request)
    requires
        secured(state),
        !registers_again(state, request),
    ensures
        secured(after(state, request)),
{
    let next = after(state, request);
    assert forall|id: BytesN<32>| #[trigger]
        next.loans.contains_key(id) && next.loans[id].active implies next.assets.contains_key(
        next.loans[id].asset_id,
    ) && next.assets[next.loans[id].asset_id].on_loan by {
        match request {
            Request::Repay { loan_id, .. } => {
                assert(state.loans.contains_key(id));
                assert(state.loans.contains_key(loan_id) || next == state);
            },
            Request::Liquidate { loan_id, .. } => {
                assert(state.loans.contains_key(id));
                assert(state.loans.contains_key(loan_id) || next == state);
            },
            _ => {},
        }
    }
}

/// Whatever requests the pool has seen, none of them the registration of an
/// animal under an identifier in use, every open loan is secured by an asset of
/// its own.
pub proof fn law_open_loans_are_secured(requests: Seq<Request>)
    requires
        registers_once(requests),
    ensures
        secured(after_all(KraalState::empty(), requests)),
    decreases requests.len(),
{
    if requests.len() > 0 {
        law_open_loans_are_secured(requests.drop_last());
        law_request_keeps_loans_secured(
            after_all(KraalState::empty(), requests.drop_last()),
            requests.last(),
        );
    }
}

/// A closed loan stays as it is, until a new loan takes its identifier.
pub proof fn law_closed_loan_stays_closed(
    state: KraalState,
    request: Request,
    loan_id: BytesN<32>,
)
    requires
        state.loans.contains_key(loan_id),
        !state.loans[loan_id].active,
        !(request matches Request::OpenLoan { loan_id: opened, .. } && opened == loan_id),
    ensures
        after(state, request).loans.contains_key(loan_id),
        after(state, request).loans[loan_id] == state.loans[loan_id],
{
}

} // verus!
