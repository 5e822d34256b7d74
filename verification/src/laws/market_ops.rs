//! What each operation of the marketplace decides and changes, in terms of what is
//! on record and what is asked.

use vstd::prelude::*;
use crate::carbon_marketplace::{
    can_charge, fee_of, sale_of, settlement_of, total_price,
};
use crate::carbon_marketplace::{
    CarbonMarketplace, Listing, ListingStatus, MarketConfig, MarketError, MarketState, Sale,
};
use crate::carbon_registry::ProjectStatus;
use crate::host::{Address, BytesN};
use crate::laws::arithmetic::law_share_is_a_part_in_ten_thousand;

verus! {

/// What is on record is what the marketplace's table holds.
pub proof fn law_market_is_what_its_table_holds(market: CarbonMarketplace)
    ensures
        market@.config == market.config,
        market@.listings == market.listings@,
{
}

/// A marketplace starts with nothing on record, and the setup records whom it
/// works with and the fee as they are given, and nothing else.
pub proof fn law_setup_records_the_parties(
    state: MarketState,
    config: MarketConfig,
    id: BytesN<32>,
)
    ensures
        MarketState::empty().config is None,
        !MarketState::empty().listings.contains_key(id),
        state.initialized(config).config == Some(config),
        state.initialized(config).listings == state.listings,
{
}

// ---- Listings ----

/// When credits are listed: the marketplace is set up, the amount and the price
/// are positive, the project is verified, and the seller holds at least the
/// amount. The first two are asked before the registry is, the third before the
/// ledger is.
pub proof fn law_when_credits_are_listed(
    state: MarketState,
    amount: i128,
    price: i128,
    status: ProjectStatus,
    seller_balance: i128,
)
    ensures
        ({
            let first = state.listing_query_refusal(amount, price);
            let second = state.balance_query_refusal(amount, price, status);
            let refusal = state.create_refusal(amount, price, status, seller_balance);
            let positive = amount > 0 && price > 0;
            let verified = status == ProjectStatus::Verified;
            &&& first == Some(MarketError::NotInitialized) <==> state.config is None
            &&& first == Some(MarketError::InvalidAmount) <==> state.config is Some && !positive
            &&& first is None <==> state.config is Some && positive
            &&& second == Some(MarketError::NotInitialized) <==> state.config is None
            &&& second == Some(MarketError::InvalidAmount) <==> state.config is Some && !positive
            &&& second == Some(MarketError::ProjectNotVerified) <==> state.config is Some && positive
                && !verified
            &&& second is None <==> state.config is Some && positive && verified
            &&& refusal == Some(MarketError::NotInitialized) <==> state.config is None
            &&& refusal == Some(MarketError::InvalidAmount) <==> state.config is Some && !positive
            &&& refusal == Some(MarketError::ProjectNotVerified) <==> state.config is Some
                && positive && !verified
            &&& refusal == Some(MarketError::InsufficientFunds) <==> state.config is Some && positive
                && verified && seller_balance < amount
            &&& refusal is None <==> state.config is Some && positive && verified && seller_balance
                >= amount
        }),
{
}

/// A new listing stands under its identifier as it is given, and a change of
/// status gives a listing the new status and changes nothing else of it. Nothing
/// else in the marketplace changes.
pub proof fn law_what_a_listing_changes(
    state: MarketState,
    id: BytesN<32>,
    listing: Listing,
    status: ListingStatus,
)
    ensures
        ({
            let posted = state.with_listing(id, listing);
            let changed = state.with_status(id, status);
            &&& posted.listings[id] == listing
            &&& posted.listings.dom() =~= state.listings.dom().insert(id)
            &&& forall|other: BytesN<32>|
                other != id ==> #[trigger] posted.listings[other] == state.listings[other]
            &&& posted.config == state.config
            &&& changed.listings[id].status == status
            &&& changed.listings[id].seller == state.listings[id].seller
            &&& changed.listings[id].project_id == state.listings[id].project_id
            &&& changed.listings[id].amount == state.listings[id].amount
            &&& changed.listings[id].price_per_credit == state.listings[id].price_per_credit
            &&& changed.listings.dom() =~= state.listings.dom().insert(id)
            &&& forall|other: BytesN<32>|
                other != id ==> #[trigger] changed.listings[other] == state.listings[other]
            &&& changed.config == state.config
        }),
{
}

/// When a listing is cancelled: the marketplace is set up, the listing is on
/// record and active, and it is the seller who asks.
pub proof fn law_when_a_listing_is_cancelled(state: MarketState, seller: Address, id: BytesN<32>)
    ensures
        ({
            let refusal = state.cancel_refusal(seller, id);
            let listing = state.listings[id];
            let known = state.config is Some && state.listings.contains_key(id);
            let active = known && listing.status == ListingStatus::Active;
            &&& refusal == Some(MarketError::NotInitialized) <==> state.config is None
            &&& refusal == Some(MarketError::ListingNotFound) <==> state.config is Some
                && !state.listings.contains_key(id)
            &&& refusal == Some(MarketError::ListingNotActive) <==> known && listing.status
                != ListingStatus::Active
            &&& refusal == Some(MarketError::Unauthorized) <==> active && listing.seller != seller
            &&& refusal is None <==> active && listing.seller == seller
        }),
{
}

// ---- Purchases ----

/// The price of a listing is the price of one credit as many times as there are
/// credits: one credit more costs one price more.
pub proof fn law_every_credit_is_paid_for(listing: Listing)
    ensures
        total_price(listing) == listing.price_per_credit * listing.amount,
        listing.amount == 0 ==> total_price(listing) == 0,
        listing.amount < i128::MAX ==> total_price(
            (Listing { amount: (listing.amount + 1) as i128, ..listing }),
        ) == total_price(listing) + listing.price_per_credit,
{
    let price = listing.price_per_credit as int;
    let amount = listing.amount as int;
    assert(price * (amount + 1) == price * amount + price) by (nonlinear_arith);
    assert(price * 0 == 0) by (nonlinear_arith);
}

/// The fee taken ten thousand times falls short of the price times the rate by
/// less than ten thousand, toward zero. It can be charged where it and the price
/// fit.
pub proof fn law_fee_is_a_share_of_the_price(config: MarketConfig, listing: Listing)
    ensures
        ({
            let product = listing.price_per_credit * listing.amount * config.fee_bps;
            let rest = product - 10_000 * fee_of(config, listing);
            &&& product >= 0 ==> 0 <= rest < 10_000
            &&& product <= 0 ==> -10_000 < rest <= 0
        }),
        can_charge(config, listing) <==> {
            &&& i128::MIN <= listing.price_per_credit * listing.amount <= i128::MAX
            &&& i128::MIN <= fee_of(config, listing) <= i128::MAX
        },
{
    law_share_is_a_part_in_ten_thousand(
        listing.price_per_credit * listing.amount,
        config.fee_bps as int,
    );
}

/// When a listing is purchased: the marketplace is set up, the listing is on
/// record and active, its price and fee fit, the payment covers the price of
/// every credit, and the project is verified. The last is asked of the registry.
pub proof fn law_when_a_listing_is_purchased(
    state: MarketState,
    config: MarketConfig,
    id: BytesN<32>,
    payment: i128,
    status: ProjectStatus,
)
    ensures
        ({
            let sale = state.sale_refusal(id, payment);
            let purchase = state.purchase_refusal(id, payment, status);
            let listing = state.listings[id];
            let known = state.listings.contains_key(id);
            let active = known && listing.status == ListingStatus::Active;
            let price = listing.price_per_credit * listing.amount;
            let priced = i128::MIN <= price <= i128::MAX;
            let charged = i128::MIN <= fee_of(config, listing) <= i128::MAX;
            &&& state.config is None ==> sale == Some(MarketError::NotInitialized)
            &&& state.config == Some(config) ==> {
                &&& sale == Some(MarketError::ListingNotFound) <==> !known
                &&& sale == Some(MarketError::ListingNotActive) <==> known && listing.status
                    != ListingStatus::Active
                &&& sale == Some(MarketError::InsufficientFunds) <==> active && priced && payment
                    < price
                &&& sale == Some(MarketError::InvalidAmount) <==> active && (!priced || (payment
                    >= price && !charged))
                &&& sale is None <==> active && priced && payment >= price && charged
            }
            &&& sale is Some ==> purchase == sale
            &&& sale is None ==> {
                &&& purchase == Some(MarketError::ProjectNotVerified) <==> status
                    != ProjectStatus::Verified
                &&& purchase is None <==> status == ProjectStatus::Verified
            }
        }),
{
    law_every_credit_is_paid_for(state.listings[id]);
}

/// A purchase that goes through pays for every credit of the listing, and just
/// those credits are burned of the seller and minted to the buyer.
pub proof fn law_what_is_paid_for_is_what_moves(
    state: MarketState,
    config: MarketConfig,
    id: BytesN<32>,
    payment: i128,
    status: ProjectStatus,
    buyer: Address,
)
    requires
        state.config == Some(config),
        state.purchase_refusal(id, payment, status) is None,
    ensures
        ({
            let listing = state.listings[id];
            let settlement = settlement_of(sale_of(config, listing, buyer));
            &&& payment >= listing.price_per_credit * listing.amount
            &&& settlement.burn.contract == config.credit_contract
            &&& settlement.burn.holder == listing.seller
            &&& settlement.burn.project_id == listing.project_id
            &&& settlement.burn.amount == listing.amount
            &&& settlement.mint.contract == config.credit_contract
            &&& settlement.mint.holder == buyer
            &&& settlement.mint.project_id == listing.project_id
            &&& settlement.mint.amount == listing.amount
            &&& settlement.fee == fee_of(config, listing)
        }),
{
}

/// A sale names the registry to ask, the ledger to call, the parties, the project
/// and the credits of its listing, and its settlement names them again.
pub proof fn law_sale_names_its_parties(
    config: MarketConfig,
    listing: Listing,
    buyer: Address,
    sale: Sale,
)
    ensures
        sale_of(config, listing, buyer).registry == config.registry,
        sale_of(config, listing, buyer).credit_contract == config.credit_contract,
        sale_of(config, listing, buyer).buyer == buyer,
        sale_of(config, listing, buyer).seller == listing.seller,
        sale_of(config, listing, buyer).project_id == listing.project_id,
        sale_of(config, listing, buyer).amount == listing.amount,
        can_charge(config, listing) ==> sale_of(config, listing, buyer).fee == fee_of(
            config,
            listing,
        ),
        settlement_of(sale).burn.contract == sale.credit_contract,
        settlement_of(sale).burn.holder == sale.seller,
        settlement_of(sale).burn.project_id == sale.project_id,
        settlement_of(sale).burn.amount == sale.amount,
        settlement_of(sale).mint.contract == sale.credit_contract,
        settlement_of(sale).mint.holder == sale.buyer,
        settlement_of(sale).mint.project_id == sale.project_id,
        settlement_of(sale).mint.amount == sale.amount,
        settlement_of(sale).fee == sale.fee,
{
}

/// When an issue of credits is asked for: the marketplace is set up and the
/// amount is positive.
pub proof fn law_when_an_issue_is_asked_for(state: MarketState, amount: i128)
    ensures
        ({
            let refusal = state.issue_refusal(amount);
            &&& refusal == Some(MarketError::NotInitialized) <==> state.config is None
            &&& refusal == Some(MarketError::InvalidAmount) <==> state.config is Some && amount <= 0
            &&& refusal is None <==> state.config is Some && amount > 0
        }),
{
}

} // verus!
