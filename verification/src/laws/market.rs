//! Laws of the marketplace, and of what it has the registry and the credit
//! ledger do.

use vstd::prelude::*;
use crate::carbon_credit::{CreditState, Holding};
use crate::carbon_marketplace::{
    Listing, ListingStatus, MarketConfig, MarketError, MarketState, Sale,
};
use crate::carbon_marketplace::{can_charge, fee_of, sale_of, settlement_of, total_price};
use crate::carbon_registry::{ProjectStatus, RegistryState};
use crate::crypto::{digests_collide, sha256_digest};
use crate::encoding::{address_xdr, bytes_xdr, i128_xdr, listing_xdr, u32_xdr};
use crate::host::{Address, BytesN};
use crate::laws::{credit, registry};
use crate::numeric::{
    be_bytes, byte_range, fits, lemma_be_bytes_injective, lemma_be_bytes_len, lemma_split,
};

verus! {

/// While a purchase of a listing is under way, and ever after, no other purchase
/// of it can begin, for any payment, and nobody can cancel it.
pub proof fn law_listing_is_sold_once(
    state: MarketState,
    listing_id: BytesN<32>,
    payment: i128,
    other_payment: i128,
    seller: Address,
)
    requires
        state.sale_refusal(listing_id, payment) is None,
    ensures
        ({
            let sold = state.with_status(listing_id, ListingStatus::Sold);
            &&& sold.sale_refusal(listing_id, other_payment) == Some(MarketError::ListingNotActive)
            &&& sold.cancel_refusal(seller, listing_id) == Some(MarketError::ListingNotActive)
        }),
{
}

/// A listing that has been cancelled can be neither purchased nor cancelled
/// again.
pub proof fn law_cancelled_listing_is_off_the_market(
    state: MarketState,
    listing_id: BytesN<32>,
    seller: Address,
    payment: i128,
    other_seller: Address,
)
    requires
        state.cancel_refusal(seller, listing_id) is None,
    ensures
        ({
            let cancelled = state.with_status(listing_id, ListingStatus::Cancelled);
            &&& cancelled.sale_refusal(listing_id, payment) == Some(MarketError::ListingNotActive)
            &&& cancelled.cancel_refusal(other_seller, listing_id) == Some(
                MarketError::ListingNotActive,
            )
        }),
{
}

/// Nobody but the seller can cancel a listing.
pub proof fn law_only_seller_cancels(state: MarketState, listing_id: BytesN<32>, seller: Address)
    requires
        state.cancel_refusal(seller, listing_id) is None,
    ensures
        state.listings[listing_id].seller == seller,
        state.listings[listing_id].status == ListingStatus::Active,
{
}

/// A purchase goes through only where the payment covers the price and the
/// project stands verified at that time, whatever it was when the listing was
/// posted.
pub proof fn law_purchase_is_paid_and_verified(
    state: MarketState,
    listing_id: BytesN<32>,
    payment: i128,
    status: ProjectStatus,
)
    requires
        state.purchase_refusal(listing_id, payment, status) is None,
    ensures
        payment >= total_price(state.listings[listing_id]),
        status == ProjectStatus::Verified,
        state.listings[listing_id].status == ListingStatus::Active,
{
}

/// A listing is posted only for credits that the seller holds, of a project that
/// stands verified at that time.
pub proof fn law_listing_is_backed(
    state: MarketState,
    amount: i128,
    price_per_credit: i128,
    status: ProjectStatus,
    seller_balance: i128,
)
    requires
        state.create_refusal(amount, price_per_credit, status, seller_balance) is None,
    ensures
        0 < amount <= seller_balance,
        price_per_credit > 0,
        status == ProjectStatus::Verified,
{
}

/// A sale carries its fee: the configured share of the price, in hundredths of a
/// percent and rounded toward zero. It is the fee of the listing, and what
/// settles the sale charges it.
pub proof fn law_sale_is_charged_the_fee(
    state: MarketState,
    listing_id: BytesN<32>,
    payment: i128,
    buyer: Address,
)
    requires
        state.sale_refusal(listing_id, payment) is None,
    ensures
        ({
            let config = state.config->0;
            let listing = state.listings[listing_id];
            let sale = sale_of(config, listing, buyer);
            &&& can_charge(config, listing)
            &&& sale.fee == fee_of(config, listing)
            &&& settlement_of(sale).fee == sale.fee
        }),
{
}

/// A fee between nothing and the whole takes no less than nothing of a price and
/// no more than the price.
pub proof fn law_fee_is_part_of_the_price(config: MarketConfig, listing: Listing)
    requires
        total_price(listing) >= 0,
        0 <= config.fee_bps <= 10_000,
    ensures
        0 <= fee_of(config, listing) <= total_price(listing),
{
    let price = total_price(listing);
    let bps = config.fee_bps as int;
    assert(0 <= price * bps <= price * 10_000) by (nonlinear_arith)
        requires
            price >= 0,
            0 <= bps <= 10_000,
    ;
}

/// A fee of no more than the whole price refuses no purchase: such a purchase is
/// refused for the listing, the price or the payment alone.
pub proof fn law_fee_refuses_no_purchase(
    state: MarketState,
    listing_id: BytesN<32>,
    payment: i128,
)
    requires
        state.config matches Some(config) && 0 <= config.fee_bps <= 10_000,
        state.listings.contains_key(listing_id),
        state.listings[listing_id].status == ListingStatus::Active,
    ensures
        ({
            let price = total_price(state.listings[listing_id]);
            state.sale_refusal(listing_id, payment) == (if !fits(price) {
                Some(MarketError::InvalidAmount)
            } else if payment < price {
                Some(MarketError::InsufficientFunds)
            } else {
                None
            })
        }),
{
    let price = total_price(state.listings[listing_id]);
    let bps = state.config->0.fee_bps as int;
    assert(price >= 0 ==> 0 <= price * bps <= price * 10_000) by (nonlinear_arith)
        requires
            0 <= bps <= 10_000,
    ;
    assert(price <= 0 ==> price * 10_000 <= price * bps <= 0) by (nonlinear_arith)
        requires
            0 <= bps <= 10_000,
    ;
}

/// Posting a listing leaves every listing under another identifier as it was.
pub proof fn law_new_listing_leaves_the_others(
    state: MarketState,
    id: BytesN<32>,
    listing: Listing,
    other: BytesN<32>,
)
    requires
        other != id,
    ensures
        ({
            let done = state.with_listing(id, listing);
            &&& done.listings.contains_key(id) && done.listings[id] == listing
            &&& done.listings.contains_key(other) == state.listings.contains_key(other)
            &&& state.listings.contains_key(other) ==> done.listings[other]
                == state.listings[other]
            &&& done.config == state.config
        }),
{
}

/// A listing's identifier is the digest of bytes that tell its seller, project,
/// amount and ledger apart from those of every other listing.
pub proof fn law_listing_bytes_are_distinct(
    seller: Address,
    project_id: BytesN<32>,
    amount: i128,
    sequence: u32,
    other_seller: Address,
    other_project_id: BytesN<32>,
    other_amount: i128,
    other_sequence: u32,
)
    requires
        listing_xdr(seller, project_id, amount, sequence) == listing_xdr(
            other_seller,
            other_project_id,
            other_amount,
            other_sequence,
        ),
    ensures
        seller == other_seller,
        project_id == other_project_id,
        amount == other_amount,
        sequence == other_sequence,
{
    let head = be_bytes(16, 4) + be_bytes(1, 4) + be_bytes(4, 4);
    let ledger = be_bytes(3, 4) + be_bytes(sequence as int, 4);
    let other_ledger = be_bytes(3, 4) + be_bytes(other_sequence as int, 4);
    let number = be_bytes(10, 4) + be_bytes(amount as int, 16);
    let other_number = be_bytes(10, 4) + be_bytes(other_amount as int, 16);
    let a = bytes_xdr(project_id) + (number + ledger);
    let b = bytes_xdr(other_project_id) + (other_number + other_ledger);
    lemma_be_bytes_len(amount as int, 16);
    lemma_be_bytes_len(other_amount as int, 16);
    assert(number == i128_xdr(amount) && ledger == u32_xdr(sequence));
    assert(listing_xdr(seller, project_id, amount, sequence) =~= head + (address_xdr(seller) + a));
    assert(listing_xdr(other_seller, other_project_id, other_amount, other_sequence) =~= head + (
    address_xdr(other_seller) + b));
    lemma_split(head, address_xdr(seller) + a, head, address_xdr(other_seller) + b);
    registry::lemma_address_split(seller, a, other_seller, b);
    lemma_split(
        bytes_xdr(project_id),
        number + ledger,
        bytes_xdr(other_project_id),
        other_number + other_ledger,
    );
    lemma_split(
        be_bytes(13, 4) + be_bytes(32, 4),
        project_id@,
        be_bytes(13, 4) + be_bytes(32, 4),
        other_project_id@,
    );
    assert(project_id.bytes =~= other_project_id.bytes);
    lemma_split(number, ledger, other_number, other_ledger);
    lemma_split(
        be_bytes(10, 4),
        be_bytes(amount as int, 16),
        be_bytes(10, 4),
        be_bytes(other_amount as int, 16),
    );
    lemma_split(
        be_bytes(3, 4),
        be_bytes(sequence as int, 4),
        be_bytes(3, 4),
        be_bytes(other_sequence as int, 4),
    );
    reveal_with_fuel(byte_range, 17);
    lemma_be_bytes_injective(amount as int, other_amount as int, 16);
    lemma_be_bytes_injective(sequence as int, other_sequence as int, 4);
}

/// Two listings have the same identifier only where seller, project, amount and
/// ledger are the same, or where the bytes that tell them apart have the same
/// digest.
pub proof fn law_listing_ids_are_distinct(
    seller: Address,
    project_id: BytesN<32>,
    amount: i128,
    sequence: u32,
    other_seller: Address,
    other_project_id: BytesN<32>,
    other_amount: i128,
    other_sequence: u32,
)
    ensures
        ({
            let bytes = listing_xdr(seller, project_id, amount, sequence);
            let other_bytes = listing_xdr(
                other_seller,
                other_project_id,
                other_amount,
                other_sequence,
            );
            sha256_digest(bytes) == sha256_digest(other_bytes) ==> digests_collide(
                bytes,
                other_bytes,
            ) || (seller == other_seller && project_id == other_project_id && amount == other_amount
                && sequence == other_sequence)
        }),
{
    if listing_xdr(seller, project_id, amount, sequence) == listing_xdr(
        other_seller,
        other_project_id,
        other_amount,
        other_sequence,
    ) {
        law_listing_bytes_are_distinct(
            seller,
            project_id,
            amount,
            sequence,
            other_seller,
            other_project_id,
            other_amount,
            other_sequence,
        );
    }
}

/// Two listings that differ in seller, project, amount or ledger stand side by
/// side, unless the bytes under their identifiers have the same digest.
pub proof fn law_listings_stand_side_by_side(
    state: MarketState,
    first: Listing,
    sequence: u32,
    second: Listing,
    other_sequence: u32,
    id: BytesN<32>,
    other_id: BytesN<32>,
)
    requires
        first.seller != second.seller || first.project_id != second.project_id || first.amount
            != second.amount || sequence != other_sequence,
    ensures
        ({
            let bytes = listing_xdr(first.seller, first.project_id, first.amount, sequence);
            let other_bytes = listing_xdr(
                second.seller,
                second.project_id,
                second.amount,
                other_sequence,
            );
            let done = state.with_listing(id, first).with_listing(other_id, second);
            id@ == sha256_digest(bytes) && other_id@ == sha256_digest(other_bytes)
                && !digests_collide(bytes, other_bytes) ==> id != other_id && done.listings[id]
                == first && done.listings[other_id] == second
        }),
{
    law_listing_ids_are_distinct(
        first.seller,
        first.project_id,
        first.amount,
        sequence,
        second.seller,
        second.project_id,
        second.amount,
        other_sequence,
    );
}

/// A request to the marketplace, with the answers that it depends on. A listing
/// comes with the identifier that it is given.
pub enum Request {
    Initialize { config: MarketConfig },
    Create {
        id: BytesN<32>,
        seller: Address,
        project_id: BytesN<32>,
        amount: i128,
        price_per_credit: i128,
        status: ProjectStatus,
        seller_balance: i128,
    },
    Purchase { listing_id: BytesN<32>, payment: i128, status: ProjectStatus },
    Cancel { seller: Address, listing_id: BytesN<32> },
}

/// The state after a request, which a refused request leaves as it was.
pub open spec fn after(state: MarketState, request: Request) -> MarketState {
    match request {
        Request::Initialize { config } => if state.config is None {
            state.initialized(config)
        } else {
            state
        },
        Request::Create {
            id,
            seller,
            project_id,
            amount,
            price_per_credit,
            status,
            seller_balance,
        } => match state.create_refusal(amount, price_per_credit, status, seller_balance) {
            None => state.with_listing(
                id,
                Listing {
                    seller,
                    project_id,
                    amount,
                    price_per_credit,
                    status: ListingStatus::Active,
                },
            ),
            Some(_) => state,
        },
        Request::Purchase { listing_id, payment, status } => match state.purchase_refusal(
            listing_id,
            payment,
            status,
        ) {
            None => state.with_status(listing_id, ListingStatus::Sold),
            Some(_) => state,
        },
        Request::Cancel { seller, listing_id } => match state.cancel_refusal(seller, listing_id) {
            None => state.with_status(listing_id, ListingStatus::Cancelled),
            Some(_) => state,
        },
    }
}

/// The state after a list of requests.
pub open spec fn after_all(state: MarketState, requests: Seq<Request>) -> MarketState
    decreases requests.len(),
{
    if requests.len() == 0 {
        state
    } else {
        after(after_all(state, requests.drop_last()), requests.last())
    }
}

/// Whatever requests the marketplace has seen, every listing offers some credits
/// at some price.
pub proof fn law_listings_are_positive(requests: Seq<Request>, listing_id: BytesN<32>)
    requires
        after_all(MarketState::empty(), requests).listings.contains_key(listing_id),
    ensures
        after_all(MarketState::empty(), requests).listings[listing_id].amount > 0,
        after_all(MarketState::empty(), requests).listings[listing_id].price_per_credit > 0,
    decreases requests.len(),
{
    assert(requests.len() > 0);
    let prior = after_all(MarketState::empty(), requests.drop_last());
    if prior.listings.contains_key(listing_id) {
        law_listings_are_positive(requests.drop_last(), listing_id);
    }
}

/// A listing that is sold or cancelled stays so, until a new listing takes its
/// identifier.
pub proof fn law_closed_listing_stays_closed(
    state: MarketState,
    request: Request,
    listing_id: BytesN<32>,
)
    requires
        state.listings.contains_key(listing_id),
        state.listings[listing_id].status != ListingStatus::Active,
        !(request matches Request::Create { id, .. } && id == listing_id),
    ensures
        after(state, request).listings.contains_key(listing_id),
        after(state, request).listings[listing_id] == state.listings[listing_id],
{
}

/// What the marketplace works with never changes once it is set.
pub proof fn law_config_is_fixed(state: MarketState, request: Request)
    requires
        state.config is Some,
    ensures
        after(state, request).config == state.config,
{
}

/// Settling a sale moves credits and makes none: the seller's credits are burned
/// and as many minted to the buyer. Where the burn goes through, so does the
/// mint. The supply of every project stays what it was, and the ledger sound.
pub proof fn law_settlement_conserves_credits(ledger: CreditState, sale: Sale)
    requires
        credit::sound(ledger),
        ledger.burn_refusal(
            settlement_of(sale).burn.holder,
            settlement_of(sale).burn.project_id,
            settlement_of(sale).burn.amount,
        ) is None,
    ensures
        ({
            let burn = settlement_of(sale).burn;
            let mint = settlement_of(sale).mint;
            let burned = ledger.burned(burn.holder, burn.project_id, burn.amount);
            let done = burned.minted(mint.holder, mint.project_id, mint.amount);
            &&& burned.mint_refusal(
                mint.holder,
                mint.project_id,
                mint.amount,
                ProjectStatus::Verified,
            ) is None
            &&& sale.seller != sale.buyer ==> {
                &&& done.balance(sale.seller, sale.project_id) == ledger.balance(
                    sale.seller,
                    sale.project_id,
                ) - sale.amount
                &&& done.balance(sale.buyer, sale.project_id) == ledger.balance(
                    sale.buyer,
                    sale.project_id,
                ) + sale.amount
            }
            &&& sale.seller == sale.buyer ==> done.balance(sale.buyer, sale.project_id)
                == ledger.balance(sale.buyer, sale.project_id)
            &&& forall|o: Address, p: BytesN<32>|
                (p != sale.project_id || (o != sale.seller && o != sale.buyer))
                    ==> #[trigger] done.balance(o, p) == ledger.balance(o, p)
            &&& forall|p: BytesN<32>| #[trigger] done.supply(p) == ledger.supply(p)
            &&& done.retirements == ledger.retirements
            &&& credit::sound(done)
        }),
{
    let id = sale.project_id;
    let burned = ledger.burned(sale.seller, id, sale.amount);
    let done = burned.minted(sale.buyer, id, sale.amount);
    credit::law_balances_within_supply(ledger, sale.seller, id);
    credit::law_request_keeps_sound(
        ledger,
        credit::Request::Burn { from: sale.seller, project_id: id, amount: sale.amount },
    );
    credit::law_balances_within_supply(burned, sale.buyer, id);
    assert(burned.supply(id) == ledger.supply(id) - sale.amount);
    credit::law_request_keeps_sound(
        burned,
        credit::Request::Mint {
            to: sale.buyer,
            project_id: id,
            amount: sale.amount,
            status: ProjectStatus::Verified,
        },
    );
    assert forall|o: Address, p: BytesN<32>|
        (p != id || (o != sale.seller && o != sale.buyer)) implies #[trigger] done.balance(o, p)
        == ledger.balance(o, p) by {
        assert(Holding { owner: o, project_id: p } != Holding { owner: sale.seller, project_id: id });
        assert(Holding { owner: o, project_id: p } != Holding { owner: sale.buyer, project_id: id });
    }
}

/// Where the registry records an issue of credits, the project stands verified
/// and keeps its owner, so the mint that follows is refused for no reason but
/// that a number grows too large. It gives the owner as many credits as were
/// recorded.
pub proof fn law_issue_is_minted_to_owner(
    registry: RegistryState,
    ledger: CreditState,
    project_id: BytesN<32>,
    amount: i128,
)
    requires
        registry.issue_refusal(project_id, amount) is None,
        ledger.config is Some,
        ledger.supply(project_id) + amount <= i128::MAX,
        credit::sound(ledger),
    ensures
        ({
            let project = registry.issued(project_id, amount).projects[project_id];
            let done = ledger.minted(project.owner, project_id, amount);
            &&& project.owner == registry.projects[project_id].owner
            &&& project.issued_credits == registry.projects[project_id].issued_credits + amount
            &&& ledger.mint_refusal(project.owner, project_id, amount, project.status) is None
            &&& done.balance(project.owner, project_id) == ledger.balance(project.owner, project_id)
                + amount
            &&& done.supply(project_id) == ledger.supply(project_id) + amount
        }),
{
    let project = registry.projects[project_id];
    credit::law_balances_within_supply(ledger, project.owner, project_id);
}

} // verus!
