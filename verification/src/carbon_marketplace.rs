//! The marketplace: owners post credits for sale, buyers purchase what is
//! posted, and the administrator has new credits issued.
//!
//! The registry and the credit ledger are contracts of their own, reached by
//! address. Where an operation needs an answer from one of them, it takes the
//! answer as an argument, and a query beside it says whom to ask and when. Where
//! an operation changes one of them, it returns the calls to make.

use vstd::prelude::*;
pub use crate::carbon_registry::{CarbonProject, ProjectStatus};
use crate::crypto::sha256;
use crate::crypto::sha256_digest;
use crate::encoding::encode_listing;
use crate::encoding::listing_xdr;
use crate::host::{Address, BytesN, Env};
use crate::numeric::{fits, lemma_be_bytes_len, share_of};
use crate::numeric::checked_share;
use crate::table::Table;

verus! {

/// Whom the marketplace works with. Stored once, when it is set up.
#[derive(Clone, Copy, Debug)]
pub struct MarketConfig {
    pub admin: Address,
    /// The registry of projects.
    pub registry: Address,
    /// The ledger of credits.
    pub credit_contract: Address,
    /// The fee on each sale, in hundredths of a percent.
    pub fee_bps: i128,
}

/// Where a listing stands.
#[derive(Clone, Copy, Debug, PartialEq, Eq, Structural)]
pub enum ListingStatus {
    Active,
    Sold,
    Cancelled,
}

/// An offer to sell credits.
#[derive(Clone, Copy, Debug)]
pub struct Listing {
    pub seller: Address,
    pub project_id: BytesN<32>,
    pub amount: i128,
    pub price_per_credit: i128,
    pub status: ListingStatus,
}

/// The reasons for which the marketplace refuses a request.
#[derive(Clone, Copy, Debug, PartialEq, Eq, Structural)]
pub enum MarketError {
    AlreadyInitialized,
    NotInitialized,
    Unauthorized,
    ListingNotFound,
    ListingNotActive,
    InsufficientFunds,
    InvalidAmount,
    ProjectNotVerified,
    RegistryError,
    CreditError,
}

/// A burn or a mint to ask of the credit ledger.
#[derive(Clone, Copy, Debug)]
pub struct CreditCall {
    /// The ledger to ask.
    pub contract: Address,
    /// Whose credits are burned, or who receives the minted ones.
    pub holder: Address,
    pub project_id: BytesN<32>,
    pub amount: i128,
}

/// A purchase whose listing is marked as sold, before the registry is asked
/// where the project stands.
#[derive(Clone, Copy, Debug)]
pub struct Sale {
    /// The registry to ask.
    pub registry: Address,
    pub credit_contract: Address,
    pub buyer: Address,
    pub seller: Address,
    /// The project to ask about.
    pub project_id: BytesN<32>,
    pub amount: i128,
    /// The part of the price that is charged as the fee.
    pub fee: i128,
}

/// What completes a purchase: the calls, in order, and the fee.
#[derive(Clone, Copy, Debug)]
pub struct Settlement {
    /// The first call.
    pub burn: CreditCall,
    /// The second call.
    pub mint: CreditCall,
    /// The part of the price that is charged as the fee.
    pub fee: i128,
}

/// An issue of credits to record with the registry, before the registry is
/// asked who owns the project.
#[derive(Clone, Copy, Debug)]
pub struct Issuance {
    /// The registry that records the issue and names the owner.
    pub registry: Address,
    pub credit_contract: Address,
    pub project_id: BytesN<32>,
    pub amount: i128,
}

/// Everything the marketplace remembers.
#[verifier::ext_equal]
pub struct MarketState {
    pub config: Option<MarketConfig>,
    pub listings: Map<BytesN<32>, Listing>,
}

/// The marketplace.
pub struct CarbonMarketplace {
    pub config: Option<MarketConfig>,
    pub listings: Table<BytesN<32>, Listing>,
}

impl View for CarbonMarketplace {
    type V = MarketState;

    open spec fn view(&self) -> MarketState {
        MarketState { config: self.config, listings: self.listings@ }
    }
}

/// The price of all credits of `listing`.
pub open spec fn total_price(listing: Listing) -> int {
    listing.price_per_credit * listing.amount
}

/// The fee on a sale of `listing`: its share of the price, rounded toward zero.
pub open spec fn fee_of(config: MarketConfig, listing: Listing) -> int {
    share_of(total_price(listing), config.fee_bps as int)
}

/// Whether the price of `listing` and the fee on it fit an `i128`.
pub open spec fn can_charge(config: MarketConfig, listing: Listing) -> bool {
    fits(total_price(listing)) && fits(fee_of(config, listing))
}

/// The fee on a sale of `listing`.
fn charge(config: &MarketConfig, listing: &Listing) -> (r: Result<i128, MarketError>)
    ensures
        match r {
            Ok(fee) => can_charge(*config, *listing) && fee == fee_of(*config, *listing),
            Err(error) => !can_charge(*config, *listing) && error == MarketError::InvalidAmount,
        },
{
    let price: i128 = match listing.price_per_credit.checked_mul(listing.amount) {
        Some(v) => v,
        None => return Err(MarketError::InvalidAmount),
    };
    match checked_share(price, config.fee_bps) {
        Some(fee) => Ok(fee),
        None => Err(MarketError::InvalidAmount),
    }
}

/// The purchase of `listing` by `buyer`, as far as the marketplace goes.
pub open spec fn sale_of(config: MarketConfig, listing: Listing, buyer: Address) -> Sale {
    Sale {
        registry: config.registry,
        credit_contract: config.credit_contract,
        buyer,
        seller: listing.seller,
        project_id: listing.project_id,
        amount: listing.amount,
        fee: fee_of(config, listing) as i128,
    }
}

/// The calls that complete `sale`: the credits are burned where they were and
/// minted to the buyer.
pub open spec fn settlement_of(sale: Sale) -> Settlement {
    Settlement {
        burn: CreditCall {
            contract: sale.credit_contract,
            holder: sale.seller,
            project_id: sale.project_id,
            amount: sale.amount,
        },
        mint: CreditCall {
            contract: sale.credit_contract,
            holder: sale.buyer,
            project_id: sale.project_id,
            amount: sale.amount,
        },
        fee: sale.fee,
    }
}

impl MarketState {
    /// The state before the marketplace is set up.
    pub open spec fn empty() -> MarketState {
        MarketState { config: None, listings: Map::empty() }
    }

    /// The state with the marketplace set up.
    pub open spec fn initialized(self, config: MarketConfig) -> MarketState {
        MarketState { config: Some(config), ..self }
    }

    /// The state with `listing` recorded under `id`.
    pub open spec fn with_listing(self, id: BytesN<32>, listing: Listing) -> MarketState {
        MarketState { listings: self.listings.insert(id, listing), ..self }
    }

    /// The state with a listing's status changed.
    pub open spec fn with_status(self, id: BytesN<32>, status: ListingStatus) -> MarketState {
        self.with_listing(id, Listing { status, ..self.listings[id] })
    }

    /// Why a listing is refused before anyone is asked.
    pub open spec fn listing_query_refusal(self, amount: i128, price: i128) -> Option<MarketError> {
        if self.config is None {
            Some(MarketError::NotInitialized)
        } else if amount <= 0 || price <= 0 {
            Some(MarketError::InvalidAmount)
        } else {
            None
        }
    }

    /// Why a listing is refused once the registry has reported `status`.
    pub open spec fn balance_query_refusal(
        self,
        amount: i128,
        price: i128,
        status: ProjectStatus,
    ) -> Option<MarketError> {
        match self.listing_query_refusal(amount, price) {
            Some(error) => Some(error),
            None => if status != ProjectStatus::Verified {
                Some(MarketError::ProjectNotVerified)
            } else {
                None
            },
        }
    }

    /// Why a listing is refused once the registry has reported `status` and the
    /// ledger the seller's balance.
    pub open spec fn create_refusal(
        self,
        amount: i128,
        price: i128,
        status: ProjectStatus,
        seller_balance: i128,
    ) -> Option<MarketError> {
        match self.balance_query_refusal(amount, price, status) {
            Some(error) => Some(error),
            None => if seller_balance < amount {
                Some(MarketError::InsufficientFunds)
            } else {
                None
            },
        }
    }

    /// Why a purchase is refused before the registry is asked.
    pub open spec fn sale_refusal(self, listing_id: BytesN<32>, payment: i128) -> Option<
        MarketError,
    > {
        if self.config is None {
            Some(MarketError::NotInitialized)
        } else if !self.listings.contains_key(listing_id) {
            Some(MarketError::ListingNotFound)
        } else {
            let listing = self.listings[listing_id];
            if listing.status != ListingStatus::Active {
                Some(MarketError::ListingNotActive)
            } else if !fits(total_price(listing)) {
                Some(MarketError::InvalidAmount)
            } else if payment < total_price(listing) {
                Some(MarketError::InsufficientFunds)
            } else if !can_charge(self.config->0, listing) {
                Some(MarketError::InvalidAmount)
            } else {
                None
            }
        }
    }

    /// Why a purchase is refused, where the registry reports `status`.
    pub open spec fn purchase_refusal(
        self,
        listing_id: BytesN<32>,
        payment: i128,
        status: ProjectStatus,
    ) -> Option<MarketError> {
        match self.sale_refusal(listing_id, payment) {
            Some(error) => Some(error),
            None => if status != ProjectStatus::Verified {
                Some(MarketError::ProjectNotVerified)
            } else {
                None
            },
        }
    }

    /// Why `seller` cannot cancel a listing.
    pub open spec fn cancel_refusal(self, seller: Address, listing_id: BytesN<32>) -> Option<
        MarketError,
    > {
        if self.config is None {
            Some(MarketError::NotInitialized)
        } else if !self.listings.contains_key(listing_id) {
            Some(MarketError::ListingNotFound)
        } else if self.listings[listing_id].status != ListingStatus::Active {
            Some(MarketError::ListingNotActive)
        } else if self.listings[listing_id].seller != seller {
            Some(MarketError::Unauthorized)
        } else {
            None
        }
    }

    /// Why an issue of credits is refused.
    pub open spec fn issue_refusal(self, amount: i128) -> Option<MarketError> {
        if self.config is None {
            Some(MarketError::NotInitialized)
        } else if amount <= 0 {
            Some(MarketError::InvalidAmount)
        } else {
            None
        }
    }
}

proof fn lemma_listing_xdr_len(
    seller: Address,
    project_id: BytesN<32>,
    amount: i128,
    sequence: u32,
)
    ensures
        listing_xdr(seller, project_id, amount, sequence).len() <= 124,
{
    lemma_be_bytes_len(0, 4);
    lemma_be_bytes_len(1, 4);
    lemma_be_bytes_len(3, 4);
    lemma_be_bytes_len(4, 4);
    lemma_be_bytes_len(10, 4);
    lemma_be_bytes_len(13, 4);
    lemma_be_bytes_len(16, 4);
    lemma_be_bytes_len(18, 4);
    lemma_be_bytes_len(32, 4);
    lemma_be_bytes_len(amount as int, 16);
    lemma_be_bytes_len(sequence as int, 4);
}

impl Sale {
    /// Decides the purchase, where `project` is what the registry answers about
    /// the project.
    pub fn settle(&self, project: &CarbonProject) -> (r: Result<Settlement, MarketError>)
        ensures
            r == (if project.status == ProjectStatus::Verified {
                Ok(settlement_of(*self))
            } else {
                Err(MarketError::ProjectNotVerified)
            }),
    {
        if project.status != ProjectStatus::Verified {
            return Err(MarketError::ProjectNotVerified);
        }
        Ok(
            Settlement {
                burn: CreditCall {
                    contract: self.credit_contract,
                    holder: self.seller,
                    project_id: self.project_id,
                    amount: self.amount,
                },
                mint: CreditCall {
                    contract: self.credit_contract,
                    holder: self.buyer,
                    project_id: self.project_id,
                    amount: self.amount,
                },
                fee: self.fee,
            },
        )
    }
}

impl Issuance {
    /// The mint that follows the recorded issue, where `project` is what the
    /// registry answers about the project: its owner receives the credits.
    pub fn mint_to_owner(&self, project: &CarbonProject) -> (r: CreditCall)
        ensures
            r == (CreditCall {
                contract: self.credit_contract,
                holder: project.owner,
                project_id: self.project_id,
                amount: self.amount,
            }),
    {
        CreditCall {
            contract: self.credit_contract,
            holder: project.owner,
            project_id: self.project_id,
            amount: self.amount,
        }
    }
}

impl CarbonMarketplace {
    /// A marketplace that has not been set up.
    pub fn new() -> (r: Self)
        ensures
            r@ == MarketState::empty(),
    {
        CarbonMarketplace { config: None, listings: Table::new() }
    }

    /// Sets the marketplace up. This can be done once.
    pub fn initialize(
        &mut self,
        admin: Address,
        registry: Address,
        credit_contract: Address,
        fee_bps: i128,
    ) -> (r: Result<(), MarketError>)
        ensures
            match (r, old(self)@.config) {
                (Ok(_), None) => final(self)@ == old(self)@.initialized(
                    (MarketConfig { admin, registry, credit_contract, fee_bps }),
                ),
                (Err(error), Some(_)) => error == MarketError::AlreadyInitialized && final(self)@
                    == old(self)@,
                _ => false,
            },
    {
        if self.config.is_some() {
            return Err(MarketError::AlreadyInitialized);
        }
        self.config = Some(MarketConfig { admin, registry, credit_contract, fee_bps });
        Ok(())
    }

    /// The registry to ask about a project before its credits can be listed.
    pub fn listing_query(
        &self,
        e: &Env,
        seller: Address,
        amount: i128,
        price_per_credit: i128,
    ) -> (r: Result<Address, MarketError>)
        requires
            e.authorizes(seller),
        ensures
            match (r, self@.listing_query_refusal(amount, price_per_credit)) {
                (Ok(registry), None) => registry == self@.config->0.registry,
                (Err(error), Some(refusal)) => error == refusal,
                _ => false,
            },
    {
        match self.config {
            Some(cfg) => if amount <= 0 || price_per_credit <= 0 {
                Err(MarketError::InvalidAmount)
            } else {
                Ok(cfg.registry)
            },
            None => Err(MarketError::NotInitialized),
        }
    }

    /// The ledger to ask for the seller's balance, once the registry has
    /// answered with `project`.
    pub fn balance_query(
        &self,
        e: &Env,
        seller: Address,
        amount: i128,
        price_per_credit: i128,
        project: &CarbonProject,
    ) -> (r: Result<Address, MarketError>)
        requires
            e.authorizes(seller),
        ensures
            match (r, self@.balance_query_refusal(amount, price_per_credit, project.status)) {
                (Ok(ledger), None) => ledger == self@.config->0.credit_contract,
                (Err(error), Some(refusal)) => error == refusal,
                _ => false,
            },
    {
        match self.config {
            Some(cfg) => if amount <= 0 || price_per_credit <= 0 {
                Err(MarketError::InvalidAmount)
            } else if project.status != ProjectStatus::Verified {
                Err(MarketError::ProjectNotVerified)
            } else {
                Ok(cfg.credit_contract)
            },
            None => Err(MarketError::NotInitialized),
        }
    }

    /// Posts `amount` credits for sale, where `project` is what the registry
    /// answers about the project and `seller_balance` what the ledger answers
    /// about the seller. The identifier is derived from the seller, the project,
    /// the amount and the ledger.
    pub fn create_listing(
        &mut self,
        e: &Env,
        seller: Address,
        project_id: BytesN<32>,
        amount: i128,
        price_per_credit: i128,
        project: &CarbonProject,
        seller_balance: i128,
    ) -> (r: Result<BytesN<32>, MarketError>)
        requires
            e.authorizes(seller),
        ensures
            match (
                r,
                old(self)@.create_refusal(
                    amount,
                    price_per_credit,
                    project.status,
                    seller_balance,
                ),
            ) {
                (Ok(id), None) => {
                    &&& id@ == sha256_digest(
                        listing_xdr(seller, project_id, amount, e.sequence),
                    )
                    &&& final(self)@ == old(self)@.with_listing(
                        id,
                        (Listing {
                            seller,
                            project_id,
                            amount,
                            price_per_credit,
                            status: ListingStatus::Active,
                        }),
                    )
                },
                (Err(error), Some(refusal)) => error == refusal && final(self)@ == old(self)@,
                _ => false,
            },
    {
        match self.balance_query(e, seller, amount, price_per_credit, project) {
            Ok(_) => {},
            Err(error) => return Err(error),
        }
        if seller_balance < amount {
            return Err(MarketError::InsufficientFunds);
        }
        let bytes = encode_listing(&seller, &project_id, amount, e.sequence);
        proof {
            lemma_listing_xdr_len(seller, project_id, amount, e.sequence);
        }
        let listing_id = sha256(bytes.as_slice());
        self.listings.set(
            listing_id,
            Listing {
                seller,
                project_id,
                amount,
                price_per_credit,
                status: ListingStatus::Active,
            },
        );
        Ok(listing_id)
    }

    /// Takes a listing off the market for `buyer`: marks it as sold and says
    /// which registry to ask about which project. The listing is marked before
    /// anyone is asked, so that no second purchase can begin meanwhile.
    pub fn begin_purchase(
        &mut self,
        e: &Env,
        buyer: Address,
        listing_id: BytesN<32>,
        payment_amount: i128,
    ) -> (r: Result<Sale, MarketError>)
        requires
            e.authorizes(buyer),
        ensures
            match (r, old(self)@.sale_refusal(listing_id, payment_amount)) {
                (Ok(sale), None) => {
                    &&& sale == sale_of(
                        old(self)@.config->0,
                        old(self)@.listings[listing_id],
                        buyer,
                    )
                    &&& final(self)@ == old(self)@.with_status(listing_id, ListingStatus::Sold)
                },
                (Err(error), Some(refusal)) => error == refusal && final(self)@ == old(self)@,
                _ => false,
            },
    {
        let cfg = match self.config {
            Some(cfg) => cfg,
            None => return Err(MarketError::NotInitialized),
        };
        let listing = match self.listings.read(&listing_id) {
            Some(listing) => listing,
            None => return Err(MarketError::ListingNotFound),
        };
        if listing.status != ListingStatus::Active {
            return Err(MarketError::ListingNotActive);
        }
        let price: i128 = match listing.price_per_credit.checked_mul(listing.amount) {
            Some(v) => v,
            None => return Err(MarketError::InvalidAmount),
        };
        if payment_amount < price {
            return Err(MarketError::InsufficientFunds);
        }
        let fee: i128 = match charge(&cfg, &listing) {
            Ok(fee) => fee,
            Err(error) => return Err(error),
        };
        self.listings.set(listing_id, Listing { status: ListingStatus::Sold, ..listing });
        Ok(
            Sale {
                registry: cfg.registry,
                credit_contract: cfg.credit_contract,
                buyer,
                seller: listing.seller,
                project_id: listing.project_id,
                amount: listing.amount,
                fee,
            },
        )
    }

    /// Purchases a listing for `buyer`, where `project` is what the registry
    /// answers about its project, and returns the calls that move the credits
    /// and the fee that is charged.
    /// A refused purchase leaves the listing on the market.
    pub fn purchase_listing(
        &mut self,
        e: &Env,
        buyer: Address,
        listing_id: BytesN<32>,
        payment_amount: i128,
        project: &CarbonProject,
    ) -> (r: Result<Settlement, MarketError>)
        requires
            e.authorizes(buyer),
        ensures
            match (r, old(self)@.purchase_refusal(listing_id, payment_amount, project.status)) {
                (Ok(settlement), None) => {
                    &&& settlement == settlement_of(
                        sale_of(old(self)@.config->0, old(self)@.listings[listing_id], buyer),
                    )
                    &&& final(self)@ == old(self)@.with_status(listing_id, ListingStatus::Sold)
                },
                (Err(error), Some(refusal)) => error == refusal && final(self)@ == old(self)@,
                _ => false,
            },
    {
        let before = self.listings.read(&listing_id);
        let sale = match self.begin_purchase(e, buyer, listing_id, payment_amount) {
            Ok(sale) => sale,
            Err(error) => return Err(error),
        };
        match sale.settle(project) {
            Ok(settlement) => Ok(settlement),
            Err(error) => {
                match before {
                    Some(listing) => self.listings.set(listing_id, listing),
                    None => {},
                }
                assert(self@.listings =~= old(self)@.listings);
                Err(error)
            },
        }
    }

    /// Takes an active listing off the market. Only its seller may do so.
    pub fn cancel_listing(&mut self, e: &Env, seller: Address, listing_id: BytesN<32>) -> (r:
        Result<(), MarketError>)
        requires
            e.authorizes(seller),
        ensures
            match (r, old(self)@.cancel_refusal(seller, listing_id)) {
                (Ok(_), None) => final(self)@ == old(self)@.with_status(
                    listing_id,
                    ListingStatus::Cancelled,
                ),
                (Err(error), Some(refusal)) => error == refusal && final(self)@ == old(self)@,
                _ => false,
            },
    {
        if self.config.is_none() {
            return Err(MarketError::NotInitialized);
        }
        let listing = match self.listings.read(&listing_id) {
            Some(listing) => listing,
            None => return Err(MarketError::ListingNotFound),
        };
        if listing.status != ListingStatus::Active {
            return Err(MarketError::ListingNotActive);
        }
        if listing.seller != seller {
            return Err(MarketError::Unauthorized);
        }
        self.listings.set(listing_id, Listing { status: ListingStatus::Cancelled, ..listing });
        Ok(())
    }

    /// Has `amount` new credits of a project issued: says which registry is to
    /// record the issue, after which it is asked who owns the project. Only the
    /// administrator may do so.
    pub fn mint_project_credits(&self, e: &Env, project_id: BytesN<32>, amount: i128) -> (r: Result<
        Issuance,
        MarketError,
    >)
        requires
            self@.config is Some && amount > 0 ==> e.authorizes(self@.config->0.admin),
        ensures
            match (r, self@.issue_refusal(amount)) {
                (Ok(issuance), None) => issuance == (Issuance {
                    registry: self@.config->0.registry,
                    credit_contract: self@.config->0.credit_contract,
                    project_id,
                    amount,
                }),
                (Err(error), Some(refusal)) => error == refusal,
                _ => false,
            },
    {
        let cfg = match self.config {
            Some(cfg) => cfg,
            None => return Err(MarketError::NotInitialized),
        };
        if amount <= 0 {
            return Err(MarketError::InvalidAmount);
        }
        Ok(
            Issuance {
                registry: cfg.registry,
                credit_contract: cfg.credit_contract,
                project_id,
                amount,
            },
        )
    }

    /// The listing recorded under `listing_id`.
    pub fn get_listing(&self, listing_id: BytesN<32>) -> (r: Result<Listing, MarketError>)
        ensures
            r == (if self@.listings.contains_key(listing_id) {
                Ok(self@.listings[listing_id])
            } else {
                Err(MarketError::ListingNotFound)
            }),
    {
        match self.listings.read(&listing_id) {
            Some(listing) => Ok(listing),
            None => Err(MarketError::ListingNotFound),
        }
    }

    /// The fee on a sale of the listing recorded under `listing_id`, which a
    /// purchase of it is charged.
    pub fn listing_fee(&self, listing_id: BytesN<32>) -> (r: Result<i128, MarketError>)
        ensures
            match self@.config {
                None => r == Err::<i128, MarketError>(MarketError::NotInitialized),
                Some(config) => if !self@.listings.contains_key(listing_id) {
                    r == Err::<i128, MarketError>(MarketError::ListingNotFound)
                } else {
                    match r {
                        Ok(fee) => can_charge(config, self@.listings[listing_id]) && fee == fee_of(
                            config,
                            self@.listings[listing_id],
                        ),
                        Err(error) => !can_charge(config, self@.listings[listing_id]) && error
                            == MarketError::InvalidAmount,
                    }
                },
            },
    {
        let cfg = match self.config {
            Some(cfg) => cfg,
            None => return Err(MarketError::NotInitialized),
        };
        match self.listings.read(&listing_id) {
            Some(listing) => charge(&cfg, &listing),
            None => Err(MarketError::ListingNotFound),
        }
    }

    /// Whom the marketplace works with.
    pub fn get_config(&self) -> (r: Result<MarketConfig, MarketError>)
        ensures
            r == (match self@.config {
                Some(config) => Ok(config),
                None => Err(MarketError::NotInitialized),
            }),
    {
        match self.config {
            Some(config) => Ok(config),
            None => Err(MarketError::NotInitialized),
        }
    }
}

} // verus!
