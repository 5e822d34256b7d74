//! The ledger of carbon credits: how many credits of each project every owner
//! holds, how many circulate, and how many have been retired.

use vstd::prelude::*;
pub use crate::carbon_registry::{CarbonProject, ProjectStatus};
use crate::host::{Address, BytesN, Env};
use crate::numeric::{clamped, fits};
use crate::numeric::saturating_sub;
use crate::table::{Key, Table};

verus! {

/// Whom the ledger works with. Stored once, when it is set up.
#[derive(Clone, Copy, Debug)]
pub struct CreditConfig {
    pub admin: Address,
    /// The registry that says where a project stands.
    pub registry: Address,
    /// The marketplace, which alone mints and burns.
    pub marketplace: Address,
}

/// A holding of credits of one project.
#[derive(Clone, Copy, Debug)]
pub struct CreditBalance {
    pub amount: i128,
    pub project_id: BytesN<32>,
}

/// Names one owner's holding of one project's credits.
#[derive(Clone, Copy, Debug)]
pub struct Holding {
    pub owner: Address,
    pub project_id: BytesN<32>,
}

impl Key for Holding {
    fn same(&self, other: &Self) -> (r: bool) {
        self.owner == other.owner && self.project_id == other.project_id
    }
}

/// The reasons for which the ledger refuses a request.
#[derive(Clone, Copy, Debug, PartialEq, Eq, Structural)]
pub enum CreditError {
    AlreadyInitialized,
    NotInitialized,
    Unauthorized,
    InsufficientBalance,
    ProjectNotVerified,
    InvalidAmount,
    RegistryError,
}

/// Everything the ledger remembers. What is not recorded counts as zero.
#[verifier::ext_equal]
pub struct CreditState {
    pub config: Option<CreditConfig>,
    pub balances: Map<Holding, i128>,
    pub supplies: Map<BytesN<32>, i128>,
    pub retirements: Map<BytesN<32>, i128>,
}

/// The ledger of credits.
pub struct CarbonCredit {
    pub config: Option<CreditConfig>,
    pub balances: Table<Holding, i128>,
    pub supplies: Table<BytesN<32>, i128>,
    pub retirements: Table<BytesN<32>, i128>,
}

impl View for CarbonCredit {
    type V = CreditState;

    open spec fn view(&self) -> CreditState {
        CreditState {
            config: self.config,
            balances: self.balances@,
            supplies: self.supplies@,
            retirements: self.retirements@,
        }
    }
}

/// The number recorded under `key`, or zero.
pub open spec fn recorded<K>(numbers: Map<K, i128>, key: K) -> i128 {
    if numbers.contains_key(key) {
        numbers[key]
    } else {
        0
    }
}

/// The number recorded under `key`, or zero.
fn read_number<K: Key>(numbers: &Table<K, i128>, key: &K) -> (r: i128)
    ensures
        r == recorded(numbers@, *key),
{
    match numbers.read(key) {
        Some(number) => number,
        None => 0,
    }
}

impl CreditState {
    /// The state before the ledger is set up.
    pub open spec fn empty() -> CreditState {
        CreditState {
            config: None,
            balances: Map::empty(),
            supplies: Map::empty(),
            retirements: Map::empty(),
        }
    }

    /// The credits of a project that `owner` holds.
    pub open spec fn balance(self, owner: Address, project_id: BytesN<32>) -> i128 {
        recorded(self.balances, Holding { owner, project_id })
    }

    /// The credits of a project that circulate.
    pub open spec fn supply(self, project_id: BytesN<32>) -> i128 {
        recorded(self.supplies, project_id)
    }

    /// The credits of a project that have been retired.
    pub open spec fn retired(self, project_id: BytesN<32>) -> i128 {
        recorded(self.retirements, project_id)
    }

    /// The state with the ledger set up.
    pub open spec fn initialized(self, config: CreditConfig) -> CreditState {
        CreditState { config: Some(config), ..self }
    }

    /// The state with one balance changed.
    pub open spec fn with_balance(
        self,
        owner: Address,
        project_id: BytesN<32>,
        amount: int,
    ) -> CreditState {
        CreditState {
            balances: self.balances.insert(Holding { owner, project_id }, amount as i128),
            ..self
        }
    }

    /// The state with one project's supply changed.
    pub open spec fn with_supply(self, project_id: BytesN<32>, amount: int) -> CreditState {
        CreditState { supplies: self.supplies.insert(project_id, amount as i128), ..self }
    }

    /// The state with one project's count of retired credits changed.
    pub open spec fn with_retired(self, project_id: BytesN<32>, amount: int) -> CreditState {
        CreditState { retirements: self.retirements.insert(project_id, amount as i128), ..self }
    }

    /// Why a mint is refused before the registry is asked.
    pub open spec fn mint_query_refusal(self, amount: i128) -> Option<CreditError> {
        if self.config is None {
            Some(CreditError::NotInitialized)
        } else if amount <= 0 {
            Some(CreditError::InvalidAmount)
        } else {
            None
        }
    }

    /// Why a mint is refused, where the registry reports `status`.
    pub open spec fn mint_refusal(
        self,
        to: Address,
        project_id: BytesN<32>,
        amount: i128,
        status: ProjectStatus,
    ) -> Option<CreditError> {
        if self.config is None {
            Some(CreditError::NotInitialized)
        } else if amount <= 0 {
            Some(CreditError::InvalidAmount)
        } else if status != ProjectStatus::Verified {
            Some(CreditError::ProjectNotVerified)
        } else if !fits(self.balance(to, project_id) + amount) || !fits(
            self.supply(project_id) + amount,
        ) {
            Some(CreditError::InvalidAmount)
        } else {
            None
        }
    }

    /// The state once `amount` credits have been minted to `to`.
    pub open spec fn minted(
        self,
        to: Address,
        project_id: BytesN<32>,
        amount: i128,
    ) -> CreditState {
        self.with_balance(to, project_id, self.balance(to, project_id) + amount).with_supply(
            project_id,
            self.supply(project_id) + amount,
        )
    }

    /// Why a transfer is refused. A transfer to oneself is never short of
    /// credits.
    pub open spec fn transfer_refusal(
        self,
        from: Address,
        to: Address,
        project_id: BytesN<32>,
        amount: i128,
    ) -> Option<CreditError> {
        if self.config is None {
            Some(CreditError::NotInitialized)
        } else if amount <= 0 {
            Some(CreditError::InvalidAmount)
        } else if from == to {
            None
        } else if self.balance(from, project_id) < amount {
            Some(CreditError::InsufficientBalance)
        } else if !fits(self.balance(to, project_id) + amount) {
            Some(CreditError::InvalidAmount)
        } else {
            None
        }
    }

    /// The state once `amount` credits have moved from `from` to `to`.
    pub open spec fn transferred(
        self,
        from: Address,
        to: Address,
        project_id: BytesN<32>,
        amount: i128,
    ) -> CreditState {
        if from == to {
            self
        } else {
            self.with_balance(
                from,
                project_id,
                self.balance(from, project_id) - amount,
            ).with_balance(to, project_id, self.balance(to, project_id) + amount)
        }
    }

    /// Why a burn is refused.
    pub open spec fn burn_refusal(
        self,
        from: Address,
        project_id: BytesN<32>,
        amount: i128,
    ) -> Option<CreditError> {
        if self.config is None {
            Some(CreditError::NotInitialized)
        } else if amount <= 0 {
            Some(CreditError::InvalidAmount)
        } else if self.balance(from, project_id) < amount {
            Some(CreditError::InsufficientBalance)
        } else {
            None
        }
    }

    /// The state once `amount` credits of `from` have been burned.
    pub open spec fn burned(
        self,
        from: Address,
        project_id: BytesN<32>,
        amount: i128,
    ) -> CreditState {
        self.with_balance(from, project_id, self.balance(from, project_id) - amount).with_supply(
            project_id,
            clamped(self.supply(project_id) - amount),
        )
    }

    /// Why a retirement is refused.
    pub open spec fn retire_refusal(
        self,
        from: Address,
        project_id: BytesN<32>,
        amount: i128,
    ) -> Option<CreditError> {
        match self.burn_refusal(from, project_id, amount) {
            Some(error) => Some(error),
            None => if !fits(self.retired(project_id) + amount) {
                Some(CreditError::InvalidAmount)
            } else {
                None
            },
        }
    }

    /// The state once `amount` credits of `from` have been retired.
    pub open spec fn retirement(
        self,
        from: Address,
        project_id: BytesN<32>,
        amount: i128,
    ) -> CreditState {
        self.burned(from, project_id, amount).with_retired(
            project_id,
            self.retired(project_id) + amount,
        )
    }

    /// The state once a list of transfers out of `from` has been carried out in
    /// order, or why the first transfer that fails is refused.
    pub open spec fn batch(
        self,
        from: Address,
        transfers: Seq<(Address, BytesN<32>, i128)>,
    ) -> Result<CreditState, CreditError>
        decreases transfers.len(),
    {
        if transfers.len() == 0 {
            Ok(self)
        } else {
            let (to, project_id, amount) = transfers[0];
            match self.transfer_refusal(from, to, project_id, amount) {
                Some(error) => Err(error),
                None => self.transferred(from, to, project_id, amount).batch(
                    from,
                    transfers.drop_first(),
                ),
            }
        }
    }
}

impl CarbonCredit {
    /// A ledger that has not been set up.
    pub fn new() -> (r: Self)
        ensures
            r@ == CreditState::empty(),
    {
        CarbonCredit {
            config: None,
            balances: Table::new(),
            supplies: Table::new(),
            retirements: Table::new(),
        }
    }

    /// Sets the ledger up. This can be done once.
    pub fn initialize(
        &mut self,
        admin: Address,
        registry: Address,
        marketplace: Address,
    ) -> (r: Result<(), CreditError>)
        ensures
            match (r, old(self)@.config) {
                (Ok(_), None) => final(self)@ == old(self)@.initialized(
                    (CreditConfig { admin, registry, marketplace }),
                ),
                (Err(error), Some(_)) => error == CreditError::AlreadyInitialized && final(self)@
                    == old(self)@,
                _ => false,
            },
    {
        if self.config.is_some() {
            return Err(CreditError::AlreadyInitialized);
        }
        self.config = Some(CreditConfig { admin, registry, marketplace });
        Ok(())
    }

    /// The registry to ask about a project before `amount` of its credits can
    /// be minted.
    pub fn mint_query(&self, e: &Env, amount: i128) -> (r: Result<Address, CreditError>)
        requires
            self@.config matches Some(config) ==> e.authorizes(config.marketplace),
        ensures
            match (r, self@.mint_query_refusal(amount)) {
                (Ok(registry), None) => registry == self@.config->0.registry,
                (Err(error), Some(refusal)) => error == refusal,
                _ => false,
            },
    {
        match self.config {
            Some(cfg) => if amount <= 0 {
                Err(CreditError::InvalidAmount)
            } else {
                Ok(cfg.registry)
            },
            None => Err(CreditError::NotInitialized),
        }
    }

    /// Mints `amount` credits to `to`, where `project` is what the registry
    /// answers about `project_id`. Only the marketplace may do so.
    pub fn mint(
        &mut self,
        e: &Env,
        to: Address,
        project_id: BytesN<32>,
        amount: i128,
        project: &CarbonProject,
    ) -> (r: Result<(), CreditError>)
        requires
            old(self)@.config matches Some(config) ==> e.authorizes(config.marketplace),
        ensures
            match (r, old(self)@.mint_refusal(to, project_id, amount, project.status)) {
                (Ok(_), None) => final(self)@ == old(self)@.minted(to, project_id, amount),
                (Err(error), Some(refusal)) => error == refusal && final(self)@ == old(self)@,
                _ => false,
            },
    {
        match self.mint_query(e, amount) {
            Ok(_) => {},
            Err(error) => return Err(error),
        }
        if project.status != ProjectStatus::Verified {
            return Err(CreditError::ProjectNotVerified);
        }
        let holding = Holding { owner: to, project_id };
        let current: i128 = read_number(&self.balances, &holding);
        let new_balance: i128 = match current.checked_add(amount) {
            Some(v) => v,
            None => return Err(CreditError::InvalidAmount),
        };
        let current_supply: i128 = read_number(&self.supplies, &project_id);
        let new_supply: i128 = match current_supply.checked_add(amount) {
            Some(v) => v,
            None => return Err(CreditError::InvalidAmount),
        };
        self.balances.set(holding, new_balance);
        self.supplies.set(project_id, new_supply);
        Ok(())
    }

    /// Moves `amount` credits of a project from `from` to `to`.
    pub fn transfer(
        &mut self,
        e: &Env,
        from: Address,
        to: Address,
        project_id: BytesN<32>,
        amount: i128,
    ) -> (r: Result<(), CreditError>)
        requires
            e.authorizes(from),
        ensures
            match (r, old(self)@.transfer_refusal(from, to, project_id, amount)) {
                (Ok(_), None) => final(self)@ == old(self)@.transferred(
                    from,
                    to,
                    project_id,
                    amount,
                ),
                (Err(error), Some(refusal)) => error == refusal && final(self)@ == old(self)@,
                _ => false,
            },
    {
        if self.config.is_none() {
            return Err(CreditError::NotInitialized);
        }
        if amount <= 0 {
            return Err(CreditError::InvalidAmount);
        }
        if from == to {
            return Ok(());
        }
        let from_holding = Holding { owner: from, project_id };
        let from_bal: i128 = read_number(&self.balances, &from_holding);
        if from_bal < amount {
            return Err(CreditError::InsufficientBalance);
        }
        let to_holding = Holding { owner: to, project_id };
        let to_bal: i128 = read_number(&self.balances, &to_holding);
        let new_to_bal: i128 = match to_bal.checked_add(amount) {
            Some(v) => v,
            None => return Err(CreditError::InvalidAmount),
        };
        self.balances.set(from_holding, from_bal - amount);
        self.balances.set(to_holding, new_to_bal);
        Ok(())
    }

    /// Burns `amount` credits that `from` holds. Only the marketplace may do so.
    pub fn burn(&mut self, e: &Env, from: Address, project_id: BytesN<32>, amount: i128) -> (r:
        Result<(), CreditError>)
        requires
            old(self)@.config matches Some(config) ==> e.authorizes(config.marketplace),
        ensures
            match (r, old(self)@.burn_refusal(from, project_id, amount)) {
                (Ok(_), None) => final(self)@ == old(self)@.burned(from, project_id, amount),
                (Err(error), Some(refusal)) => error == refusal && final(self)@ == old(self)@,
                _ => false,
            },
    {
        if self.config.is_none() {
            return Err(CreditError::NotInitialized);
        }
        if amount <= 0 {
            return Err(CreditError::InvalidAmount);
        }
        let holding = Holding { owner: from, project_id };
        let current: i128 = read_number(&self.balances, &holding);
        if current < amount {
            return Err(CreditError::InsufficientBalance);
        }
        self.balances.set(holding, current - amount);
        let current_supply: i128 = read_number(&self.supplies, &project_id);
        self.supplies.set(project_id, saturating_sub(current_supply, amount));
        Ok(())
    }

    /// Retires `amount` credits that `from` holds: they leave circulation and
    /// join the retired ones.
    pub fn retire(&mut self, e: &Env, from: Address, project_id: BytesN<32>, amount: i128) -> (r:
        Result<(), CreditError>)
        requires
            e.authorizes(from),
        ensures
            match (r, old(self)@.retire_refusal(from, project_id, amount)) {
                (Ok(_), None) => final(self)@ == old(self)@.retirement(from, project_id, amount),
                (Err(error), Some(refusal)) => error == refusal && final(self)@ == old(self)@,
                _ => false,
            },
    {
        if self.config.is_none() {
            return Err(CreditError::NotInitialized);
        }
        if amount <= 0 {
            return Err(CreditError::InvalidAmount);
        }
        let holding = Holding { owner: from, project_id };
        let current: i128 = read_number(&self.balances, &holding);
        if current < amount {
            return Err(CreditError::InsufficientBalance);
        }
        let current_retired: i128 = read_number(&self.retirements, &project_id);
        let new_retired: i128 = match current_retired.checked_add(amount) {
            Some(v) => v,
            None => return Err(CreditError::InvalidAmount),
        };
        self.balances.set(holding, current - amount);
        let current_supply: i128 = read_number(&self.supplies, &project_id);
        self.supplies.set(project_id, saturating_sub(current_supply, amount));
        self.retirements.set(project_id, new_retired);
        Ok(())
    }

    /// Carries out a list of transfers out of `from`: all of them, or none.
    pub fn batch_transfer(
        &mut self,
        e: &Env,
        from: Address,
        transfers: &Vec<(Address, BytesN<32>, i128)>,
    ) -> (r: Result<(), CreditError>)
        requires
            e.authorizes(from),
        ensures
            match (r, old(self)@.batch(from, transfers@)) {
                (Ok(_), Ok(after)) => final(self)@ == after,
                (Err(error), Err(refusal)) => error == refusal && final(self)@ == old(self)@,
                _ => false,
            },
    {
        let saved = self.balances.duplicate();
        let mut i: usize = 0;
        assert(transfers@.skip(0) =~= transfers@);
        while i < transfers.len()
            invariant
                e.authorizes(from),
                i <= transfers@.len(),
                saved@ == old(self)@.balances,
                self@.config == old(self)@.config,
                self@.supplies == old(self)@.supplies,
                self@.retirements == old(self)@.retirements,
                old(self)@.batch(from, transfers@) == self@.batch(
                    from,
                    transfers@.skip(i as int),
                ),
            decreases transfers@.len() - i,
        {
            let (to, project_id, amount) = transfers[i];
            let ghost rest = transfers@.skip(i as int);
            assert(rest[0] == transfers@[i as int]);
            assert(rest.drop_first() =~= transfers@.skip(i + 1));
            match self.transfer(e, from, to, project_id, amount) {
                Ok(_) => {},
                Err(error) => {
                    self.balances = saved;
                    return Err(error);
                },
            }
            i = i + 1;
        }
        Ok(())
    }

    /// The credits of a project that `owner` holds.
    pub fn balance_of(&self, owner: Address, project_id: BytesN<32>) -> (r: i128)
        ensures
            r == self@.balance(owner, project_id),
    {
        read_number(&self.balances, &Holding { owner, project_id })
    }

    /// The credits of a project that circulate.
    pub fn total_supply(&self, project_id: BytesN<32>) -> (r: i128)
        ensures
            r == self@.supply(project_id),
    {
        read_number(&self.supplies, &project_id)
    }

    /// The credits of a project that have been retired.
    pub fn retired_supply(&self, project_id: BytesN<32>) -> (r: i128)
        ensures
            r == self@.retired(project_id),
    {
        read_number(&self.retirements, &project_id)
    }
}

} // verus!
