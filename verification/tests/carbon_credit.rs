//! Tests of the credit ledger, with projects from a registry.

use carbon_ledger::carbon_credit::{CarbonCredit, CarbonProject, CreditError, ProjectStatus};
use carbon_ledger::carbon_registry::CarbonRegistry;
use carbon_ledger::host::{Address, AddressKind, BytesN, Env, Symbol};

fn address(n: u8) -> Address {
    Address { kind: AddressKind::Account, id: BytesN::from_array([n; 32]) }
}

fn contract(n: u8) -> Address {
    Address { kind: AddressKind::Contract, id: BytesN::from_array([n; 32]) }
}

fn make_env() -> Env {
    let mut authorized: Vec<Address> = (0..=255).map(address).collect();
    authorized.push(contract(9));
    Env { sequence: 0, authorized }
}

fn symbol(text: &str) -> Symbol {
    Symbol::new(text.as_bytes()).unwrap()
}

fn fake_project_id() -> BytesN<32> {
    BytesN::from_array([1u8; 32])
}

fn verified_project() -> CarbonProject {
    CarbonProject {
        owner: address(40),
        name: symbol("FAKE"),
        total_credits: 1000,
        issued_credits: 0,
        status: ProjectStatus::Verified,
        vintage_year: 2024,
    }
}

fn deploy_credit() -> (CarbonCredit, Address, Address, Address) {
    let registry = contract(8);
    let marketplace = contract(9);
    let admin = address(3);
    let mut credit = CarbonCredit::new();
    credit.initialize(admin, registry, marketplace).unwrap();
    (credit, admin, registry, marketplace)
}

/// A registry with one verified project, and a ledger that works with it.
struct World {
    env: Env,
    registry: CarbonRegistry,
    credit: CarbonCredit,
    project_id: BytesN<32>,
}

impl World {
    fn new(name: &str, total: i128) -> World {
        let env = make_env();
        let marketplace = contract(9);
        let mut registry = CarbonRegistry::new();
        registry.initialize(address(4), marketplace).unwrap();
        let owner = address(5);
        let project_id =
            registry.register_project(&env, owner, symbol(name), total, 2024).unwrap();
        registry.verify_project(&env, project_id).unwrap();
        let mut credit = CarbonCredit::new();
        credit.initialize(address(3), contract(8), marketplace).unwrap();
        World { env, registry, credit, project_id }
    }

    /// Mints as a contract does: asks for the registry, asks the registry for
    /// the project, and hands over the answer.
    fn mint(&mut self, to: Address, amount: i128) -> Result<(), CreditError> {
        assert_eq!(self.credit.mint_query(&self.env, amount), Ok(contract(8)));
        let project = self.registry.get_project(self.project_id).unwrap();
        self.credit.mint(&self.env, to, self.project_id, amount, &project)
    }

    fn balance(&self, owner: Address) -> i128 {
        self.credit.balance_of(owner, self.project_id)
    }

    fn supply(&self) -> i128 {
        self.credit.total_supply(self.project_id)
    }
}

// ---- Setting up ----

#[test]
fn tests_test_initialize_succeeds() {
    let (credit, admin, registry, marketplace) = deploy_credit();
    assert_eq!(credit.balance_of(address(20), fake_project_id()), 0);
    let cfg = credit.config.unwrap();
    assert_eq!((cfg.admin, cfg.registry, cfg.marketplace), (admin, registry, marketplace));
}

#[test]
fn tests_test_initialize_twice_fails() {
    let (mut credit, admin, registry, marketplace) = deploy_credit();
    let res = credit.initialize(admin, registry, marketplace);
    assert_eq!(res, Err(CreditError::AlreadyInitialized));
}

// ---- Mint ----

#[test]
fn test_mint_increases_balance_and_supply() {
    let mut w = World::new("TEST", 1000);
    let recipient = address(20);
    w.mint(recipient, 100).unwrap();

    assert_eq!(w.balance(recipient), 100);
    assert_eq!(w.supply(), 100);
}

#[test]
fn test_mint_zero_amount_fails() {
    let env = make_env();
    let (mut credit, _admin, _registry, _marketplace) = deploy_credit();
    let recipient = address(20);
    let res = credit.mint(&env, recipient, fake_project_id(), 0, &verified_project());
    assert_eq!(res, Err(CreditError::InvalidAmount));
    assert_eq!(credit.mint_query(&env, 0), Err(CreditError::InvalidAmount));
}

#[test]
fn test_mint_negative_amount_fails() {
    let env = make_env();
    let (mut credit, _admin, _registry, _marketplace) = deploy_credit();
    let recipient = address(20);
    let res = credit.mint(&env, recipient, fake_project_id(), -1, &verified_project());
    assert_eq!(res, Err(CreditError::InvalidAmount));
    assert_eq!(credit.mint_query(&env, -1), Err(CreditError::InvalidAmount));
}

#[test]
fn test_vuln_cc01_toctou_mint_after_suspend_fails() {
    let mut w = World::new("TCTOU", 1000);

    // The project is suspended before the mint takes place.
    w.registry.suspend_project(&w.env, w.project_id).unwrap();

    let recipient = address(20);
    let res = w.mint(recipient, 100);
    assert_eq!(
        res,
        Err(CreditError::ProjectNotVerified),
        "Mint on a suspended project must fail"
    );
}

// ---- Transfer ----

#[test]
fn test_transfer_moves_balance() {
    let mut w = World::new("TRF", 1000);
    let alice = address(21);
    let bob = address(22);
    w.mint(alice, 200).unwrap();

    w.credit.transfer(&w.env, alice, bob, w.project_id, 80).unwrap();

    assert_eq!(w.balance(alice), 120);
    assert_eq!(w.balance(bob), 80);
}

#[test]
fn test_transfer_insufficient_balance_fails() {
    let mut w = World::new("TRF2", 1000);
    let alice = address(21);
    let bob = address(22);
    w.mint(alice, 50).unwrap();

    let res = w.credit.transfer(&w.env, alice, bob, w.project_id, 100);
    assert_eq!(res, Err(CreditError::InsufficientBalance));
}

// ---- Burn ----

#[test]
fn test_burn_reduces_balance_and_supply() {
    let mut w = World::new("BURN", 1000);
    let alice = address(21);
    w.mint(alice, 300).unwrap();
    w.credit.burn(&w.env, alice, w.project_id, 100).unwrap();

    assert_eq!(w.balance(alice), 200);
    assert_eq!(w.supply(), 200);
}

#[test]
fn test_burn_more_than_balance_fails() {
    let mut w = World::new("BURN2", 1000);
    let alice = address(21);
    w.mint(alice, 50).unwrap();
    let res = w.credit.burn(&w.env, alice, w.project_id, 100);
    assert_eq!(res, Err(CreditError::InsufficientBalance));
}

// ---- Properties ----

#[test]
fn test_prop_credits_conserved_across_transfer() {
    let mut w = World::new("CONS", 10000);
    let alice = address(21);
    let bob = address(22);
    let carol = address(23);

    w.mint(alice, 1000).unwrap();
    w.mint(bob, 500).unwrap();

    let supply_before = w.supply();
    let alice_before = w.balance(alice);
    let bob_before = w.balance(bob);
    let carol_before = w.balance(carol);

    assert_eq!(
        alice_before + bob_before + carol_before,
        supply_before,
        "Sum of balances must equal total supply before transfer"
    );

    w.credit.transfer(&w.env, alice, carol, w.project_id, 200).unwrap();
    w.credit.transfer(&w.env, bob, alice, w.project_id, 100).unwrap();

    let supply_after = w.supply();
    let alice_after = w.balance(alice);
    let bob_after = w.balance(bob);
    let carol_after = w.balance(carol);

    assert_eq!(supply_before, supply_after, "Total supply must not change across transfers");
    assert_eq!(
        alice_after + bob_after + carol_after,
        supply_after,
        "Sum of balances must equal total supply after transfer"
    );
}

#[test]
fn test_prop_balance_never_negative() {
    let mut w = World::new("NNEG", 5000);
    let alice = address(21);
    w.mint(alice, 500).unwrap();

    let _ = w.credit.burn(&w.env, alice, w.project_id, 600);

    assert!(w.balance(alice) >= 0, "Balance must never be negative");
}

// ---- More cases ----

#[test]
fn ledger_must_be_set_up() {
    let env = make_env();
    let mut credit = CarbonCredit::new();
    let id = fake_project_id();
    let refused = Err(CreditError::NotInitialized);
    assert_eq!(credit.mint(&env, address(1), id, 1, &verified_project()), refused);
    assert_eq!(credit.transfer(&env, address(1), address(2), id, 1), refused);
    assert_eq!(credit.burn(&env, address(1), id, 1), refused);
    assert_eq!(credit.retire(&env, address(1), id, 1), refused);
    assert_eq!(credit.batch_transfer(&env, address(1), &vec![(address(2), id, 1)]), refused);
    assert_eq!(credit.mint_query(&env, 1), Err(CreditError::NotInitialized));
}

#[test]
fn amounts_must_be_positive() {
    let mut w = World::new("POS", 1000);
    let alice = address(21);
    w.mint(alice, 10).unwrap();
    let refused = Err(CreditError::InvalidAmount);
    assert_eq!(w.credit.transfer(&w.env, alice, address(22), w.project_id, 0), refused);
    assert_eq!(w.credit.burn(&w.env, alice, w.project_id, 0), refused);
    assert_eq!(w.credit.retire(&w.env, alice, w.project_id, -5), refused);
}

#[test]
fn numbers_that_overflow_are_refused() {
    let mut w = World::new("OVER", 1000);
    let alice = address(21);
    w.mint(alice, i128::MAX).unwrap();
    assert_eq!(w.mint(alice, 1), Err(CreditError::InvalidAmount));
    // Another owner's balance would fit, but not the supply.
    assert_eq!(w.mint(address(22), 1), Err(CreditError::InvalidAmount));
    assert_eq!(w.balance(address(22)), 0);
    assert_eq!(w.supply(), i128::MAX);
}

#[test]
fn transfer_to_oneself_changes_nothing() {
    let mut w = World::new("SELF", 1000);
    let alice = address(21);
    w.mint(alice, 10).unwrap();
    w.credit.transfer(&w.env, alice, alice, w.project_id, 4).unwrap();
    assert_eq!(w.balance(alice), 10);
    assert_eq!(w.supply(), 10);
}

#[test]
fn burn_undoes_mint() {
    let mut w = World::new("UNDO", 1000);
    let alice = address(21);
    w.mint(alice, 70).unwrap();
    w.mint(alice, 30).unwrap();
    w.credit.burn(&w.env, alice, w.project_id, 30).unwrap();
    assert_eq!(w.balance(alice), 70);
    assert_eq!(w.supply(), 70);
}

#[test]
fn retirement_moves_credits_out_of_circulation() {
    let mut w = World::new("RET", 1000);
    let alice = address(21);
    w.mint(alice, 100).unwrap();
    w.credit.retire(&w.env, alice, w.project_id, 40).unwrap();
    assert_eq!(w.balance(alice), 60);
    assert_eq!(w.supply(), 60);
    assert_eq!(w.credit.retired_supply(w.project_id), 40);
    let res = w.credit.retire(&w.env, alice, w.project_id, 61);
    assert_eq!(res, Err(CreditError::InsufficientBalance));
    assert_eq!(w.credit.retired_supply(w.project_id), 40);
}

#[test]
fn retirements_that_overflow_are_refused() {
    let mut w = World::new("RETO", 1000);
    let alice = address(21);
    w.mint(alice, i128::MAX).unwrap();
    w.credit.retire(&w.env, alice, w.project_id, i128::MAX).unwrap();
    w.mint(alice, 1).unwrap();
    let res = w.credit.retire(&w.env, alice, w.project_id, 1);
    assert_eq!(res, Err(CreditError::InvalidAmount));
    assert_eq!(w.balance(alice), 1);
}

#[test]
fn batch_carries_out_every_transfer() {
    let mut w = World::new("BATCH", 1000);
    let alice = address(21);
    w.mint(alice, 100).unwrap();
    let id = w.project_id;
    let transfers = vec![(address(22), id, 30), (address(23), id, 20), (address(22), id, 5)];
    w.credit.batch_transfer(&w.env, alice, &transfers).unwrap();
    assert_eq!(w.balance(alice), 45);
    assert_eq!(w.balance(address(22)), 35);
    assert_eq!(w.balance(address(23)), 20);
    assert_eq!(w.supply(), 100);
}

#[test]
fn batch_with_a_bad_transfer_does_nothing() {
    let mut w = World::new("BATCH2", 1000);
    let alice = address(21);
    w.mint(alice, 100).unwrap();
    let id = w.project_id;
    let transfers = vec![(address(22), id, 80), (address(23), id, 30)];
    let res = w.credit.batch_transfer(&w.env, alice, &transfers);
    assert_eq!(res, Err(CreditError::InsufficientBalance));
    assert_eq!(w.balance(alice), 100);
    assert_eq!(w.balance(address(22)), 0);
}

#[test]
fn empty_batch_does_nothing() {
    let mut w = World::new("BATCH3", 1000);
    let alice = address(21);
    w.mint(alice, 100).unwrap();
    w.credit.batch_transfer(&w.env, alice, &Vec::new()).unwrap();
    assert_eq!(w.balance(alice), 100);
}

#[test]
fn projects_are_kept_apart() {
    let mut w = World::new("APART", 1000);
    let alice = address(21);
    w.mint(alice, 100).unwrap();
    let other = fake_project_id();
    w.credit.mint(&w.env, alice, other, 7, &verified_project()).unwrap();
    w.credit.burn(&w.env, alice, other, 2).unwrap();
    assert_eq!(w.balance(alice), 100);
    assert_eq!(w.credit.balance_of(alice, other), 5);
    assert_eq!(w.credit.total_supply(other), 5);
    assert_eq!(w.supply(), 100);
}
