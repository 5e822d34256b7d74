//! Tests of replayed lists of requests.

use carbon_ledger::carbon_credit::{CarbonCredit, CarbonProject, CreditError, ProjectStatus};
use carbon_ledger::host::{Address, AddressKind, BytesN, Env, Symbol};
use carbon_ledger::replay::{BatchAction, BatchInput, MintInput};

fn address(n: u8) -> Address {
    Address { kind: AddressKind::Account, id: BytesN::from_array([n; 32]) }
}

fn setup() -> (Env, CarbonCredit, [Address; 5], BytesN<32>, CarbonProject) {
    let accounts = [address(10), address(11), address(12), address(13), address(14)];
    let marketplace = address(2);
    let mut authorized = accounts.to_vec();
    authorized.push(marketplace);
    let mut ledger = CarbonCredit::new();
    ledger.initialize(address(0), address(1), marketplace).unwrap();
    let project = CarbonProject {
        owner: address(3),
        name: Symbol::new(b"FUZZ").unwrap(),
        total_credits: i128::MAX,
        issued_credits: 0,
        status: ProjectStatus::Verified,
        vintage_year: 2024,
    };
    (Env { sequence: 0, authorized }, ledger, accounts, BytesN::from_array([7; 32]), project)
}

fn total(ledger: &CarbonCredit, accounts: &[Address; 5], id: BytesN<32>) -> i128 {
    accounts.iter().map(|account| ledger.balance_of(*account, id)).sum()
}

#[test]
fn replayed_mints_match_the_supply() {
    let (env, mut ledger, accounts, id, project) = setup();
    let input = MintInput { actions: vec![(0, 5), (6, 10), (1, -1), (4, 0), (255, 7)] };
    let outcomes = input.replay(&env, &mut ledger, &accounts, id, &project);
    let refused = Err(CreditError::InvalidAmount);
    assert_eq!(outcomes, vec![Ok(()), Ok(()), refused, refused, Ok(())]);
    // 255 % 5 == 0
    assert_eq!(ledger.balance_of(accounts[0], id), 12);
    assert_eq!(ledger.balance_of(accounts[1], id), 10);
    assert_eq!(ledger.total_supply(id), 22);
    assert_eq!(total(&ledger, &accounts, id), 22);
}

#[test]
fn replayed_mints_need_a_verified_project() {
    let (env, mut ledger, accounts, id, mut project) = setup();
    project.status = ProjectStatus::Retired;
    let input = MintInput { actions: vec![(0, 5)] };
    let outcomes = input.replay(&env, &mut ledger, &accounts, id, &project);
    assert_eq!(outcomes, vec![Err(CreditError::ProjectNotVerified)]);
    assert_eq!(ledger.total_supply(id), 0);
}

#[test]
fn replayed_batches_keep_the_supply() {
    let (env, mut ledger, accounts, id, project) = setup();
    let mints = MintInput { actions: (0..5).map(|i| (i, 1_000_000_000)).collect() };
    mints.replay(&env, &mut ledger, &accounts, id, &project);
    let initial_supply = ledger.total_supply(id);
    assert_eq!(initial_supply, 5_000_000_000);

    let input = BatchInput {
        actions: vec![
            BatchAction { from_idx: 0, transfers: vec![(1, 400), (2, 600)] },
            BatchAction { from_idx: 6, transfers: vec![(3, 1_000_000_400), (4, 1)] },
            BatchAction { from_idx: 2, transfers: vec![] },
            BatchAction { from_idx: 3, transfers: vec![(3, i128::MAX)] },
            BatchAction { from_idx: 4, transfers: vec![(0, i128::MIN)] },
        ],
    };
    let outcomes = input.replay(&env, &mut ledger, &accounts, id);
    assert_eq!(
        outcomes,
        vec![
            Ok(()),
            Err(CreditError::InsufficientBalance),
            Ok(()),
            Ok(()),
            Err(CreditError::InvalidAmount),
        ]
    );
    assert_eq!(ledger.balance_of(accounts[0], id), 999_999_000);
    assert_eq!(ledger.balance_of(accounts[1], id), 1_000_000_400);
    assert_eq!(ledger.balance_of(accounts[2], id), 1_000_000_600);
    assert_eq!(ledger.balance_of(accounts[3], id), 1_000_000_000);
    assert_eq!(ledger.total_supply(id), initial_supply);
    assert_eq!(total(&ledger, &accounts, id), initial_supply);
}
