//! Tests of symbols, of the invocation context, and of the identifiers that are
//! derived from bytes.

use carbon_ledger::carbon_marketplace::{CarbonMarketplace, CarbonProject, ProjectStatus};
use carbon_ledger::carbon_registry::CarbonRegistry;
use carbon_ledger::host::{Address, AddressKind, BytesN, Env, Symbol};
use carbon_ledger::numeric::{checked_share, saturating_sub, to_be_bytes};
use carbon_ledger::stellarkraal::StellarKraal;

fn account(n: u8) -> Address {
    Address { kind: AddressKind::Account, id: BytesN::from_array([n; 32]) }
}

fn contract(n: u8) -> Address {
    Address { kind: AddressKind::Contract, id: BytesN::from_array([n; 32]) }
}

fn hex(id: BytesN<32>) -> String {
    id.to_array().iter().map(|b| format!("{:02x}", b)).collect()
}

#[test]
fn asset_and_loan_identifiers() {
    let owner = account(1);
    let mut env = Env { sequence: 100, authorized: vec![owner] };
    let mut pool = StellarKraal::new();
    pool.initialize(&env, owner, owner, owner, owner, 10_000, 10_000, 0, 0, 0, 1).unwrap();
    let name = Symbol::new(b"COW").unwrap();
    let asset = pool.register_asset(&env, owner, name, name, 100).unwrap();
    assert_eq!(hex(asset), "3655ca59b7d566ae06297c200f98d04da2e8e89812d627bc29297c25db60362d");
    env.sequence = 101;
    let loan = pool.open_loan(&env, owner, asset, 1).unwrap();
    assert_eq!(hex(loan), "ab62c7044cffd7f7690a835f099a80774fa423741c7123180523cdb8d77b8a6d");
}

#[test]
fn project_identifiers() {
    let env = Env { sequence: 0, authorized: vec![account(10), contract(10)] };
    let mut registry = CarbonRegistry::new();
    registry.initialize(account(1), account(2)).unwrap();
    let name = Symbol::new(b"PROJ").unwrap();
    let id = registry.register_project(&env, account(10), name, 1, 2024).unwrap();
    assert_eq!(hex(id), "4de246b6d66029b663b0780309975382286f58fc7c639ebae458d955df59edca");
    let name = Symbol::new(b"A_b9z").unwrap();
    let id = registry.register_project(&env, contract(10), name, 1, 2025).unwrap();
    assert_eq!(hex(id), "1ef4e1eb6c4daa9b386d884d05466cdc96c63acbc4f946c8d50cc6ebe56834bc");
}

#[test]
fn project_identifiers_tell_owner_name_and_vintage() {
    let env = Env { sequence: 0, authorized: vec![account(10), account(11), contract(10)] };
    let mut registry = CarbonRegistry::new();
    registry.initialize(account(1), account(2)).unwrap();
    let long = [b'x'; 32];
    let mut ids = Vec::new();
    for owner in [account(10), account(11), contract(10)] {
        for name in [&b""[..], &b"A"[..], &b"AB"[..], &b"ABC"[..], &b"ABCD"[..], &long[..]] {
            for vintage in [0, 2024, u32::MAX] {
                let name = Symbol::new(name).unwrap();
                let id = registry.register_project(&env, owner, name, 1, vintage).unwrap();
                assert!(!ids.contains(&id));
                ids.push(id);
            }
        }
    }
    // The same project gets the same identifier.
    let name = Symbol::new(b"A").unwrap();
    let again = registry.register_project(&env, account(10), name, 9, 2024).unwrap();
    assert!(ids.contains(&again));
}

fn verified_project() -> CarbonProject {
    CarbonProject {
        owner: account(1),
        name: Symbol::new(b"P").unwrap(),
        total_credits: 10,
        issued_credits: 0,
        status: ProjectStatus::Verified,
        vintage_year: 2024,
    }
}

fn post(seller: Address, project: u8, amount: i128, sequence: u32) -> BytesN<32> {
    let mut market = CarbonMarketplace::new();
    market.initialize(account(1), contract(1), contract(2), 0).unwrap();
    let env = Env { sequence, authorized: vec![seller] };
    let project_id = BytesN::from_array([project; 32]);
    market
        .create_listing(&env, seller, project_id, amount, 5, &verified_project(), i128::MAX)
        .unwrap()
}

#[test]
fn listing_identifiers() {
    let id = post(account(5), 3, 4, 77);
    assert_eq!(hex(id), "c5cb1c82e4f07f4f8cf668801b62aa4415e9737af11fa77ad66d14f49981826c");
    let id = post(contract(5), 3, (1 << 100) + 9, 0x01020304);
    assert_eq!(hex(id), "9a6630fe18be35a4fe22145a5082e56b17fbef2955b260fbe629f682f0b860c8");
}

#[test]
fn listing_identifiers_tell_seller_project_amount_and_ledger() {
    let mut ids = Vec::new();
    for seller in [account(5), account(6), contract(5)] {
        for project in [3, 4] {
            for amount in [1, 256, 1 << 64, i128::MAX] {
                for sequence in [0, 1, u32::MAX] {
                    let id = post(seller, project, amount, sequence);
                    assert!(!ids.contains(&id));
                    ids.push(id);
                }
            }
        }
    }
}

#[test]
fn symbols() {
    let symbol = Symbol::new(b"aZ_09").unwrap();
    assert_eq!(symbol.to_bytes(), b"aZ_09".to_vec());
    assert_eq!(symbol, Symbol::new(b"aZ_09").unwrap());
    assert_ne!(symbol, Symbol::new(b"aZ_0").unwrap());
    assert_eq!(Symbol::new(b"").unwrap().to_bytes(), Vec::<u8>::new());
    assert_eq!(Symbol::new(&[b'x'; 32]).unwrap().to_bytes(), vec![b'x'; 32]);
    assert!(Symbol::new(&[b'x'; 33]).is_none());
    for bad in [" ", "a-b", "a\0", "@", "[", "`", "{", "/", ":"] {
        assert!(Symbol::new(bad.as_bytes()).is_none());
    }
}

#[test]
fn authorizations() {
    let env = Env { sequence: 0, authorized: vec![account(1), contract(2)] };
    assert!(env.is_authorized(&account(1)));
    assert!(env.is_authorized(&contract(2)));
    assert!(!env.is_authorized(&account(2)));
    assert!(!env.is_authorized(&contract(1)));
}

#[test]
fn big_endian_bytes() {
    assert_eq!(to_be_bytes(0x0102030405060708, 8), vec![1, 2, 3, 4, 5, 6, 7, 8]);
    assert_eq!(to_be_bytes(-1, 8), vec![0xff; 8]);
    assert_eq!(to_be_bytes(i64::MIN, 8), i64::MIN.to_be_bytes().to_vec());
    assert_eq!(to_be_bytes(258, 4), vec![0, 0, 1, 2]);
    assert_eq!(to_be_bytes(5, 0), Vec::<u8>::new());
}

#[test]
fn subtraction_stops_at_the_bounds() {
    assert_eq!(saturating_sub(5, 7), -2);
    assert_eq!(saturating_sub(i128::MIN, 1), i128::MIN);
    assert_eq!(saturating_sub(i128::MAX, -1), i128::MAX);
    assert_eq!(saturating_sub(0, i128::MIN), i128::MAX);
    assert_eq!(saturating_sub(-1, i128::MIN), i128::MAX);
}

#[test]
fn shares() {
    assert_eq!(checked_share(1_000, 250), Some(25));
    assert_eq!(checked_share(39, 250), Some(0));
    assert_eq!(checked_share(19_999, 9_999), Some(19_997));
    assert_eq!(checked_share(-19_999, 9_999), Some(-19_997));
    assert_eq!(checked_share(19_999, -9_999), Some(-19_997));
    assert_eq!(checked_share(-19_999, -19_999), Some(39_996));
    assert_eq!(checked_share(i128::MAX, 10_000), Some(i128::MAX));
    assert_eq!(checked_share(i128::MIN, 10_000), Some(i128::MIN));
    assert_eq!(checked_share(10_000, i128::MIN), Some(i128::MIN));
    assert_eq!(checked_share(i128::MIN, -10_000), None);
    assert_eq!(checked_share(i128::MAX, 10_001), None);
    assert_eq!(checked_share(1, i128::MAX), Some(i128::MAX / 10_000));
    assert_eq!(checked_share(0, i128::MIN), Some(0));
}
