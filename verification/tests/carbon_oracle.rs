//! Tests of the price oracle: attested prices are stored, anything else is
//! refused.

use carbon_ledger::carbon_oracle::{
    build_aggregated_payload, build_payload, build_payload_bytes, CarbonOracle, Error, PAYLOAD_LEN,
    SCHEMA_VERSION,
};
use carbon_ledger::host::{Address, AddressKind, BytesN, Env};
use ed25519_dalek::{Signer, SigningKey};
use rand::rngs::OsRng;

fn gen_key() -> SigningKey {
    SigningKey::generate(&mut OsRng)
}

fn sign_payload(key: &SigningKey, payload: &[u8; 113]) -> [u8; 64] {
    key.sign(payload).to_bytes()
}

fn n32(b: &[u8; 32]) -> BytesN<32> {
    BytesN::from_array(*b)
}

fn n64(b: &[u8; 64]) -> BytesN<64> {
    BytesN::from_array(*b)
}

fn address(n: u8) -> Address {
    Address { kind: AddressKind::Account, id: BytesN::from_array([n; 32]) }
}

struct Fixture {
    env: Env,
    contract: CarbonOracle,
    admin: Address,
    oracle: Address,
    signing_key: SigningKey,
    script_hash: [u8; 32],
    input_params_hash: [u8; 32],
    feed_id: [u8; 32],
}

impl Fixture {
    fn new() -> Self {
        let admin = address(1);
        let oracle = address(2);
        let env = Env { sequence: 0, authorized: vec![admin, oracle, address(3)] };
        let mut contract = CarbonOracle::new();
        let signing_key = gen_key();
        let pubkey_bytes = signing_key.verifying_key().to_bytes();
        contract.initialize(&env, admin, n32(&pubkey_bytes)).unwrap();

        let mut script_hash = [0u8; 32];
        script_hash[0] = 0xDE;
        script_hash[1] = 0xAD;

        let mut input_params_hash = [0u8; 32];
        input_params_hash[0] = 0xBE;
        input_params_hash[1] = 0xEF;

        let mut feed_id = [0u8; 32];
        feed_id[..6].copy_from_slice(b"carbon");

        Fixture {
            env,
            contract,
            admin,
            oracle,
            signing_key,
            script_hash,
            input_params_hash,
            feed_id,
        }
    }

    /// Signs a price and submits it.
    fn submit_ok(
        &mut self,
        output_value: i64,
        timestamp_utc: i64,
        script_hash: Option<[u8; 32]>,
        input_params_hash: Option<[u8; 32]>,
        feed_id: Option<[u8; 32]>,
        key_override: Option<&SigningKey>,
    ) {
        let sh = script_hash.unwrap_or(self.script_hash);
        let iph = input_params_hash.unwrap_or(self.input_params_hash);
        let fid = feed_id.unwrap_or(self.feed_id);
        let payload = build_payload_bytes(&sh, &iph, output_value, timestamp_utc, &fid);
        let signer = key_override.unwrap_or(&self.signing_key);
        let raw_sig = sign_payload(signer, &payload);
        self.contract
            .submit_price(
                &self.env,
                self.oracle,
                n32(&sh),
                n32(&iph),
                output_value,
                timestamp_utc,
                n32(&fid),
                n64(&raw_sig),
            )
            .unwrap();
    }

    /// Submits a price with this signature and says whether it was refused as
    /// not attested.
    fn try_submit_with_sig(
        &mut self,
        output_value: i64,
        timestamp_utc: i64,
        script_hash: [u8; 32],
        input_params_hash: [u8; 32],
        feed_id: [u8; 32],
        sig: [u8; 64],
    ) -> bool {
        let result = self.contract.submit_price(
            &self.env,
            self.oracle,
            n32(&script_hash),
            n32(&input_params_hash),
            output_value,
            timestamp_utc,
            n32(&feed_id),
            n64(&sig),
        );
        assert!(result.is_ok() || result == Err(Error::InvalidAttestation));
        result.is_err()
    }
}

// ---- Accepted prices ----

#[test]
fn valid_attestation_is_accepted() {
    let mut f = Fixture::new();
    f.submit_ok(1_234_567, 1_720_051_200, None, None, None, None);
}

#[test]
fn price_entry_stored_correctly() {
    let mut f = Fixture::new();
    f.submit_ok(9_999_999, 1_720_000_000, None, None, None, None);

    let entry = f.contract.get_price(n32(&f.feed_id)).unwrap();
    assert_eq!(entry.output_value, 9_999_999);
    assert_eq!(entry.timestamp_utc, 1_720_000_000);
    assert_eq!(entry.script_hash, n32(&f.script_hash));
    assert_eq!(entry.input_params_hash, n32(&f.input_params_hash));
}

#[test]
fn subsequent_updates_overwrite_previous() {
    let mut f = Fixture::new();
    f.submit_ok(100, 1_720_000_000, None, None, None, None);
    f.submit_ok(200, 1_720_003_600, None, None, None, None);
    let entry = f.contract.get_price(n32(&f.feed_id)).unwrap();
    assert_eq!(entry.output_value, 200);
}

#[test]
fn negative_output_value_accepted() {
    let mut f = Fixture::new();
    f.submit_ok(-42, 1_720_000_000, None, None, None, None);
    let entry = f.contract.get_price(n32(&f.feed_id)).unwrap();
    assert_eq!(entry.output_value, -42);
}

// ---- Tampering ----

fn assert_tampered_payload_rejected(idx: usize) {
    let mut f = Fixture::new();
    let output_value: i64 = 1_234_567;
    let timestamp_utc: i64 = 1_720_051_200;

    let mut payload = build_payload_bytes(
        &f.script_hash,
        &f.input_params_hash,
        output_value,
        timestamp_utc,
        &f.feed_id,
    );

    let sig = sign_payload(&f.signing_key, &payload); // sign before tampering

    payload[idx] ^= 0xFF; // tamper after signing

    let sh: [u8; 32] = payload[1..33].try_into().unwrap();
    let iph: [u8; 32] = payload[33..65].try_into().unwrap();
    let ov = i64::from_be_bytes(payload[65..73].try_into().unwrap());
    let ts = i64::from_be_bytes(payload[73..81].try_into().unwrap());
    let fid: [u8; 32] = payload[81..113].try_into().unwrap();

    let rejected = f.try_submit_with_sig(ov, ts, sh, iph, fid, sig);
    assert!(rejected, "tampered payload at byte {idx} was incorrectly accepted");
    assert_eq!(f.contract.get_price(n32(&fid)).unwrap_err(), Error::FeedNotFound);
}

#[test]
fn tampered_schema_version_rejected() {
    // The oracle puts the version byte into the message itself, so a signature
    // over another version attests nothing.
    let mut f = Fixture::new();
    let ov: i64 = 1_234_567;
    let ts: i64 = 1_720_051_200;

    let mut payload = build_payload_bytes(&f.script_hash, &f.input_params_hash, ov, ts, &f.feed_id);
    payload[0] = 0xFF; // wrong schema version

    let sig = sign_payload(&f.signing_key, &payload);

    let rejected =
        f.try_submit_with_sig(ov, ts, f.script_hash, f.input_params_hash, f.feed_id, sig);
    assert!(rejected, "signature over wrong schema_version should be rejected");
}

#[test]
fn tampered_script_hash_rejected() {
    assert_tampered_payload_rejected(1);
}

#[test]
fn tampered_input_params_hash_rejected() {
    assert_tampered_payload_rejected(33);
}

#[test]
fn tampered_output_value_rejected() {
    assert_tampered_payload_rejected(65);
}

#[test]
fn tampered_timestamp_rejected() {
    assert_tampered_payload_rejected(73);
}

#[test]
fn tampered_feed_id_rejected() {
    assert_tampered_payload_rejected(81);
}

#[test]
fn tampered_signature_rejected() {
    let mut f = Fixture::new();
    let ov: i64 = 1_234_567;
    let ts: i64 = 1_720_051_200;
    let payload = build_payload_bytes(&f.script_hash, &f.input_params_hash, ov, ts, &f.feed_id);
    let mut sig = sign_payload(&f.signing_key, &payload);
    sig[0] ^= 0xFF;

    let rejected =
        f.try_submit_with_sig(ov, ts, f.script_hash, f.input_params_hash, f.feed_id, sig);
    assert!(rejected, "tampered signature was incorrectly accepted");
}

#[test]
fn wrong_key_rejected() {
    let mut f = Fixture::new();
    let wrong_key = gen_key();
    let ov: i64 = 1_000;
    let ts: i64 = 1_720_000_000;
    let payload = build_payload_bytes(&f.script_hash, &f.input_params_hash, ov, ts, &f.feed_id);
    let sig = sign_payload(&wrong_key, &payload);

    let rejected =
        f.try_submit_with_sig(ov, ts, f.script_hash, f.input_params_hash, f.feed_id, sig);
    assert!(rejected, "wrong-key attestation was incorrectly accepted");
}

// ---- Setting up ----

#[test]
fn double_initialization_rejected() {
    let mut f = Fixture::new();
    let pubkey_bytes = f.signing_key.verifying_key().to_bytes();
    let result = f.contract.initialize(&f.env, f.admin, n32(&pubkey_bytes));
    assert_eq!(result, Err(Error::AlreadyInitialized));
}

#[test]
fn uninitialized_contract_rejects_submit() {
    let mut contract = CarbonOracle::new();
    let key = gen_key();
    let sh = [0u8; 32];
    let iph = [0u8; 32];
    let fid = [0u8; 32];
    let payload = build_payload_bytes(&sh, &iph, 0, 0, &fid);
    let sig = sign_payload(&key, &payload);
    let oracle = address(2);
    let env = Env { sequence: 0, authorized: vec![oracle] };

    let result =
        contract.submit_price(&env, oracle, n32(&sh), n32(&iph), 0, 0, n32(&fid), n64(&sig));
    assert_eq!(result, Err(Error::NotInitialized));
}

// ---- Key rotation ----

#[test]
fn key_rotation_by_admin_succeeds() {
    let mut f = Fixture::new();
    let new_key = gen_key();
    let new_pubkey_bytes = new_key.verifying_key().to_bytes();
    f.contract.rotate_key(&f.env, f.admin, n32(&new_pubkey_bytes)).unwrap();

    f.submit_ok(42, 1_720_000_000, None, None, None, Some(&new_key));
}

#[test]
fn old_key_rejected_after_rotation() {
    let mut f = Fixture::new();
    let new_key = gen_key();
    let new_pubkey_bytes = new_key.verifying_key().to_bytes();
    f.contract.rotate_key(&f.env, f.admin, n32(&new_pubkey_bytes)).unwrap();

    let ov: i64 = 42;
    let ts: i64 = 1_720_000_000;
    let payload = build_payload_bytes(&f.script_hash, &f.input_params_hash, ov, ts, &f.feed_id);
    let sig = sign_payload(&f.signing_key, &payload); // old key

    let rejected =
        f.try_submit_with_sig(ov, ts, f.script_hash, f.input_params_hash, f.feed_id, sig);
    assert!(rejected, "old key should be rejected after rotation");
}

#[test]
fn key_rotation_by_non_admin_rejected() {
    let mut f = Fixture::new();
    let non_admin = address(3);
    let new_key = gen_key();
    let new_pubkey_bytes = new_key.verifying_key().to_bytes();

    let result = f.contract.rotate_key(&f.env, non_admin, n32(&new_pubkey_bytes));
    assert_eq!(result, Err(Error::Unauthorized));
    assert_eq!(
        f.contract.get_config().unwrap().oracle_pubkey.to_array(),
        f.signing_key.verifying_key().to_bytes()
    );
}

// ---- Feeds ----

#[test]
fn get_price_unknown_feed_returns_not_found() {
    let f = Fixture::new();
    let unknown = [0xFFu8; 32];
    let result = f.contract.get_price(n32(&unknown));
    assert_eq!(result.unwrap_err(), Error::FeedNotFound);
}

#[test]
fn multiple_feeds_stored_independently() {
    let mut f = Fixture::new();
    let mut feed_a = [0u8; 32];
    feed_a[0] = 0xAA;
    let mut feed_b = [0u8; 32];
    feed_b[0] = 0xBB;

    f.submit_ok(111, 1_720_000_000, None, None, Some(feed_a), None);
    f.submit_ok(222, 1_720_003_600, None, None, Some(feed_b), None);

    let entry_a = f.contract.get_price(n32(&feed_a)).unwrap();
    let entry_b = f.contract.get_price(n32(&feed_b)).unwrap();
    assert_eq!(entry_a.output_value, 111);
    assert_eq!(entry_b.output_value, 222);
}

// ---- Messages ----

#[test]
fn payload_layout() {
    let payload = build_payload_bytes(&[0x11; 32], &[0x22; 32], -2, 0x0102030405060708, &[0x33; 32]);
    assert_eq!(payload.len(), PAYLOAD_LEN);
    assert_eq!(payload[0], SCHEMA_VERSION);
    assert_eq!(&payload[1..33], &[0x11u8; 32][..]);
    assert_eq!(&payload[33..65], &[0x22u8; 32][..]);
    assert_eq!(&payload[65..73], &[0xFF, 0xFF, 0xFF, 0xFF, 0xFF, 0xFF, 0xFF, 0xFE]);
    assert_eq!(&payload[73..81], &[1, 2, 3, 4, 5, 6, 7, 8]);
    assert_eq!(&payload[81..113], &[0x33u8; 32][..]);
    let message =
        build_payload(1, &n32(&[0x11; 32]), &n32(&[0x22; 32]), -2, 0x0102030405060708, &n32(&[0x33; 32]));
    assert_eq!(message, payload.to_vec());
}

#[test]
fn payload_extreme_values() {
    let payload = build_payload_bytes(&[0; 32], &[0; 32], i64::MIN, i64::MAX, &[0; 32]);
    assert_eq!(&payload[65..73], &i64::MIN.to_be_bytes());
    assert_eq!(&payload[73..81], &i64::MAX.to_be_bytes());
}

#[test]
fn aggregated_payload_layout() {
    let message = build_aggregated_payload(&n32(&[0x44; 32]), 258, -1, 0x01020304);
    let mut expected = vec![2u8];
    expected.extend_from_slice(&[0x44; 32]);
    expected.extend_from_slice(&[0, 0, 0, 0, 0, 0, 1, 2]);
    expected.extend_from_slice(&[0xFF; 8]);
    expected.extend_from_slice(&[1, 2, 3, 4]);
    assert_eq!(message, expected);
}

// ---- Recorded verdicts ----

#[test]
fn attested_price_is_recorded() {
    let mut f = Fixture::new();
    f.env.sequence = 77;
    let feed = n32(&f.feed_id);
    let result = f.contract.record_price(&f.env, n32(&[1; 32]), n32(&[2; 32]), 5, 6, feed, true);
    assert_eq!(result, Ok(()));
    let entry = f.contract.get_price(feed).unwrap();
    assert_eq!(entry.output_value, 5);
    assert_eq!(entry.timestamp_utc, 6);
    assert_eq!(entry.recorded_at, 77);
}

#[test]
fn unattested_price_is_refused() {
    let mut f = Fixture::new();
    let feed = n32(&f.feed_id);
    let result = f.contract.record_price(&f.env, n32(&[1; 32]), n32(&[2; 32]), 5, 6, feed, false);
    assert_eq!(result, Err(Error::InvalidAttestation));
    assert_eq!(f.contract.get_price(feed).unwrap_err(), Error::FeedNotFound);
    let mut unset = CarbonOracle::new();
    let result = unset.record_price(&f.env, n32(&[1; 32]), n32(&[2; 32]), 5, 6, feed, true);
    assert_eq!(result, Err(Error::NotInitialized));
}

#[test]
fn queries_need_a_configuration() {
    let contract = CarbonOracle::new();
    assert_eq!(contract.get_price(n32(&[0; 32])).unwrap_err(), Error::NotInitialized);
    assert_eq!(contract.get_config().unwrap_err(), Error::NotInitialized);
    assert_eq!(contract.get_aggregated_price(n32(&[0; 32])).unwrap_err(), Error::NotInitialized);
}

#[test]
fn rotation_needs_a_configuration() {
    let mut contract = CarbonOracle::new();
    let env = Env { sequence: 0, authorized: vec![address(1)] };
    assert_eq!(contract.rotate_key(&env, address(1), n32(&[0; 32])), Err(Error::NotInitialized));
}

// ---- Aggregated prices ----

fn sources() -> Vec<(Vec<u8>, i64, i128, i128)> {
    vec![
        (b"cbl".to_vec(), 100, 1, 2),
        (b"acx".to_vec(), 110, 1, 4),
        (b"ice".to_vec(), 900, 1, 4),
    ]
}

fn sign_aggregate(f: &Fixture, value: i64, timestamp: i64, count: u32) -> BytesN<64> {
    let message = build_aggregated_payload(&n32(&f.feed_id), value, timestamp, count);
    n64(&f.signing_key.sign(&message).to_bytes())
}

#[test]
fn aggregated_price_is_stored() {
    let mut f = Fixture::new();
    f.env.sequence = 9;
    let sig = sign_aggregate(&f, 104, 1_720_000_000, 3);
    let result = f.contract.submit_aggregated_price(
        &f.env,
        f.oracle,
        n32(&f.feed_id),
        104,
        sources(),
        b"weighted_median".to_vec(),
        b"iqr".to_vec(),
        1,
        1_720_000_000,
        sig,
    );
    assert_eq!(result, Ok(()));
    let entry = f.contract.get_aggregated_price(n32(&f.feed_id)).unwrap();
    assert_eq!(entry.aggregate_value, 104);
    assert_eq!(entry.recorded_at, 9);
    assert_eq!(entry.metadata.method, b"weighted_median");
    assert_eq!(entry.metadata.outlier_method, b"iqr");
    assert_eq!(entry.metadata.num_sources_used, 2);
    assert_eq!(entry.metadata.num_sources_rejected, 1);
    assert_eq!(entry.metadata.timestamp_utc, 1_720_000_000);
    assert_eq!(entry.source_values.len(), 3);
    assert_eq!(entry.source_values[2].source_id, b"ice");
    assert_eq!(entry.source_values[2].value, 900);
    assert_eq!(entry.source_values[0].weight_numerator, 1);
    assert_eq!(entry.source_values[0].weight_denominator, 2);
    // The plain feed of the same name is another one.
    assert_eq!(f.contract.get_price(n32(&f.feed_id)).unwrap_err(), Error::FeedNotFound);
}

#[test]
fn aggregated_price_needs_its_own_signature() {
    let mut f = Fixture::new();
    // A signature for another number of sources.
    let sig = sign_aggregate(&f, 104, 1_720_000_000, 2);
    let result = f.contract.submit_aggregated_price(
        &f.env,
        f.oracle,
        n32(&f.feed_id),
        104,
        sources(),
        b"weighted_median".to_vec(),
        b"iqr".to_vec(),
        1,
        1_720_000_000,
        sig,
    );
    assert_eq!(result, Err(Error::InvalidAttestation));
    assert_eq!(
        f.contract.get_aggregated_price(n32(&f.feed_id)).unwrap_err(),
        Error::FeedNotFound
    );
}

#[test]
fn guarded_aggregated_price_is_stored() {
    let mut f = Fixture::new();
    let sig = sign_aggregate(&f, -7, 0, 3);
    let result = f.contract.try_submit_aggregated_price(
        &f.env,
        f.oracle,
        n32(&f.feed_id),
        -7,
        sources(),
        Vec::new(),
        Vec::new(),
        3,
        0,
        sig,
    );
    assert_eq!(result, Some(Ok(())));
    let entry = f.contract.get_aggregated_price(n32(&f.feed_id)).unwrap();
    assert_eq!(entry.aggregate_value, -7);
    assert_eq!(entry.metadata.num_sources_used, 0);
}

#[test]
fn more_rejected_sources_than_there_are() {
    let mut f = Fixture::new();
    let sig = sign_aggregate(&f, 1, 0, 3);
    let attested = f.contract.try_submit_aggregated_price(
        &f.env,
        f.oracle,
        n32(&f.feed_id),
        1,
        sources(),
        Vec::new(),
        Vec::new(),
        4,
        0,
        sig,
    );
    assert_eq!(attested, None);
    let unattested = f.contract.try_submit_aggregated_price(
        &f.env,
        f.oracle,
        n32(&f.feed_id),
        2,
        sources(),
        Vec::new(),
        Vec::new(),
        4,
        0,
        sig,
    );
    assert_eq!(unattested, Some(Err(Error::InvalidAttestation)));
    assert_eq!(
        f.contract.get_aggregated_price(n32(&f.feed_id)).unwrap_err(),
        Error::FeedNotFound
    );
}

#[test]
fn aggregated_price_needs_a_configuration() {
    let f = Fixture::new();
    let mut contract = CarbonOracle::new();
    let sig = sign_aggregate(&f, 1, 0, 0);
    let result = contract.submit_aggregated_price(
        &f.env,
        f.oracle,
        n32(&f.feed_id),
        1,
        Vec::new(),
        Vec::new(),
        Vec::new(),
        0,
        0,
        sig,
    );
    assert_eq!(result, Err(Error::NotInitialized));
    let result = contract.try_submit_aggregated_price(
        &f.env,
        f.oracle,
        n32(&f.feed_id),
        1,
        Vec::new(),
        Vec::new(),
        Vec::new(),
        5,
        0,
        sig,
    );
    assert_eq!(result, Some(Err(Error::NotInitialized)));
}

#[test]
fn signatures_do_not_cross_message_kinds() {
    // A signature of an aggregated price attests no plain price, and the other
    // way round.
    let mut f = Fixture::new();
    let sig = sign_aggregate(&f, 104, 1_720_000_000, 3);
    let rejected = f.try_submit_with_sig(
        104,
        1_720_000_000,
        f.script_hash,
        f.input_params_hash,
        f.feed_id,
        sig.to_array(),
    );
    assert!(rejected);
    let payload =
        build_payload_bytes(&f.script_hash, &f.input_params_hash, 104, 1_720_000_000, &f.feed_id);
    let plain = n64(&sign_payload(&f.signing_key, &payload));
    let result = f.contract.submit_aggregated_price(
        &f.env,
        f.oracle,
        n32(&f.feed_id),
        104,
        sources(),
        Vec::new(),
        Vec::new(),
        0,
        1_720_000_000,
        plain,
    );
    assert_eq!(result, Err(Error::InvalidAttestation));
}

#[test]
fn malformed_key_attests_nothing() {
    // These bytes are no point of the curve.
    let mut bytes = [0u8; 32];
    bytes[0] = 2;
    let mut contract = CarbonOracle::new();
    let admin = address(1);
    let env = Env { sequence: 0, authorized: vec![admin] };
    contract.initialize(&env, admin, n32(&bytes)).unwrap();
    let result = contract.submit_price(
        &env,
        admin,
        n32(&[0; 32]),
        n32(&[0; 32]),
        0,
        0,
        n32(&[0; 32]),
        n64(&[0; 64]),
    );
    assert_eq!(result, Err(Error::InvalidAttestation));
}

#[test]
fn price_under_old_key_outlives_rotation() {
    let mut f = Fixture::new();
    f.submit_ok(42, 1_720_000_000, None, None, None, None);
    let new_key = gen_key();
    f.contract.rotate_key(&f.env, f.admin, n32(&new_key.verifying_key().to_bytes())).unwrap();
    assert_eq!(f.contract.get_price(n32(&f.feed_id)).unwrap().output_value, 42);
    assert_eq!(f.contract.get_config().unwrap().admin, f.admin);
}

#[test]
fn tampered_aggregate_is_refused() {
    let mut f = Fixture::new();
    let sig = sign_aggregate(&f, 104, 1_720_000_000, 3);
    let mut other_feed = f.feed_id;
    other_feed[31] ^= 1;
    let cases = [
        (f.feed_id, 105, 1_720_000_000),
        (f.feed_id, 104, 1_720_000_001),
        (other_feed, 104, 1_720_000_000),
    ];
    for (feed_id, value, timestamp) in cases {
        let result = f.contract.submit_aggregated_price(
            &f.env,
            f.oracle,
            n32(&feed_id),
            value,
            sources(),
            Vec::new(),
            Vec::new(),
            0,
            timestamp,
            sig,
        );
        assert_eq!(result, Err(Error::InvalidAttestation));
    }
}

#[test]
fn aggregate_keeps_ten_sources() {
    for count in [9u32, 10, 11, 25] {
        let mut f = Fixture::new();
        let many: Vec<(Vec<u8>, i64, i128, i128)> =
            (0..count).map(|i| (vec![i as u8], i as i64, 1, 1)).collect();
        let sig = sign_aggregate(&f, 1, 0, count);
        let result = f.contract.submit_aggregated_price(
            &f.env,
            f.oracle,
            n32(&f.feed_id),
            1,
            many,
            Vec::new(),
            Vec::new(),
            2,
            0,
            sig,
        );
        assert_eq!(result, Ok(()));
        let entry = f.contract.get_aggregated_price(n32(&f.feed_id)).unwrap();
        assert_eq!(entry.source_values.len(), std::cmp::min(count, 10) as usize);
        for (i, source) in entry.source_values.iter().enumerate() {
            assert_eq!(source.value, i as i64);
        }
        assert_eq!(entry.metadata.num_sources_used, count - 2);
        assert_eq!(entry.metadata.num_sources_rejected, 2);
    }
}
