//! The price oracle: values of carbon sequestration, each accepted only with a
//! signature of the oracle's key over the value and its provenance.

use vstd::prelude::*;
use crate::crypto::ed25519_verify;
use crate::crypto::ed25519_valid;
use crate::host::{Address, BytesN, Env};
use crate::numeric::to_be_bytes;
use crate::numeric::{be_bytes, lemma_be_bytes_len};
use crate::table::Table;

verus! {

/// The length of the message that is signed for a price.
pub const PAYLOAD_LEN: usize = 113;

/// How many source values an aggregated price keeps at most.
pub const MAX_SOURCES: usize = 10;

/// The version of the signed message's layout.
pub const SCHEMA_VERSION: u8 = 1;

/// Who runs the oracle and whose signatures it trusts.
#[derive(Clone, Copy, Debug)]
pub struct Config {
    pub admin: Address,
    /// The Ed25519 public key of the oracle.
    pub oracle_pubkey: BytesN<32>,
}

/// The last price of a feed.
#[derive(Clone, Copy, Debug)]
pub struct PriceEntry {
    /// Carbon sequestered, in micrograms of CO2 equivalent per square meter.
    pub output_value: i64,
    /// When the value was computed, in seconds since the epoch.
    pub timestamp_utc: i64,
    /// The SHA-256 digest of the script that computed the value.
    pub script_hash: BytesN<32>,
    /// The SHA-256 digest of the script's input parameters.
    pub input_params_hash: BytesN<32>,
    /// The ledger in which the entry was recorded.
    pub recorded_at: u32,
}

/// The price that one source reports. Names are byte strings in any encoding.
#[derive(Debug)]
pub struct SourceValue {
    /// The name of the source.
    pub source_id: Vec<u8>,
    pub value: i64,
    pub weight_numerator: i128,
    pub weight_denominator: i128,
}

/// How an aggregated price came about.
#[derive(Debug)]
pub struct AggregationMetadata {
    /// The method of aggregation, such as `weighted_median`.
    pub method: Vec<u8>,
    /// The method that rejects outliers, such as `iqr`.
    pub outlier_method: Vec<u8>,
    pub num_sources_used: u32,
    pub num_sources_rejected: u32,
    /// When the sources were aggregated, in seconds since the epoch.
    pub timestamp_utc: i64,
}

/// The last aggregated price of a feed.
#[derive(Debug)]
pub struct AggregatedPriceEntry {
    pub aggregate_value: i64,
    /// The values of the first sources, up to ten.
    pub source_values: Vec<SourceValue>,
    pub metadata: AggregationMetadata,
    /// The ledger in which the entry was recorded.
    pub recorded_at: u32,
}

/// The reasons for which the oracle refuses a request.
#[derive(Clone, Copy, Debug, PartialEq, Eq, Structural)]
pub enum Error {
    /// The oracle has been set up before.
    AlreadyInitialized,
    /// The oracle has not been set up.
    NotInitialized,
    /// The caller is not the administrator.
    Unauthorized,
    /// The signature does not attest the message.
    InvalidAttestation,
    /// The feed has no price.
    FeedNotFound,
    /// The version of the message's layout is not supported.
    UnsupportedSchemaVersion,
}

/// Everything the oracle remembers.
#[verifier::ext_equal]
pub struct OracleState {
    pub config: Option<Config>,
    pub feeds: Map<BytesN<32>, PriceEntry>,
    pub aggregated_feeds: Map<BytesN<32>, AggregatedPriceEntry>,
}

/// The price oracle.
pub struct CarbonOracle {
    pub config: Option<Config>,
    pub feeds: Table<BytesN<32>, PriceEntry>,
    pub aggregated_feeds: Table<BytesN<32>, AggregatedPriceEntry>,
}

impl View for CarbonOracle {
    type V = OracleState;

    open spec fn view(&self) -> OracleState {
        OracleState {
            config: self.config,
            feeds: self.feeds@,
            aggregated_feeds: self.aggregated_feeds@,
        }
    }
}

/// The message that is signed for a price.
pub open spec fn payload(
    schema_version: u8,
    script_hash: Seq<u8>,
    input_params_hash: Seq<u8>,
    output_value: i64,
    timestamp_utc: i64,
    feed_id: Seq<u8>,
) -> Seq<u8> {
    seq![schema_version] + script_hash + input_params_hash + be_bytes(output_value as int, 8)
        + be_bytes(timestamp_utc as int, 8) + feed_id
}

/// The message that is signed for an aggregated price.
pub open spec fn aggregated_payload(
    feed_id: Seq<u8>,
    aggregate_value: i64,
    timestamp_utc: i64,
    num_sources: nat,
) -> Seq<u8> {
    seq![2u8] + feed_id + be_bytes(aggregate_value as int, 8) + be_bytes(timestamp_utc as int, 8)
        + be_bytes(num_sources as int, 4)
}

/// Appends the bytes of `more` to `message`.
fn append(message: &mut Vec<u8>, more: &[u8])
    ensures
        final(message)@ == old(message)@ + more@,
{
    let mut i: usize = 0;
    assert(message@ =~= old(message)@ + more@.take(0));
    while i < more.len()
        invariant
            i <= more@.len(),
            message@ == old(message)@ + more@.take(i as int),
        decreases more@.len() - i,
    {
        message.push(more[i]);
        i = i + 1;
        assert(message@ =~= old(message)@ + more@.take(i as int));
    }
    assert(more@.take(i as int) =~= more@);
}

/// The message that is signed for a price, laid out as
///
/// ```text
/// [0]        schema_version    : one byte
/// [1..33]    script_hash       : 32 bytes
/// [33..65]   input_params_hash : 32 bytes
/// [65..73]   output_value      : 8 bytes, big-endian
/// [73..81]   timestamp_utc     : 8 bytes, big-endian
/// [81..113]  feed_id           : 32 bytes
/// ```
pub fn build_payload(
    schema_version: u8,
    script_hash: &BytesN<32>,
    input_params_hash: &BytesN<32>,
    output_value: i64,
    timestamp_utc: i64,
    feed_id: &BytesN<32>,
) -> (r: Vec<u8>)
    ensures
        r@ == payload(
            schema_version,
            script_hash@,
            input_params_hash@,
            output_value,
            timestamp_utc,
            feed_id@,
        ),
        r@.len() == PAYLOAD_LEN,
{
    let mut message: Vec<u8> = Vec::new();
    message.push(schema_version);
    append(&mut message, script_hash.bytes.as_slice());
    append(&mut message, input_params_hash.bytes.as_slice());
    append(&mut message, to_be_bytes(output_value, 8).as_slice());
    append(&mut message, to_be_bytes(timestamp_utc, 8).as_slice());
    append(&mut message, feed_id.bytes.as_slice());
    proof {
        lemma_be_bytes_len(output_value as int, 8);
        lemma_be_bytes_len(timestamp_utc as int, 8);
        assert(message@ =~= payload(
            schema_version,
            script_hash@,
            input_params_hash@,
            output_value,
            timestamp_utc,
            feed_id@,
        ));
    }
    message
}

/// The message that is signed for a price under the current layout, as an
/// array.
pub fn build_payload_bytes(
    script_hash: &[u8; 32],
    input_params_hash: &[u8; 32],
    output_value: i64,
    timestamp_utc: i64,
    feed_id: &[u8; 32],
) -> (r: [u8; 113])
    ensures
        r@ == payload(
            SCHEMA_VERSION,
            script_hash@,
            input_params_hash@,
            output_value,
            timestamp_utc,
            feed_id@,
        ),
{
    let message = build_payload(
        SCHEMA_VERSION,
        &BytesN { bytes: *script_hash },
        &BytesN { bytes: *input_params_hash },
        output_value,
        timestamp_utc,
        &BytesN { bytes: *feed_id },
    );
    let mut buf: [u8; 113] = [0u8; 113];
    let mut i: usize = 0;
    while i < 113
        invariant
            i <= 113,
            message@.len() == 113,
            forall|j: int| 0 <= j < i ==> buf@[j] == message@[j],
        decreases 113 - i,
    {
        buf[i] = message[i];
        i = i + 1;
    }
    assert(buf@ =~= message@);
    buf
}

/// The message that is signed for an aggregated price: a version byte of 2, the
/// feed, the value, the time and the number of sources.
pub fn build_aggregated_payload(
    feed_id: &BytesN<32>,
    aggregate_value: i64,
    timestamp_utc: i64,
    num_sources: u32,
) -> (r: Vec<u8>)
    ensures
        r@ == aggregated_payload(feed_id@, aggregate_value, timestamp_utc, num_sources as nat),
{
    let mut message: Vec<u8> = Vec::new();
    message.push(2);
    append(&mut message, feed_id.bytes.as_slice());
    append(&mut message, to_be_bytes(aggregate_value, 8).as_slice());
    append(&mut message, to_be_bytes(timestamp_utc, 8).as_slice());
    append(&mut message, to_be_bytes(num_sources as i64, 4).as_slice());
    assert(message@ =~= aggregated_payload(
        feed_id@,
        aggregate_value,
        timestamp_utc,
        num_sources as nat,
    ));
    message
}

/// The values that `sources` report.
pub open spec fn source_list(sources: Seq<(Vec<u8>, i64, i128, i128)>) -> Seq<SourceValue> {
    sources.map_values(
        |source: (Vec<u8>, i64, i128, i128)|
            SourceValue {
                source_id: source.0,
                value: source.1,
                weight_numerator: source.2,
                weight_denominator: source.3,
            },
    )
}

/// The sources whose values are kept: the first ones, up to the limit.
pub open spec fn kept_sources(sources: Seq<(Vec<u8>, i64, i128, i128)>) -> Seq<
    (Vec<u8>, i64, i128, i128),
> {
    if sources.len() <= MAX_SOURCES {
        sources
    } else {
        sources.take(MAX_SOURCES as int)
    }
}

impl AggregatedPriceEntry {
    /// Whether the entry records this aggregation.
    pub open spec fn records(
        self,
        now: u32,
        aggregate_value: i64,
        sources: Seq<(Vec<u8>, i64, i128, i128)>,
        method: Vec<u8>,
        outlier_method: Vec<u8>,
        num_sources_rejected: u32,
        timestamp_utc: i64,
    ) -> bool {
        &&& self.aggregate_value == aggregate_value
        &&& self.source_values@ == source_list(kept_sources(sources))
        &&& self.metadata == (AggregationMetadata {
            method,
            outlier_method,
            num_sources_used: (sources.len() - num_sources_rejected) as u32,
            num_sources_rejected,
            timestamp_utc,
        })
        &&& self.recorded_at == now
    }
}

impl OracleState {
    /// The state before the oracle is set up.
    pub open spec fn empty() -> OracleState {
        OracleState { config: None, feeds: Map::empty(), aggregated_feeds: Map::empty() }
    }

    /// The state with this configuration.
    pub open spec fn configured(self, config: Config) -> OracleState {
        OracleState { config: Some(config), ..self }
    }

    /// The state with `entry` as the last price of a feed.
    pub open spec fn with_price(self, feed_id: BytesN<32>, entry: PriceEntry) -> OracleState {
        OracleState { feeds: self.feeds.insert(feed_id, entry), ..self }
    }

    /// The state with `entry` as the last aggregated price of a feed.
    pub open spec fn with_aggregate(
        self,
        feed_id: BytesN<32>,
        entry: AggregatedPriceEntry,
    ) -> OracleState {
        OracleState { aggregated_feeds: self.aggregated_feeds.insert(feed_id, entry), ..self }
    }

    /// Whether the configured key has signed `message`.
    pub open spec fn attests(self, message: Seq<u8>, signature: BytesN<64>) -> bool {
        ed25519_valid(self.config->0.oracle_pubkey@, message, signature@)
    }

    /// Why a price is refused, given whether its message is attested.
    pub open spec fn submit_refusal(self, attested: bool) -> Option<Error> {
        if self.config is None {
            Some(Error::NotInitialized)
        } else if !attested {
            Some(Error::InvalidAttestation)
        } else {
            None
        }
    }

    /// Why `admin` cannot change the key.
    pub open spec fn rotate_refusal(self, admin: Address) -> Option<Error> {
        match self.config {
            None => Some(Error::NotInitialized),
            Some(config) => if admin != config.admin {
                Some(Error::Unauthorized)
            } else {
                None
            },
        }
    }
}

impl CarbonOracle {
    /// An oracle that has not been set up.
    pub fn new() -> (r: Self)
        ensures
            r@ == OracleState::empty(),
    {
        CarbonOracle { config: None, feeds: Table::new(), aggregated_feeds: Table::new() }
    }

    /// Sets the oracle up with the public key that it trusts. This can be done
    /// once.
    pub fn initialize(&mut self, e: &Env, admin: Address, oracle_pubkey: BytesN<32>) -> (r: Result<
        (),
        Error,
    >)
        requires
            old(self)@.config is None ==> e.authorizes(admin),
        ensures
            match (r, old(self)@.config) {
                (Ok(_), None) => final(self)@ == old(self)@.configured(
                    (Config { admin, oracle_pubkey }),
                ),
                (Err(error), Some(_)) => error == Error::AlreadyInitialized && final(self)@ == old(
                    self,
                )@,
                _ => false,
            },
    {
        if self.config.is_some() {
            return Err(Error::AlreadyInitialized);
        }
        self.config = Some(Config { admin, oracle_pubkey });
        Ok(())
    }

    /// Records a price, given whether its message is attested.
    pub fn record_price(
        &mut self,
        e: &Env,
        script_hash: BytesN<32>,
        input_params_hash: BytesN<32>,
        output_value: i64,
        timestamp_utc: i64,
        feed_id: BytesN<32>,
        attested: bool,
    ) -> (r: Result<(), Error>)
        ensures
            match (r, old(self)@.submit_refusal(attested)) {
                (Ok(_), None) => final(self)@ == old(self)@.with_price(
                    feed_id,
                    (PriceEntry {
                        output_value,
                        timestamp_utc,
                        script_hash,
                        input_params_hash,
                        recorded_at: e.sequence,
                    }),
                ),
                (Err(error), Some(refusal)) => error == refusal && final(self)@ == old(self)@,
                _ => false,
            },
    {
        if self.config.is_none() {
            return Err(Error::NotInitialized);
        }
        if !attested {
            return Err(Error::InvalidAttestation);
        }
        self.feeds.set(
            feed_id,
            PriceEntry {
                output_value,
                timestamp_utc,
                script_hash,
                input_params_hash,
                recorded_at: e.sequence,
            },
        );
        Ok(())
    }

    /// Submits a price for a feed, with the oracle key's signature of its
    /// message.
    pub fn submit_price(
        &mut self,
        e: &Env,
        oracle: Address,
        script_hash: BytesN<32>,
        input_params_hash: BytesN<32>,
        output_value: i64,
        timestamp_utc: i64,
        feed_id: BytesN<32>,
        signature: BytesN<64>,
    ) -> (r: Result<(), Error>)
        requires
            old(self)@.config is Some ==> e.authorizes(oracle),
        ensures
            ({
                let message = payload(
                    SCHEMA_VERSION,
                    script_hash@,
                    input_params_hash@,
                    output_value,
                    timestamp_utc,
                    feed_id@,
                );
                match (r, old(self)@.submit_refusal(old(self)@.attests(message, signature))) {
                    (Ok(_), None) => final(self)@ == old(self)@.with_price(
                        feed_id,
                        (PriceEntry {
                            output_value,
                            timestamp_utc,
                            script_hash,
                            input_params_hash,
                            recorded_at: e.sequence,
                        }),
                    ),
                    (Err(error), Some(refusal)) => error == refusal && final(self)@ == old(self)@,
                    _ => false,
                }
            }),
    {
        let cfg = match self.config {
            Some(cfg) => cfg,
            None => return Err(Error::NotInitialized),
        };
        let message = build_payload(
            SCHEMA_VERSION,
            &script_hash,
            &input_params_hash,
            output_value,
            timestamp_utc,
            &feed_id,
        );
        let attested: bool = ed25519_verify(&cfg.oracle_pubkey, message.as_slice(), &signature);
        self.record_price(
            e,
            script_hash,
            input_params_hash,
            output_value,
            timestamp_utc,
            feed_id,
            attested,
        )
    }

    /// Changes the public key that the oracle trusts. Only the administrator may
    /// do so.
    pub fn rotate_key(&mut self, e: &Env, admin: Address, new_pubkey: BytesN<32>) -> (r: Result<
        (),
        Error,
    >)
        requires
            old(self)@.config is Some ==> e.authorizes(admin),
        ensures
            match (r, old(self)@.rotate_refusal(admin)) {
                (Ok(_), None) => final(self)@ == old(self)@.configured(
                    (Config { oracle_pubkey: new_pubkey, ..old(self)@.config->0 }),
                ),
                (Err(error), Some(refusal)) => error == refusal && final(self)@ == old(self)@,
                _ => false,
            },
    {
        let cfg = match self.config {
            Some(cfg) => cfg,
            None => return Err(Error::NotInitialized),
        };
        if admin != cfg.admin {
            return Err(Error::Unauthorized);
        }
        self.config = Some(Config { oracle_pubkey: new_pubkey, ..cfg });
        Ok(())
    }

    /// The last price of a feed.
    pub fn get_price(&self, feed_id: BytesN<32>) -> (r: Result<PriceEntry, Error>)
        ensures
            r == (if self@.config is None {
                Err(Error::NotInitialized)
            } else if self@.feeds.contains_key(feed_id) {
                Ok(self@.feeds[feed_id])
            } else {
                Err(Error::FeedNotFound)
            }),
    {
        if self.config.is_none() {
            return Err(Error::NotInitialized);
        }
        match self.feeds.read(&feed_id) {
            Some(entry) => Ok(entry),
            None => Err(Error::FeedNotFound),
        }
    }

    /// Records an aggregated price, given whether its message is attested.
    pub fn record_aggregated_price(
        &mut self,
        e: &Env,
        feed_id: BytesN<32>,
        aggregate_value: i64,
        source_values: Vec<(Vec<u8>, i64, i128, i128)>,
        method: Vec<u8>,
        outlier_method: Vec<u8>,
        num_sources_rejected: u32,
        timestamp_utc: i64,
        attested: bool,
    ) -> (r: Result<(), Error>)
        requires
            source_values@.len() <= u32::MAX,
            old(self)@.config is Some && attested ==> num_sources_rejected <= source_values@.len(),
        ensures
            match (r, old(self)@.submit_refusal(attested)) {
                (Ok(_), None) => {
                    &&& final(self)@ == old(self)@.with_aggregate(
                        feed_id,
                        final(self)@.aggregated_feeds[feed_id],
                    )
                    &&& final(self)@.aggregated_feeds[feed_id].records(
                        e.sequence,
                        aggregate_value,
                        source_values@,
                        method,
                        outlier_method,
                        num_sources_rejected,
                        timestamp_utc,
                    )
                },
                (Err(error), Some(refusal)) => error == refusal && final(self)@ == old(self)@,
                _ => false,
            },
    {
        if self.config.is_none() {
            return Err(Error::NotInitialized);
        }
        if !attested {
            return Err(Error::InvalidAttestation);
        }
        let num_sources: u32 = source_values.len() as u32;
        let ghost sources = source_values@;
        let mut listed: Vec<SourceValue> = Vec::new();
        for source in iter: source_values
            invariant
                iter.seq() == sources,
                listed@ == source_list(kept_sources(sources.take(iter.index() as int))),
        {
            if listed.len() < MAX_SOURCES {
                listed.push(
                    SourceValue {
                        source_id: source.0,
                        value: source.1,
                        weight_numerator: source.2,
                        weight_denominator: source.3,
                    },
                );
            }
            assert(listed@ =~= source_list(kept_sources(sources.take(iter.index() + 1))));
        }
        assert(sources.take(sources.len() as int) =~= sources);
        let entry = AggregatedPriceEntry {
            aggregate_value,
            source_values: listed,
            metadata: AggregationMetadata {
                method,
                outlier_method,
                num_sources_used: num_sources - num_sources_rejected,
                num_sources_rejected,
                timestamp_utc,
            },
            recorded_at: e.sequence,
        };
        self.aggregated_feeds.set(feed_id, entry);
        assert(self@.aggregated_feeds =~= old(self)@.with_aggregate(
            feed_id,
            entry,
        ).aggregated_feeds);
        Ok(())
    }

    /// Submits an aggregated price for a feed, with the oracle key's signature
    /// of its message. No more sources can have been rejected than there are.
    pub fn submit_aggregated_price(
        &mut self,
        e: &Env,
        oracle: Address,
        feed_id: BytesN<32>,
        aggregate_value: i64,
        source_values: Vec<(Vec<u8>, i64, i128, i128)>,
        method: Vec<u8>,
        outlier_method: Vec<u8>,
        num_sources_rejected: u32,
        timestamp_utc: i64,
        signature: BytesN<64>,
    ) -> (r: Result<(), Error>)
        requires
            source_values@.len() <= u32::MAX,
            old(self)@.config is Some ==> e.authorizes(oracle),
            old(self)@.config is Some && old(self)@.attests(
                aggregated_payload(
                    feed_id@,
                    aggregate_value,
                    timestamp_utc,
                    source_values@.len(),
                ),
                signature,
            ) ==> num_sources_rejected <= source_values@.len(),
        ensures
            ({
                let message = aggregated_payload(
                    feed_id@,
                    aggregate_value,
                    timestamp_utc,
                    source_values@.len(),
                );
                match (r, old(self)@.submit_refusal(old(self)@.attests(message, signature))) {
                    (Ok(_), None) => {
                        &&& final(self)@ == old(self)@.with_aggregate(
                            feed_id,
                            final(self)@.aggregated_feeds[feed_id],
                        )
                        &&& final(self)@.aggregated_feeds[feed_id].records(
                            e.sequence,
                            aggregate_value,
                            source_values@,
                            method,
                            outlier_method,
                            num_sources_rejected,
                            timestamp_utc,
                        )
                    },
                    (Err(error), Some(refusal)) => error == refusal && final(self)@ == old(self)@,
                    _ => false,
                }
            }),
    {
        let cfg = match self.config {
            Some(cfg) => cfg,
            None => return Err(Error::NotInitialized),
        };
        let num_sources: u32 = source_values.len() as u32;
        let message = build_aggregated_payload(
            &feed_id,
            aggregate_value,
            timestamp_utc,
            num_sources,
        );
        let attested: bool = ed25519_verify(&cfg.oracle_pubkey, message.as_slice(), &signature);
        self.record_aggregated_price(
            e,
            feed_id,
            aggregate_value,
            source_values,
            method,
            outlier_method,
            num_sources_rejected,
            timestamp_utc,
            attested,
        )
    }

    /// Submits an aggregated price as `submit_aggregated_price` does, or does
    /// nothing where an attested message claims more rejected sources than
    /// there are.
    pub fn try_submit_aggregated_price(
        &mut self,
        e: &Env,
        oracle: Address,
        feed_id: BytesN<32>,
        aggregate_value: i64,
        source_values: Vec<(Vec<u8>, i64, i128, i128)>,
        method: Vec<u8>,
        outlier_method: Vec<u8>,
        num_sources_rejected: u32,
        timestamp_utc: i64,
        signature: BytesN<64>,
    ) -> (r: Option<Result<(), Error>>)
        requires
            source_values@.len() <= u32::MAX,
            old(self)@.config is Some ==> e.authorizes(oracle),
        ensures
            ({
                let message = aggregated_payload(
                    feed_id@,
                    aggregate_value,
                    timestamp_utc,
                    source_values@.len(),
                );
                match (r, old(self)@.submit_refusal(old(self)@.attests(message, signature))) {
                    (Some(Ok(_)), None) => {
                        &&& num_sources_rejected <= source_values@.len()
                        &&& final(self)@ == old(self)@.with_aggregate(
                            feed_id,
                            final(self)@.aggregated_feeds[feed_id],
                        )
                        &&& final(self)@.aggregated_feeds[feed_id].records(
                            e.sequence,
                            aggregate_value,
                            source_values@,
                            method,
                            outlier_method,
                            num_sources_rejected,
                            timestamp_utc,
                        )
                    },
                    (Some(Err(error)), Some(refusal)) => error == refusal && final(self)@ == old(
                        self,
                    )@,
                    (None, None) => num_sources_rejected > source_values@.len() && final(self)@
                        == old(self)@,
                    _ => false,
                }
            }),
    {
        let num_sources: u32 = source_values.len() as u32;
        if num_sources_rejected > num_sources {
            let cfg = match self.config {
                Some(cfg) => cfg,
                None => return Some(Err(Error::NotInitialized)),
            };
            let message = build_aggregated_payload(
                &feed_id,
                aggregate_value,
                timestamp_utc,
                num_sources,
            );
            if ed25519_verify(&cfg.oracle_pubkey, message.as_slice(), &signature) {
                return None;
            }
        }
        Some(
            self.submit_aggregated_price(
                e,
                oracle,
                feed_id,
                aggregate_value,
                source_values,
                method,
                outlier_method,
                num_sources_rejected,
                timestamp_utc,
                signature,
            ),
        )
    }

    /// The last aggregated price of a feed.
    pub fn get_aggregated_price(&self, feed_id: BytesN<32>) -> (r: Result<
        &AggregatedPriceEntry,
        Error,
    >)
        ensures
            match r {
                Ok(entry) => {
                    &&& self@.config is Some
                    &&& self@.aggregated_feeds.contains_key(feed_id)
                    &&& *entry == self@.aggregated_feeds[feed_id]
                },
                Err(error) => if self@.config is None {
                    error == Error::NotInitialized
                } else {
                    error == Error::FeedNotFound && !self@.aggregated_feeds.contains_key(feed_id)
                },
            },
    {
        if self.config.is_none() {
            return Err(Error::NotInitialized);
        }
        match self.aggregated_feeds.get(&feed_id) {
            Some(entry) => Ok(entry),
            None => Err(Error::FeedNotFound),
        }
    }

    /// Who runs the oracle and whose signatures it trusts.
    pub fn get_config(&self) -> (r: Result<Config, Error>)
        ensures
            r == (match self@.config {
                Some(config) => Ok(config),
                None => Err(Error::NotInitialized),
            }),
    {
        match self.config {
            Some(config) => Ok(config),
            None => Err(Error::NotInitialized),
        }
    }
}

} // verus!
