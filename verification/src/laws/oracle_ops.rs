//! What each operation of the price oracle decides and changes, in terms of what is
//! on record and what is asked.

use vstd::prelude::*;
use vstd::arithmetic::power::pow;
use crate::carbon_oracle::{
    aggregated_payload, kept_sources, payload, source_list, AggregatedPriceEntry, CarbonOracle,
    Config, Error, OracleState, PriceEntry, MAX_SOURCES, PAYLOAD_LEN, SCHEMA_VERSION,
};
use crate::crypto::ed25519_valid;
use crate::host::{Address, BytesN};
use crate::laws::arithmetic::{law_bytes_are_digits, law_four_bytes};

verus! {

/// What is on record is what the tables of the oracle hold.
pub proof fn law_oracle_is_what_its_tables_hold(oracle: CarbonOracle)
    ensures
        oracle@.config == oracle.config,
        oracle@.feeds == oracle.feeds@,
        oracle@.aggregated_feeds == oracle.aggregated_feeds@,
{
}

/// An oracle starts with nothing on record. The setup and a change of the key
/// record the configuration as it is given, and nothing else.
pub proof fn law_configuration_is_recorded(state: OracleState, config: Config, feed_id: BytesN<32>)
    ensures
        OracleState::empty().config is None,
        !OracleState::empty().feeds.contains_key(feed_id),
        !OracleState::empty().aggregated_feeds.contains_key(feed_id),
        state.configured(config).config == Some(config),
        state.configured(config).feeds == state.feeds,
        state.configured(config).aggregated_feeds == state.aggregated_feeds,
{
}

// ---- Messages ----

/// The layout in use is version 1, its messages have 113 bytes, and ten source
/// values are kept at most.
pub proof fn law_layout_in_use()
    ensures
        SCHEMA_VERSION == 1,
        PAYLOAD_LEN == 113,
        MAX_SOURCES == 10,
{
}

/// Where each field stands in the message of a price: the version, the two
/// digests, the eight digits each of the value and of the time to the base of
/// 256, and the feed.
pub proof fn law_where_the_fields_of_a_price_stand(
    version: u8,
    script_hash: BytesN<32>,
    input_params_hash: BytesN<32>,
    output_value: i64,
    timestamp_utc: i64,
    feed_id: BytesN<32>,
    i: int,
    j: int,
)
    requires
        0 <= i < 32,
        0 <= j < 8,
    ensures
        ({
            let message = payload(
                version,
                script_hash@,
                input_params_hash@,
                output_value,
                timestamp_utc,
                feed_id@,
            );
            &&& message.len() == 113
            &&& message[0] == version
            &&& message[1 + i] == script_hash.bytes@[i]
            &&& message[33 + i] == input_params_hash.bytes@[i]
            &&& message[65 + j] == (output_value as int / pow(256, (7 - j) as nat)) % 256
            &&& message[73 + j] == (timestamp_utc as int / pow(256, (7 - j) as nat)) % 256
            &&& message[81 + i] == feed_id.bytes@[i]
        }),
{
    law_bytes_are_digits(output_value as int, 8, j);
    law_bytes_are_digits(timestamp_utc as int, 8, j);
}

/// Where each field stands in the message of an aggregated price: the version 2,
/// the feed, the eight digits each of the value and of the time to the base of
/// 256, and the four bytes of the number of sources.
pub proof fn law_where_the_fields_of_an_aggregate_stand(
    feed_id: BytesN<32>,
    aggregate_value: i64,
    timestamp_utc: i64,
    num_sources: u32,
    i: int,
    j: int,
)
    requires
        0 <= i < 32,
        0 <= j < 8,
    ensures
        ({
            let message = aggregated_payload(
                feed_id@,
                aggregate_value,
                timestamp_utc,
                num_sources as nat,
            );
            &&& message.len() == 53
            &&& message[0] == 2
            &&& message[1 + i] == feed_id.bytes@[i]
            &&& message[33 + j] == (aggregate_value as int / pow(256, (7 - j) as nat)) % 256
            &&& message[41 + j] == (timestamp_utc as int / pow(256, (7 - j) as nat)) % 256
            &&& message[49] == num_sources / 0x100_0000
            &&& message[50] == num_sources / 0x1_0000 % 256
            &&& message[51] == num_sources / 0x100 % 256
            &&& message[52] == num_sources % 256
        }),
{
    law_bytes_are_digits(aggregate_value as int, 8, j);
    law_bytes_are_digits(timestamp_utc as int, 8, j);
    law_four_bytes(num_sources);
}

// ---- Prices ----

/// A message is attested by a valid signature of the configured key, over that
/// message and no other.
pub proof fn law_attestation_is_a_signature(
    state: OracleState,
    config: Config,
    message: Seq<u8>,
    signature: BytesN<64>,
)
    requires
        state.config == Some(config),
    ensures
        state.attests(message, signature) == ed25519_valid(
            config.oracle_pubkey.bytes@,
            message,
            signature.bytes@,
        ),
{
}

/// When a price is taken: the oracle is set up and the message is attested.
pub proof fn law_when_a_price_is_taken(state: OracleState, attested: bool)
    ensures
        ({
            let refusal = state.submit_refusal(attested);
            &&& refusal == Some(Error::NotInitialized) <==> state.config is None
            &&& refusal == Some(Error::InvalidAttestation) <==> state.config is Some && !attested
            &&& refusal is None <==> state.config is Some && attested
        }),
{
}

/// When the key is changed: the oracle is set up, and it is the administrator who
/// asks.
pub proof fn law_when_the_key_is_changed(state: OracleState, config: Config, admin: Address)
    ensures
        state.config is None ==> state.rotate_refusal(admin) == Some(Error::NotInitialized),
        state.config == Some(config) ==> {
            &&& state.rotate_refusal(admin) == Some(Error::Unauthorized) <==> admin != config.admin
            &&& state.rotate_refusal(admin) is None <==> admin == config.admin
        },
{
}

/// A price stands under its feed as it is given, and so does an aggregated price.
/// Nothing else changes.
pub proof fn law_what_a_price_changes(
    state: OracleState,
    feed_id: BytesN<32>,
    entry: PriceEntry,
    aggregate: AggregatedPriceEntry,
)
    ensures
        ({
            let done = state.with_price(feed_id, entry);
            let gathered = state.with_aggregate(feed_id, aggregate);
            &&& done.feeds[feed_id] == entry
            &&& done.feeds.dom() =~= state.feeds.dom().insert(feed_id)
            &&& forall|other: BytesN<32>|
                other != feed_id ==> #[trigger] done.feeds[other] == state.feeds[other]
            &&& done.aggregated_feeds == state.aggregated_feeds
            &&& done.config == state.config
            &&& gathered.aggregated_feeds[feed_id] == aggregate
            &&& gathered.aggregated_feeds.dom() =~= state.aggregated_feeds.dom().insert(feed_id)
            &&& forall|other: BytesN<32>|
                other != feed_id ==> #[trigger] gathered.aggregated_feeds[other]
                    == state.aggregated_feeds[other]
            &&& gathered.feeds == state.feeds
            &&& gathered.config == state.config
        }),
{
}

/// What an aggregated price keeps: the value, each of the first ten sources with
/// its name, value and weight, the methods, the counts, the time and the ledger,
/// all as they were submitted.
pub proof fn law_what_an_aggregate_keeps(
    entry: AggregatedPriceEntry,
    now: u32,
    aggregate_value: i64,
    sources: Seq<(Vec<u8>, i64, i128, i128)>,
    method: Vec<u8>,
    outlier_method: Vec<u8>,
    num_sources_rejected: u32,
    timestamp_utc: i64,
    i: int,
)
    requires
        num_sources_rejected <= sources.len() <= u32::MAX,
        entry.records(
            now,
            aggregate_value,
            sources,
            method,
            outlier_method,
            num_sources_rejected,
            timestamp_utc,
        ),
    ensures
        entry.aggregate_value == aggregate_value,
        sources.len() <= 10 ==> entry.source_values@.len() == sources.len(),
        sources.len() >= 10 ==> entry.source_values@.len() == 10,
        0 <= i < entry.source_values@.len() ==> {
            &&& entry.source_values@[i].source_id == sources[i].0
            &&& entry.source_values@[i].value == sources[i].1
            &&& entry.source_values@[i].weight_numerator == sources[i].2
            &&& entry.source_values@[i].weight_denominator == sources[i].3
        },
        entry.metadata.method == method,
        entry.metadata.outlier_method == outlier_method,
        entry.metadata.num_sources_used + num_sources_rejected == sources.len(),
        entry.metadata.num_sources_rejected == num_sources_rejected,
        entry.metadata.timestamp_utc == timestamp_utc,
        entry.recorded_at == now,
{
}

/// The sources that are kept are the first ones, in order, up to ten, and each is
/// listed with its name, value and weight.
pub proof fn law_first_ten_sources_are_kept(sources: Seq<(Vec<u8>, i64, i128, i128)>, i: int)
    ensures
        sources.len() <= 10 ==> kept_sources(sources) == sources,
        sources.len() > 10 ==> kept_sources(sources).len() == 10,
        0 <= i < kept_sources(sources).len() ==> kept_sources(sources)[i] == sources[i],
        source_list(sources).len() == sources.len(),
        0 <= i < sources.len() ==> {
            &&& source_list(sources)[i].source_id == sources[i].0
            &&& source_list(sources)[i].value == sources[i].1
            &&& source_list(sources)[i].weight_numerator == sources[i].2
            &&& source_list(sources)[i].weight_denominator == sources[i].3
        },
{
}

} // verus!
