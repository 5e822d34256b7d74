//! Laws of the price oracle.

use vstd::prelude::*;
use crate::carbon_oracle::{AggregatedPriceEntry, Config, Error, OracleState, PriceEntry};
use crate::carbon_oracle::{aggregated_payload, payload, source_list, SCHEMA_VERSION};
use crate::crypto::ed25519_valid;
use crate::host::{Address, BytesN};
use crate::numeric::{
    be_bytes, byte_range, lemma_be_bytes_injective, lemma_be_bytes_len, lemma_split,
};

verus! {

/// The message of a price tells every field: two prices that differ in any of
/// them have different messages.
pub proof fn law_message_tells_every_field(
    version: u8,
    script_hash: BytesN<32>,
    input_params_hash: BytesN<32>,
    output_value: i64,
    timestamp_utc: i64,
    feed_id: BytesN<32>,
    other_version: u8,
    other_script_hash: BytesN<32>,
    other_input_params_hash: BytesN<32>,
    other_output_value: i64,
    other_timestamp_utc: i64,
    other_feed_id: BytesN<32>,
)
    requires
        payload(
            version,
            script_hash@,
            input_params_hash@,
            output_value,
            timestamp_utc,
            feed_id@,
        ) == payload(
            other_version,
            other_script_hash@,
            other_input_params_hash@,
            other_output_value,
            other_timestamp_utc,
            other_feed_id@,
        ),
    ensures
        version == other_version,
        script_hash == other_script_hash,
        input_params_hash == other_input_params_hash,
        output_value == other_output_value,
        timestamp_utc == other_timestamp_utc,
        feed_id == other_feed_id,
{
    let value = be_bytes(output_value as int, 8);
    let other_value = be_bytes(other_output_value as int, 8);
    let time = be_bytes(timestamp_utc as int, 8);
    let other_time = be_bytes(other_timestamp_utc as int, 8);
    lemma_be_bytes_len(output_value as int, 8);
    lemma_be_bytes_len(other_output_value as int, 8);
    lemma_be_bytes_len(timestamp_utc as int, 8);
    lemma_be_bytes_len(other_timestamp_utc as int, 8);
    let a1 = seq![version];
    let b1 = seq![other_version];
    let a2 = a1 + script_hash@;
    let b2 = b1 + other_script_hash@;
    let a3 = a2 + input_params_hash@;
    let b3 = b2 + other_input_params_hash@;
    let a4 = a3 + value;
    let b4 = b3 + other_value;
    lemma_split(a4 + time, feed_id@, b4 + other_time, other_feed_id@);
    lemma_split(a4, time, b4, other_time);
    lemma_split(a3, value, b3, other_value);
    lemma_split(a2, input_params_hash@, b2, other_input_params_hash@);
    lemma_split(a1, script_hash@, b1, other_script_hash@);
    assert(a1[0] == b1[0]);
    reveal_with_fuel(byte_range, 9);
    lemma_be_bytes_injective(output_value as int, other_output_value as int, 8);
    lemma_be_bytes_injective(timestamp_utc as int, other_timestamp_utc as int, 8);
    assert(script_hash.bytes =~= other_script_hash.bytes);
    assert(input_params_hash.bytes =~= other_input_params_hash.bytes);
    assert(feed_id.bytes =~= other_feed_id.bytes);
}

/// The message of an aggregated price tells the feed, the value, the time and
/// the number of sources.
pub proof fn law_aggregated_message_tells_fields(
    feed_id: BytesN<32>,
    aggregate_value: i64,
    timestamp_utc: i64,
    num_sources: u32,
    other_feed_id: BytesN<32>,
    other_aggregate_value: i64,
    other_timestamp_utc: i64,
    other_num_sources: u32,
)
    requires
        aggregated_payload(feed_id@, aggregate_value, timestamp_utc, num_sources as nat)
            == aggregated_payload(
            other_feed_id@,
            other_aggregate_value,
            other_timestamp_utc,
            other_num_sources as nat,
        ),
    ensures
        feed_id == other_feed_id,
        aggregate_value == other_aggregate_value,
        timestamp_utc == other_timestamp_utc,
        num_sources == other_num_sources,
{
    let value = be_bytes(aggregate_value as int, 8);
    let other_value = be_bytes(other_aggregate_value as int, 8);
    let time = be_bytes(timestamp_utc as int, 8);
    let other_time = be_bytes(other_timestamp_utc as int, 8);
    let count = be_bytes(num_sources as int, 4);
    let other_count = be_bytes(other_num_sources as int, 4);
    lemma_be_bytes_len(aggregate_value as int, 8);
    lemma_be_bytes_len(other_aggregate_value as int, 8);
    lemma_be_bytes_len(timestamp_utc as int, 8);
    lemma_be_bytes_len(other_timestamp_utc as int, 8);
    let a1 = seq![2u8];
    let a2 = a1 + feed_id@;
    let b2 = a1 + other_feed_id@;
    let a3 = a2 + value;
    let b3 = b2 + other_value;
    lemma_split(a3 + time, count, b3 + other_time, other_count);
    lemma_split(a3, time, b3, other_time);
    lemma_split(a2, value, b2, other_value);
    lemma_split(a1, feed_id@, a1, other_feed_id@);
    reveal_with_fuel(byte_range, 9);
    lemma_be_bytes_injective(aggregate_value as int, other_aggregate_value as int, 8);
    lemma_be_bytes_injective(timestamp_utc as int, other_timestamp_utc as int, 8);
    lemma_be_bytes_injective(num_sources as int, other_num_sources as int, 4);
    assert(feed_id.bytes =~= other_feed_id.bytes);
}

/// No message is both that of a price and that of an aggregated price.
pub proof fn law_messages_do_not_mix(
    script_hash: BytesN<32>,
    input_params_hash: BytesN<32>,
    output_value: i64,
    timestamp_utc: i64,
    feed_id: BytesN<32>,
    other_feed_id: BytesN<32>,
    aggregate_value: i64,
    other_timestamp_utc: i64,
    num_sources: u32,
)
    ensures
        payload(
            SCHEMA_VERSION,
            script_hash@,
            input_params_hash@,
            output_value,
            timestamp_utc,
            feed_id@,
        ) != aggregated_payload(
            other_feed_id@,
            aggregate_value,
            other_timestamp_utc,
            num_sources as nat,
        ),
{
    let a = payload(
        SCHEMA_VERSION,
        script_hash@,
        input_params_hash@,
        output_value,
        timestamp_utc,
        feed_id@,
    );
    let b = aggregated_payload(
        other_feed_id@,
        aggregate_value,
        other_timestamp_utc,
        num_sources as nat,
    );
    assert(a[0] == SCHEMA_VERSION);
    assert(b[0] == 2u8);
}

/// A request to the oracle. A price comes with its signature.
pub enum Request {
    Initialize { config: Config },
    Rotate { admin: Address, new_pubkey: BytesN<32> },
    Submit { feed_id: BytesN<32>, entry: PriceEntry, signature: BytesN<64> },
    SubmitAggregated {
        feed_id: BytesN<32>,
        aggregate: AggregatedPriceEntry,
        signature: BytesN<64>,
    },
}

/// The message that attests `entry` as the price of a feed.
pub open spec fn price_message(feed_id: BytesN<32>, entry: PriceEntry) -> Seq<u8> {
    payload(
        SCHEMA_VERSION,
        entry.script_hash@,
        entry.input_params_hash@,
        entry.output_value,
        entry.timestamp_utc,
        feed_id@,
    )
}

/// The message that attests `entry` as the aggregated price of a feed. It tells
/// how many sources there were, used or rejected.
pub open spec fn aggregate_message(feed_id: BytesN<32>, entry: AggregatedPriceEntry) -> Seq<u8> {
    aggregated_payload(
        feed_id@,
        entry.aggregate_value,
        entry.metadata.timestamp_utc,
        (entry.metadata.num_sources_used + entry.metadata.num_sources_rejected) as nat,
    )
}

/// The state after a request, which a refused request leaves as it was.
pub open spec fn after(state: OracleState, request: Request) -> OracleState {
    match request {
        Request::Initialize { config } => if state.config is None {
            state.configured(config)
        } else {
            state
        },
        Request::Rotate { admin, new_pubkey } => match state.rotate_refusal(admin) {
            None => state.configured(Config { oracle_pubkey: new_pubkey, ..state.config->0 }),
            Some(_) => state,
        },
        Request::Submit { feed_id, entry, signature } => match state.submit_refusal(
            state.attests(price_message(feed_id, entry), signature),
        ) {
            None => state.with_price(feed_id, entry),
            Some(_) => state,
        },
        Request::SubmitAggregated { feed_id, aggregate, signature } => match state.submit_refusal(
            state.attests(aggregate_message(feed_id, aggregate), signature),
        ) {
            None => state.with_aggregate(feed_id, aggregate),
            Some(_) => state,
        },
    }
}

/// The state after a list of requests.
pub open spec fn after_all(state: OracleState, requests: Seq<Request>) -> OracleState
    decreases requests.len(),
{
    if requests.len() == 0 {
        state
    } else {
        after(after_all(state, requests.drop_last()), requests.last())
    }
}

/// The state in which the request at `i` is met.
pub open spec fn before(requests: Seq<Request>, i: int) -> OracleState {
    after_all(OracleState::empty(), requests.take(i))
}

/// Whether the request at `i` submitted `entry` for a feed under a signature of
/// the key that was then trusted.
pub open spec fn attested_at(
    requests: Seq<Request>,
    i: int,
    feed_id: BytesN<32>,
    entry: PriceEntry,
) -> bool {
    &&& requests[i] matches Request::Submit { feed_id: feed, entry: submitted, signature }
    &&& feed == feed_id
    &&& submitted == entry
    &&& before(requests, i).config is Some
    &&& before(requests, i).attests(price_message(feed_id, entry), signature)
}

/// Whether the request at `i` submitted `entry` as a feed's aggregated price
/// under a signature of the key that was then trusted.
pub open spec fn aggregate_attested_at(
    requests: Seq<Request>,
    i: int,
    feed_id: BytesN<32>,
    entry: AggregatedPriceEntry,
) -> bool {
    &&& requests[i] matches Request::SubmitAggregated {
        feed_id: feed,
        aggregate: submitted,
        signature,
    }
    &&& feed == feed_id
    &&& submitted == entry
    &&& before(requests, i).config is Some
    &&& before(requests, i).attests(aggregate_message(feed_id, entry), signature)
}

/// Whatever requests the oracle has seen, the price of every feed came with a
/// valid signature of the key that was trusted at the time.
pub proof fn law_every_price_is_attested(requests: Seq<Request>, feed_id: BytesN<32>)
    requires
        after_all(OracleState::empty(), requests).feeds.contains_key(feed_id),
    ensures
        exists|i: int|
            0 <= i < requests.len() && #[trigger] attested_at(
                requests,
                i,
                feed_id,
                after_all(OracleState::empty(), requests).feeds[feed_id],
            ),
    decreases requests.len(),
{
    let now = after_all(OracleState::empty(), requests);
    assert(requests.len() > 0);
    let earlier = requests.drop_last();
    let last = requests.len() - 1;
    let prior = after_all(OracleState::empty(), earlier);
    assert(requests.take(last) =~= earlier);
    let fresh = match requests.last() {
        Request::Submit { feed_id: feed, entry, signature } => feed == feed_id
            && prior.submit_refusal(
            prior.attests(price_message(feed, entry), signature),
        ) is None,
        _ => false,
    };
    if fresh {
        assert(attested_at(requests, last, feed_id, now.feeds[feed_id]));
    } else {
        assert(prior.feeds.contains_key(feed_id));
        assert(prior.feeds[feed_id] == now.feeds[feed_id]);
        law_every_price_is_attested(earlier, feed_id);
        let i = choose|i: int|
            0 <= i < earlier.len() && #[trigger] attested_at(
                earlier,
                i,
                feed_id,
                prior.feeds[feed_id],
            );
        assert(requests.take(i) =~= earlier.take(i));
        assert(attested_at(requests, i, feed_id, now.feeds[feed_id]));
    }
}

/// Whatever requests the oracle has seen, the aggregated price of every feed
/// came with a valid signature of the key that was trusted at the time.
pub proof fn law_every_aggregate_is_attested(requests: Seq<Request>, feed_id: BytesN<32>)
    requires
        after_all(OracleState::empty(), requests).aggregated_feeds.contains_key(feed_id),
    ensures
        exists|i: int|
            0 <= i < requests.len() && #[trigger] aggregate_attested_at(
                requests,
                i,
                feed_id,
                after_all(OracleState::empty(), requests).aggregated_feeds[feed_id],
            ),
    decreases requests.len(),
{
    let now = after_all(OracleState::empty(), requests);
    assert(requests.len() > 0);
    let earlier = requests.drop_last();
    let last = requests.len() - 1;
    let prior = after_all(OracleState::empty(), earlier);
    assert(requests.take(last) =~= earlier);
    let fresh = match requests.last() {
        Request::SubmitAggregated { feed_id: feed, aggregate, signature } => feed == feed_id
            && prior.submit_refusal(
            prior.attests(aggregate_message(feed, aggregate), signature),
        ) is None,
        _ => false,
    };
    if fresh {
        assert(aggregate_attested_at(requests, last, feed_id, now.aggregated_feeds[feed_id]));
    } else {
        assert(prior.aggregated_feeds.contains_key(feed_id));
        assert(prior.aggregated_feeds[feed_id] == now.aggregated_feeds[feed_id]);
        law_every_aggregate_is_attested(earlier, feed_id);
        let i = choose|i: int|
            0 <= i < earlier.len() && #[trigger] aggregate_attested_at(
                earlier,
                i,
                feed_id,
                prior.aggregated_feeds[feed_id],
            );
        assert(requests.take(i) =~= earlier.take(i));
        assert(aggregate_attested_at(requests, i, feed_id, now.aggregated_feeds[feed_id]));
    }
}

/// A price that is submitted is the one that is read back, whatever stood there
/// before, and the prices of other feeds are not touched.
pub proof fn law_feeds_are_independent(
    state: OracleState,
    feed_id: BytesN<32>,
    entry: PriceEntry,
    other: BytesN<32>,
)
    ensures
        ({
            let done = state.with_price(feed_id, entry);
            &&& done.feeds.contains_key(feed_id) && done.feeds[feed_id] == entry
            &&& other != feed_id ==> done.feeds.contains_key(other) == state.feeds.contains_key(
                other,
            )
            &&& other != feed_id && state.feeds.contains_key(other) ==> done.feeds[other]
                == state.feeds[other]
            &&& done.aggregated_feeds == state.aggregated_feeds
        }),
{
}

/// Once the key has been changed, a message is attested by the new key's
/// signatures alone. The old key's signatures count for nothing, unless they
/// are the new key's as well.
pub proof fn law_rotation_replaces_key(
    state: OracleState,
    admin: Address,
    new_pubkey: BytesN<32>,
    message: Seq<u8>,
    signature: BytesN<64>,
)
    requires
        state.rotate_refusal(admin) is None,
    ensures
        ({
            let done = after(state, Request::Rotate { admin, new_pubkey });
            &&& done.attests(message, signature) == ed25519_valid(
                new_pubkey@,
                message,
                signature@,
            )
            &&& done.config->0.admin == state.config->0.admin
            &&& done.feeds == state.feeds
            &&& !ed25519_valid(new_pubkey@, message, signature@) ==> done.submit_refusal(
                done.attests(message, signature),
            ) == Some(Error::InvalidAttestation)
        }),
{
}

/// The administrator never changes, and the trusted key changes only at the
/// administrator's request.
pub proof fn law_only_the_administrator_changes_the_key(state: OracleState, request: Request)
    requires
        state.config is Some,
    ensures
        after(state, request).config is Some,
        after(state, request).config->0.admin == state.config->0.admin,
        after(state, request).config->0.oracle_pubkey != state.config->0.oracle_pubkey
            ==> (request matches Request::Rotate { admin, new_pubkey } && admin
            == state.config->0.admin && new_pubkey
            == after(state, request).config->0.oracle_pubkey),
{
}

/// An aggregated price keeps at most ten source values, the first ones of those
/// submitted, and the counts in it add up to the number submitted.
pub proof fn law_aggregate_keeps_ten_sources(
    entry: AggregatedPriceEntry,
    now: u32,
    aggregate_value: i64,
    sources: Seq<(Vec<u8>, i64, i128, i128)>,
    method: Vec<u8>,
    outlier_method: Vec<u8>,
    num_sources_rejected: u32,
    timestamp_utc: i64,
)
    requires
        num_sources_rejected <= sources.len() <= u32::MAX,
        entry.records(
            now,
            aggregate_value,
            sources,
            method,
            outlier_method,
            num_sources_rejected,
            timestamp_utc,
        ),
    ensures
        entry.source_values@.len() <= 10,
        sources.len() <= 10 ==> entry.source_values@ == source_list(sources),
        sources.len() > 10 ==> entry.source_values@ == source_list(sources.take(10)),
        entry.metadata.num_sources_used + entry.metadata.num_sources_rejected == sources.len(),
{
}

} // verus!
