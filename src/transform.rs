//! The record transform: one received line, and the peer's identity when the
//! transport gives it, become one structured event and one ingestion metric.
use crate::event::{entries_map, Event, FieldValue, Timestamp, Value};
use vstd::prelude::*;
use vstd::utf8::encode_utf8;

verus! {

/// Field that holds the record text.
pub const MESSAGE_KEY: &'static str = "message";

/// Field that holds the capture time.
pub const TIMESTAMP_KEY: &'static str = "timestamp";

/// Field that holds the tag of the source family.
pub const SOURCE_TYPE_KEY: &'static str = "source_type";

/// The tag that every event of this source carries under `SOURCE_TYPE_KEY`.
pub const SOURCE_TYPE: &'static str = "socket";

/// The kind of Unix socket that a record came through.
#[derive(Debug, Clone, Copy, PartialEq, Eq, Structural)]
pub enum SocketMode {
    Stream,
    Datagram,
}

/// The metric emitted for each accepted record.
#[derive(Debug, Clone, Copy, PartialEq, Eq, Structural)]
pub struct SocketEventReceived {
    /// Length of the record text in bytes, before enrichment.
    pub byte_size: usize,
    pub mode: SocketMode,
}

/// The fields of the event built from `line`, captured at `at`, with `peer`
/// stored under `host_key` when both are present.
pub open spec fn event_model(
    host_key: Option<Seq<char>>,
    peer: Option<Seq<u8>>,
    line: Seq<char>,
    at: Timestamp,
) -> Map<Seq<char>, FieldValue> {
    let base = Map::<Seq<char>, FieldValue>::empty().insert(
        MESSAGE_KEY@,
        FieldValue::Text(line),
    ).insert(TIMESTAMP_KEY@, FieldValue::Time(at)).insert(
        SOURCE_TYPE_KEY@,
        FieldValue::Text(SOURCE_TYPE@),
    );
    match (host_key, peer) {
        (Some(k), Some(p)) => base.insert(k, FieldValue::Bytes(p)),
        _ => base,
    }
}

/// The view of an optional field name.
pub open spec fn key_view(k: Option<String>) -> Option<Seq<char>> {
    match k {
        Some(s) => Some(s@),
        None => None,
    }
}

/// The view of an optional peer identity.
pub open spec fn peer_view(p: Option<Vec<u8>>) -> Option<Seq<u8>> {
    match p {
        Some(b) => Some(b@),
        None => None,
    }
}

/// The metric for `line` received in `mode`.
pub open spec fn metric_model(line: Seq<char>, mode: SocketMode) -> SocketEventReceived {
    SocketEventReceived { byte_size: utf8_len(line) as usize, mode }
}

/// The length in bytes of the UTF-8 encoding of `text`.
pub open spec fn utf8_len(text: Seq<char>) -> nat {
    encode_utf8(text).len()
}

/// Relies on `DateTime::<Utc>::from(SystemTime::now())`, read as whole
/// seconds and nanoseconds since the epoch. chrono turns a clock set before
/// 1970 into negative seconds with nanoseconds below 1,000,000,000; its
/// nanoseconds stay below two seconds' worth in any case (a leap second goes
/// past 999,999,999).
#[verifier::external_body]
fn capture_time() -> (r: Timestamp)
    ensures
        r.nanos < 2_000_000_000,
{
    let now = chrono::DateTime::<chrono::Utc>::from(std::time::SystemTime::now());
    Timestamp { secs: now.timestamp(), nanos: now.timestamp_subsec_nanos() }
}

/// Builds the event for `line` captured at `at`, and records its metric in
/// `metrics`. Every record is accepted: the result is always `Some`.
pub fn build_event_at(
    host_key: &Option<String>,
    received_from: Option<Vec<u8>>,
    line: &str,
    at: Timestamp,
    mode: SocketMode,
    metrics: &mut Vec<SocketEventReceived>,
) -> (r: Option<Event>)
    ensures
        r is Some,
        r->0.wf(),
        r->0@ == event_model(key_view(*host_key), peer_view(received_from), line@, at),
        final(metrics)@ == old(metrics)@.push(metric_model(line@, mode)),
{
    let byte_size = line.len();
    let mut event = Event::new();
    event.insert(MESSAGE_KEY.to_owned(), Value::Text(line.to_owned()));
    event.insert(TIMESTAMP_KEY.to_owned(), Value::Time(at));
    event.insert(SOURCE_TYPE_KEY.to_owned(), Value::Text(SOURCE_TYPE.to_owned()));
    match (host_key, received_from) {
        (Some(k), Some(host)) => {
            event.insert(k.clone(), Value::Bytes(host));
        },
        _ => {},
    }
    metrics.push(SocketEventReceived { byte_size, mode });
    proof {
        assert(event@ =~= event_model(key_view(*host_key), peer_view(received_from), line@, at));
    }
    Some(event)
}

/// Builds the event for `line` at the current time, and records its metric
/// in `metrics`.
pub fn build_event(
    host_key: &Option<String>,
    received_from: Option<Vec<u8>>,
    line: &str,
    mode: SocketMode,
    metrics: &mut Vec<SocketEventReceived>,
) -> (r: Option<Event>)
    ensures
        r is Some,
        r->0.wf(),
        exists|at: Timestamp|
            r->0@ == #[trigger] event_model(key_view(*host_key), peer_view(received_from), line@, at),
        final(metrics)@ == old(metrics)@.push(metric_model(line@, mode)),
{
    let at = capture_time();
    build_event_at(host_key, received_from, line, at, mode, metrics)
}

/// The three reserved field names differ from one another.
pub proof fn reserved_keys_distinct()
    ensures
        MESSAGE_KEY@ != TIMESTAMP_KEY@,
        MESSAGE_KEY@ != SOURCE_TYPE_KEY@,
        TIMESTAMP_KEY@ != SOURCE_TYPE_KEY@,
{
    reveal_strlit("message");
    reveal_strlit("timestamp");
    reveal_strlit("source_type");
    assert(MESSAGE_KEY@.len() != TIMESTAMP_KEY@.len());
    assert(MESSAGE_KEY@.len() != SOURCE_TYPE_KEY@.len());
    assert(TIMESTAMP_KEY@[0] != SOURCE_TYPE_KEY@[0]);
}

/// The event's message is the record text exactly, unless the peer's
/// identity was stored over it under a field named like the message.
pub proof fn message_is_record_text(
    host_key: Option<Seq<char>>,
    peer: Option<Seq<u8>>,
    line: Seq<char>,
    at: Timestamp,
)
    requires
        !(host_key == Some(MESSAGE_KEY@) && peer is Some),
    ensures
        event_model(host_key, peer, line, at).contains_key(MESSAGE_KEY@),
        event_model(host_key, peer, line, at)[MESSAGE_KEY@] == FieldValue::Text(line),
{
    reserved_keys_distinct();
}

/// With a field name configured and a peer identity at hand, the event holds
/// that identity under that name.
pub proof fn peer_identity_stored(key: Seq<char>, peer: Seq<u8>, line: Seq<char>, at: Timestamp)
    ensures
        event_model(Some(key), Some(peer), line, at).contains_key(key),
        event_model(Some(key), Some(peer), line, at)[key] == FieldValue::Bytes(peer),
{
}

/// Without a configured field name the event holds the three reserved fields
/// and nothing else, whether or not a peer identity was at hand.
pub proof fn no_peer_field_without_key(peer: Option<Seq<u8>>, line: Seq<char>, at: Timestamp)
    ensures
        event_model(None, peer, line, at).dom() == set![MESSAGE_KEY@, TIMESTAMP_KEY@, SOURCE_TYPE_KEY@],
{
    assert(event_model(None, peer, line, at).dom() =~= set![MESSAGE_KEY@, TIMESTAMP_KEY@, SOURCE_TYPE_KEY@]);
}

/// Every event carries the same source type, whatever its record, peer,
/// time or socket mode (the event does not depend on the mode at all),
/// unless the peer's identity was stored over it.
pub proof fn source_type_is_constant(
    host_key: Option<Seq<char>>,
    peer: Option<Seq<u8>>,
    line: Seq<char>,
    at: Timestamp,
)
    requires
        !(host_key == Some(SOURCE_TYPE_KEY@) && peer is Some),
    ensures
        event_model(host_key, peer, line, at).contains_key(SOURCE_TYPE_KEY@),
        event_model(host_key, peer, line, at)[SOURCE_TYPE_KEY@] == FieldValue::Text(SOURCE_TYPE@),
{
}

/// Transforming the same record twice gives the same event, but for the
/// capture time: with the timestamp set aside the two are identical.
pub proof fn transform_is_deterministic(
    host_key: Option<Seq<char>>,
    peer: Option<Seq<u8>>,
    line: Seq<char>,
    first: Timestamp,
    second: Timestamp,
)
    ensures
        event_model(host_key, peer, line, first).remove(TIMESTAMP_KEY@) == event_model(
            host_key,
            peer,
            line,
            second,
        ).remove(TIMESTAMP_KEY@),
        first == second ==> event_model(host_key, peer, line, first) == event_model(
            host_key,
            peer,
            line,
            second,
        ),
{
    reserved_keys_distinct();
    assert(event_model(host_key, peer, line, first).remove(TIMESTAMP_KEY@) =~= event_model(
        host_key,
        peer,
        line,
        second,
    ).remove(TIMESTAMP_KEY@));
}

} // verus!
