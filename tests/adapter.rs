use bytes::BytesMut;
use tokio_util::codec::{Decoder, LinesCodecError};
use unix_socket_source::config::{default_max_length, ConfigError, UnixConfig};
use unix_socket_source::event::{Event, Timestamp, Value};
use unix_socket_source::source::{unix_datagram, unix_stream, Frame, Outcome, UnixSource};
use unix_socket_source::transform::{
    build_event, build_event_at, SocketEventReceived, SocketMode, MESSAGE_KEY, SOURCE_TYPE,
    SOURCE_TYPE_KEY, TIMESTAMP_KEY,
};

fn at(secs: i64) -> Timestamp {
    Timestamp { secs, nanos: 500 }
}

fn text_of(e: &Event, key: &str) -> Option<String> {
    match e.get(key) {
        Some(Value::Text(s)) => Some(s.clone()),
        _ => None,
    }
}

fn bytes_of(e: &Event, key: &str) -> Option<Vec<u8>> {
    match e.get(key) {
        Some(Value::Bytes(b)) => Some(b.clone()),
        _ => None,
    }
}

fn emitted(o: Outcome) -> Event {
    match o {
        Outcome::Emit(e) => e,
        Outcome::FramingViolation => panic!("expected an event"),
    }
}

#[test]
fn default_limit_is_100_kib() {
    assert_eq!(default_max_length(), 102400);
}

#[test]
fn new_config_fills_defaults() {
    let c = UnixConfig::new("/tmp/a.sock".to_string());
    assert_eq!(c.path, "/tmp/a.sock");
    assert_eq!(c.max_length, 102400);
    assert!(c.host_key.is_none());
    assert_eq!(c.validate(), Ok(()));
}

#[test]
fn config_rejects_empty_path() {
    let r = UnixConfig::from_fields(String::new(), 10, None);
    assert_eq!(r.err(), Some(ConfigError::EmptyPath));
    let r = UnixConfig::from_fields(String::new(), 0, None);
    assert_eq!(r.err(), Some(ConfigError::EmptyPath));
}

#[test]
fn config_rejects_zero_limit() {
    let r = UnixConfig::from_fields("/tmp/a.sock".to_string(), 0, None);
    assert_eq!(r.err(), Some(ConfigError::ZeroMaxLength));
    let c = UnixConfig { path: "/x".to_string(), max_length: 0, host_key: None };
    assert_eq!(c.validate(), Err(ConfigError::ZeroMaxLength));
    assert_eq!(UnixSource::from_config(&c, SocketMode::Stream).err(), Some(ConfigError::ZeroMaxLength));
}

#[test]
fn config_from_fields_keeps_fields() {
    let c = UnixConfig::from_fields("/tmp/s.sock".to_string(), 1024, Some("host".to_string())).unwrap();
    assert_eq!(c.path, "/tmp/s.sock");
    assert_eq!(c.max_length, 1024);
    assert_eq!(c.host_key.as_deref(), Some("host"));
}

#[test]
fn event_insert_replaces_field() {
    let mut e = Event::new();
    assert_eq!(e.len(), 0);
    e.insert("a".to_string(), Value::Text("1".to_string()));
    e.insert("b".to_string(), Value::Bytes(vec![2]));
    e.insert("a".to_string(), Value::Text("3".to_string()));
    assert_eq!(e.len(), 2);
    assert_eq!(text_of(&e, "a").as_deref(), Some("3"));
    assert_eq!(bytes_of(&e, "b"), Some(vec![2]));
    assert!(e.get("c").is_none());
}

#[test]
fn transform_builds_reserved_fields() {
    let mut metrics = Vec::new();
    let e = build_event_at(&None, None, "some line", at(7), SocketMode::Stream, &mut metrics).unwrap();
    assert_eq!(e.len(), 3);
    assert_eq!(text_of(&e, MESSAGE_KEY).as_deref(), Some("some line"));
    assert_eq!(text_of(&e, SOURCE_TYPE_KEY).as_deref(), Some("socket"));
    match e.get(TIMESTAMP_KEY) {
        Some(Value::Time(t)) => assert_eq!(*t, at(7)),
        _ => panic!("no timestamp"),
    }
    assert_eq!(metrics, vec![SocketEventReceived { byte_size: 9, mode: SocketMode::Stream }]);
}

#[test]
fn transform_keeps_text_exactly() {
    let mut metrics = Vec::new();
    let line = "  padded\ttext \r";
    let e = build_event_at(&None, None, line, at(1), SocketMode::Datagram, &mut metrics).unwrap();
    assert_eq!(text_of(&e, MESSAGE_KEY).as_deref(), Some(line));
}

#[test]
fn transform_stores_peer_under_key() {
    let mut metrics = Vec::new();
    let key = Some("host".to_string());
    let e = build_event_at(&key, Some(b"peer-1".to_vec()), "x", at(1), SocketMode::Datagram, &mut metrics)
        .unwrap();
    assert_eq!(e.len(), 4);
    assert_eq!(bytes_of(&e, "host"), Some(b"peer-1".to_vec()));
}

#[test]
fn transform_without_key_adds_no_peer_field() {
    let mut metrics = Vec::new();
    let e = build_event_at(&None, Some(b"peer-1".to_vec()), "x", at(1), SocketMode::Datagram, &mut metrics)
        .unwrap();
    assert_eq!(e.len(), 3);
    assert!(e.get("host").is_none());
}

#[test]
fn transform_without_peer_adds_no_field() {
    let mut metrics = Vec::new();
    let key = Some("host".to_string());
    let e = build_event_at(&key, None, "x", at(1), SocketMode::Stream, &mut metrics).unwrap();
    assert_eq!(e.len(), 3);
    assert!(e.get("host").is_none());
}

#[test]
fn source_type_same_in_both_modes() {
    let mut metrics = Vec::new();
    let a = build_event_at(&None, None, "a", at(1), SocketMode::Stream, &mut metrics).unwrap();
    let b = build_event_at(&None, Some(vec![1]), "bb", at(2), SocketMode::Datagram, &mut metrics).unwrap();
    assert_eq!(text_of(&a, SOURCE_TYPE_KEY).as_deref(), Some(SOURCE_TYPE));
    assert_eq!(text_of(&b, SOURCE_TYPE_KEY).as_deref(), Some(SOURCE_TYPE));
    assert_eq!(metrics[0].mode, SocketMode::Stream);
    assert_eq!(metrics[1].mode, SocketMode::Datagram);
}

#[test]
fn metric_counts_utf8_bytes() {
    let mut metrics = Vec::new();
    let key = Some("host".to_string());
    build_event_at(&key, Some(vec![9; 40]), "héllo", at(1), SocketMode::Datagram, &mut metrics).unwrap();
    build_event_at(&key, None, "", at(1), SocketMode::Stream, &mut metrics).unwrap();
    assert_eq!(metrics[0].byte_size, 6);
    assert_eq!(metrics[1].byte_size, 0);
}

#[test]
fn transform_repeats_identically() {
    let key = Some("host".to_string());
    let mut m1 = Vec::new();
    let mut m2 = Vec::new();
    let a = build_event_at(&key, Some(b"p".to_vec()), "line", at(5), SocketMode::Stream, &mut m1).unwrap();
    let b = build_event_at(&key, Some(b"p".to_vec()), "line", at(5), SocketMode::Stream, &mut m2).unwrap();
    assert_eq!(format!("{:?}", a), format!("{:?}", b));
    assert_eq!(m1, m2);
}

#[test]
fn transform_with_clock_captures_now() {
    let mut metrics = Vec::new();
    let e = build_event(&None, None, "now", SocketMode::Stream, &mut metrics).unwrap();
    match e.get(TIMESTAMP_KEY) {
        Some(Value::Time(t)) => {
            assert!(t.secs > 1_600_000_000);
            assert!(t.nanos < 2_000_000_000);
        }
        _ => panic!("no timestamp"),
    }
    assert_eq!(text_of(&e, MESSAGE_KEY).as_deref(), Some("now"));
    assert_eq!(metrics.len(), 1);
}

#[test]
fn dispatch_binds_mode_and_limit() {
    let s = unix_stream("/tmp/s.sock".to_string(), 1024, Some("host".to_string()));
    assert_eq!(s.mode(), SocketMode::Stream);
    assert_eq!(s.max_length(), 1024);
    assert_eq!(s.host_key().as_deref(), Some("host"));
    assert_eq!(s.decoder().max_length(), 1024);
    let d = unix_datagram("/tmp/d.sock".to_string(), 77, None);
    assert_eq!(d.mode(), SocketMode::Datagram);
    assert_eq!(d.path(), "/tmp/d.sock");
    assert!(d.host_key().is_none());
    assert_eq!(d.decoder().max_length(), 77);
}

#[test]
fn stream_scenario_hello() {
    let c = UnixConfig::from_fields("/tmp/s.sock".to_string(), 1024, Some("host".to_string())).unwrap();
    let s = UnixSource::from_config(&c, SocketMode::Stream).unwrap();
    let mut decoder = s.decoder().codec().clone();
    let mut buf = BytesMut::from("hello\n");
    let line = decoder.decode(&mut buf).unwrap().unwrap();
    let mut metrics = Vec::new();
    let e = emitted(s.handle_frame(Frame::Record { text: line, peer: None }, at(3), &mut metrics));
    assert_eq!(text_of(&e, MESSAGE_KEY).as_deref(), Some("hello"));
    assert_eq!(text_of(&e, SOURCE_TYPE_KEY).as_deref(), Some("socket"));
    assert!(e.get("host").is_none());
    assert_eq!(s.path(), "/tmp/s.sock");
    assert_eq!(s.decoder().max_length(), 1024);
    assert_eq!(metrics, vec![SocketEventReceived { byte_size: 5, mode: SocketMode::Stream }]);
}

#[test]
fn datagram_scenario_ping() {
    let c = UnixConfig::from_fields("/tmp/d.sock".to_string(), 1024, Some("host".to_string())).unwrap();
    let s = UnixSource::from_config(&c, SocketMode::Datagram).unwrap();
    let mut metrics = Vec::new();
    let frame = Frame::Record { text: "ping".to_string(), peer: Some(b"P".to_vec()) };
    let e = emitted(s.handle_frame(frame, at(3), &mut metrics));
    assert_eq!(text_of(&e, MESSAGE_KEY).as_deref(), Some("ping"));
    assert_eq!(bytes_of(&e, "host"), Some(b"P".to_vec()));
    assert_eq!(metrics, vec![SocketEventReceived { byte_size: 4, mode: SocketMode::Datagram }]);
}

#[test]
fn oversized_record_is_a_framing_violation() {
    let s = unix_stream("/tmp/s.sock".to_string(), 8, None);
    let mut decoder = s.decoder().codec().clone();
    let mut buf = BytesMut::from("123456789\nok\n");
    let mut metrics = Vec::new();
    let first = decoder.decode(&mut buf);
    assert!(matches!(first, Err(LinesCodecError::MaxLineLengthExceeded)));
    let out = s.handle_frame(Frame::TooLong, at(1), &mut metrics);
    assert!(matches!(out, Outcome::FramingViolation));
    assert!(metrics.is_empty());
    let next = decoder.decode(&mut buf).unwrap().unwrap();
    let e = emitted(s.handle_frame(Frame::Record { text: next, peer: None }, at(2), &mut metrics));
    assert_eq!(text_of(&e, MESSAGE_KEY).as_deref(), Some("ok"));
    assert_eq!(metrics.len(), 1);
}

#[test]
fn record_over_limit_is_refused_by_the_adapter() {
    let s = unix_datagram("/tmp/d.sock".to_string(), 4, Some("host".to_string()));
    let mut metrics = Vec::new();
    let frame = Frame::Record { text: "12345".to_string(), peer: Some(vec![1]) };
    assert!(matches!(s.handle_frame(frame, at(1), &mut metrics), Outcome::FramingViolation));
    assert!(metrics.is_empty());
    let frame = Frame::Record { text: "1234".to_string(), peer: Some(vec![1]) };
    let e = emitted(s.handle_frame(frame, at(1), &mut metrics));
    assert_eq!(text_of(&e, MESSAGE_KEY).as_deref(), Some("1234"));
    assert_eq!(metrics.len(), 1);
}
