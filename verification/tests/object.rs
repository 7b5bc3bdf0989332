use serde_json::Value;

use ipld_object::Cid;
use ipld_object::Ipld;
use ipld_object::Object;
use ipld_object::ObjectIpldError;
use ipld_object::Timestamp;
use ipld_object::ipld::map_get;
use ipld_object::timestamp::MAX_TIMESTAMP_NANOS;
use ipld_object::timestamp::MIN_TIMESTAMP_NANOS;

fn ts(nanos: i128) -> Timestamp {
    Timestamp::from_nanos(nanos).expect("nanosecond count out of range")
}

fn json(text: &str) -> Value {
    serde_json::from_str(text).expect("test value must parse")
}

fn sample_object() -> Object {
    Object::new(
        ts(1_500_000_000_123_456_789),
        ts(1_600_000_000_987_654_321),
        Cid::from_bytes(vec![1, 113, 18, 32, 9, 8, 7]),
        json("{\"tags\":[\"a\",\"b\"],\"size\":42}"),
    )
}

fn wire_entries(v: Ipld) -> Vec<(String, Ipld)> {
    match v {
        Ipld::Dict(entries) => entries,
        other => panic!("expected a map node, got {:?}", other),
    }
}

#[test]
fn round_trip_returns_equal_object() {
    let o = sample_object();
    let wire = o.to_ipld();
    let back = Object::from_ipld(&wire).expect("canonical wire form must decode");
    assert_eq!(back, o);
}

#[test]
fn round_trip_of_default_object() {
    let o = Object::default();
    let back = Object::from_ipld(&o.to_ipld()).expect("canonical wire form must decode");
    assert_eq!(back, o);
}

#[test]
fn encode_produces_exact_wire_map() {
    let o = Object::new(
        ts(7),
        ts(9),
        Cid::from_bytes(vec![5, 6]),
        json("{\"k\":1}"),
    );
    let expected = Ipld::Dict(vec![
        ("created_at".to_string(), Ipld::Integer(7)),
        ("updated_at".to_string(), Ipld::Integer(9)),
        ("data".to_string(), Ipld::Link(Cid::from_bytes(vec![5, 6]))),
        ("metadata".to_string(), Ipld::Text("{\"k\":1}".to_string())),
    ]);
    assert_eq!(o.to_ipld(), expected);
}

#[test]
fn encode_serializes_metadata_compactly() {
    let o = Object::new(ts(0), ts(0), Cid::empty(), json(" { \"a\" : [ 1 , 2 ] } "));
    let entries = wire_entries(o.to_ipld());
    let node = map_get(&entries, &"metadata".to_string()).expect("metadata entry present");
    assert_eq!(*node, Ipld::Text("{\"a\":[1,2]}".to_string()));
}

#[test]
fn default_object_has_default_fields() {
    let o = Object::default();
    assert_eq!(o.created_at(), o.updated_at());
    assert!(o.data().bytes().is_empty());
    assert_eq!(*o.metadata(), Value::Null);
}

#[test]
fn decode_rejects_non_map() {
    for wire in [
        Ipld::Null,
        Ipld::Bool(true),
        Ipld::Integer(5),
        Ipld::Text("created_at".to_string()),
        Ipld::Bytes(vec![1]),
        Ipld::List(vec![Ipld::Integer(1)]),
        Ipld::Link(Cid::empty()),
    ] {
        let r = Object::from_ipld(&wire);
        assert!(matches!(r, Err(ObjectIpldError::NotMap)), "got {:?}", r);
    }
}

#[test]
fn decode_rejects_each_missing_key() {
    let o = sample_object();
    for key in ["created_at", "updated_at", "data", "metadata"] {
        let entries: Vec<(String, Ipld)> = wire_entries(o.to_ipld())
            .into_iter()
            .filter(|(k, _)| k.as_str() != key)
            .collect();
        let r = Object::from_ipld(&Ipld::Dict(entries));
        match r {
            Err(ObjectIpldError::MissingMapMember(k)) => assert_eq!(k, key),
            other => panic!("expected missing member {:?}, got {:?}", key, other),
        }
    }
}

#[test]
fn decode_rejects_empty_map() {
    let r = Object::from_ipld(&Ipld::Dict(Vec::new()));
    match r {
        Err(ObjectIpldError::MissingMapMember(k)) => assert_eq!(k, "created_at"),
        other => panic!("expected missing member, got {:?}", other),
    }
}

#[test]
fn decode_rejects_data_of_wrong_kind() {
    let o = sample_object();
    let entries: Vec<(String, Ipld)> = wire_entries(o.to_ipld())
        .into_iter()
        .map(|(k, v)| {
            if k == "data" {
                (k, Ipld::Text("bafyabc".to_string()))
            } else {
                (k, v)
            }
        })
        .collect();
    let r = Object::from_ipld(&Ipld::Dict(entries));
    match r {
        Err(ObjectIpldError::MissingMapMember(k)) => assert_eq!(k, "data"),
        other => panic!("expected missing member data, got {:?}", other),
    }
}

#[test]
fn decode_rejects_timestamp_of_wrong_kind() {
    let o = sample_object();
    let entries: Vec<(String, Ipld)> = wire_entries(o.to_ipld())
        .into_iter()
        .map(|(k, v)| {
            if k == "updated_at" {
                (k, Ipld::Text("1999".to_string()))
            } else {
                (k, v)
            }
        })
        .collect();
    let r = Object::from_ipld(&Ipld::Dict(entries));
    match r {
        Err(ObjectIpldError::MissingMapMember(k)) => assert_eq!(k, "updated_at"),
        other => panic!("expected missing member updated_at, got {:?}", other),
    }
}

fn with_timestamp(key: &str, nanos: i128) -> Ipld {
    let entries: Vec<(String, Ipld)> = wire_entries(sample_object().to_ipld())
        .into_iter()
        .map(|(k, v)| if k == key { (k, Ipld::Integer(nanos)) } else { (k, v) })
        .collect();
    Ipld::Dict(entries)
}

#[test]
fn decode_rejects_out_of_range_timestamps() {
    for wire in [
        with_timestamp("created_at", MAX_TIMESTAMP_NANOS + 1),
        with_timestamp("created_at", MIN_TIMESTAMP_NANOS - 1),
        with_timestamp("created_at", i128::MAX),
        with_timestamp("updated_at", MAX_TIMESTAMP_NANOS + 1),
        with_timestamp("updated_at", i128::MIN),
    ] {
        let r = Object::from_ipld(&wire);
        assert!(matches!(r, Err(ObjectIpldError::InvalidDateTime)), "got {:?}", r);
    }
}

#[test]
fn decode_reports_missing_key_before_timestamp_range() {
    let entries: Vec<(String, Ipld)> = wire_entries(sample_object().to_ipld())
        .into_iter()
        .filter(|(k, _)| k.as_str() != "data")
        .map(|(k, v)| if k == "created_at" { (k, Ipld::Integer(i128::MAX)) } else { (k, v) })
        .collect();
    let r = Object::from_ipld(&Ipld::Dict(entries));
    match r {
        Err(ObjectIpldError::MissingMapMember(k)) => assert_eq!(k, "data"),
        other => panic!("expected missing member data, got {:?}", other),
    }
}

#[test]
fn deeply_nested_metadata_fails_decode_with_parse_fault() {
    let mut nested = Value::Null;
    for _ in 0..200 {
        nested = Value::Array(vec![nested]);
    }
    let mut o = sample_object();
    o.update_at(ts(1_700_000_000_000_000_000), None, Some(nested));
    let r = Object::from_ipld(&o.to_ipld());
    assert!(matches!(r, Err(ObjectIpldError::SerdeJson(_))), "got {:?}", r);
}

#[test]
fn decode_accepts_boundary_timestamps() {
    let back = Object::from_ipld(&with_timestamp("created_at", MIN_TIMESTAMP_NANOS))
        .expect("minimum timestamp decodes");
    assert_eq!(back.created_at().nanos(), MIN_TIMESTAMP_NANOS);
    let back = Object::from_ipld(&with_timestamp("updated_at", MAX_TIMESTAMP_NANOS))
        .expect("maximum timestamp decodes");
    assert_eq!(back.updated_at().nanos(), MAX_TIMESTAMP_NANOS);
}

fn with_metadata_text(text: &str) -> Ipld {
    let entries: Vec<(String, Ipld)> = wire_entries(sample_object().to_ipld())
        .into_iter()
        .map(|(k, v)| {
            if k == "metadata" {
                (k, Ipld::Text(text.to_string()))
            } else {
                (k, v)
            }
        })
        .collect();
    Ipld::Dict(entries)
}

#[test]
fn decode_rejects_malformed_metadata() {
    let r = Object::from_ipld(&with_metadata_text("{not json"));
    assert!(matches!(r, Err(ObjectIpldError::SerdeJson(_))), "got {:?}", r);
}

#[test]
fn decode_accepts_empty_object_and_null_metadata() {
    let back = Object::from_ipld(&with_metadata_text("{}")).expect("empty object parses");
    assert_eq!(*back.metadata(), json("{}"));
    let back = Object::from_ipld(&with_metadata_text("null")).expect("null parses");
    assert_eq!(*back.metadata(), Value::Null);
}

#[test]
fn update_at_refreshes_updated_at_and_keeps_created_at() {
    let mut o = sample_object();
    let created = *o.created_at();
    let before = o.updated_at().nanos();
    o.update_at(ts(before + 1000), None, None);
    assert!(o.updated_at().nanos() >= before);
    assert_eq!(o.updated_at().nanos(), before + 1000);
    assert_eq!(*o.created_at(), created);
}

#[test]
fn update_with_clock_keeps_created_at_and_fields() {
    let mut o = sample_object();
    let created = *o.created_at();
    let data = o.data().clone();
    let metadata = o.metadata().clone();
    o.update(None, None);
    assert_eq!(*o.created_at(), created);
    assert_eq!(*o.data(), data);
    assert_eq!(*o.metadata(), metadata);
}

#[test]
fn update_replaces_only_metadata() {
    let mut o = sample_object();
    let a = o.data().clone();
    let m2 = json("[1,2,3]");
    o.update_at(ts(2_000_000_000_000_000_000), None, Some(m2.clone()));
    assert_eq!(*o.data(), a);
    assert_eq!(*o.metadata(), m2);
}

#[test]
fn update_replaces_only_data() {
    let mut o = sample_object();
    let m = o.metadata().clone();
    let b = Cid::from_bytes(vec![9, 9, 9]);
    o.update_at(ts(2_000_000_000_000_000_000), Some(b.clone()), None);
    assert_eq!(*o.data(), b);
    assert_eq!(*o.metadata(), m);
}

#[test]
fn updated_object_still_round_trips() {
    let mut o = sample_object();
    o.update_at(ts(2_000_000_000_000_000_000), Some(Cid::from_bytes(vec![8])), Some(json("\"note\"")));
    let back = Object::from_ipld(&o.to_ipld()).expect("canonical wire form must decode");
    assert_eq!(back, o);
}

#[test]
fn timestamp_from_nanos_checks_range() {
    assert!(Timestamp::from_nanos(0).is_some());
    assert!(Timestamp::from_nanos(MIN_TIMESTAMP_NANOS).is_some());
    assert!(Timestamp::from_nanos(MAX_TIMESTAMP_NANOS).is_some());
    assert!(Timestamp::from_nanos(MIN_TIMESTAMP_NANOS - 1).is_none());
    assert!(Timestamp::from_nanos(MAX_TIMESTAMP_NANOS + 1).is_none());
}

#[test]
fn timestamp_range_matches_datetime_type() {
    assert_eq!(
        time::OffsetDateTime::from_unix_timestamp_nanos(MIN_TIMESTAMP_NANOS)
            .expect("minimum nanosecond count is a valid datetime")
            .unix_timestamp_nanos(),
        MIN_TIMESTAMP_NANOS,
    );
    assert_eq!(
        time::OffsetDateTime::from_unix_timestamp_nanos(MAX_TIMESTAMP_NANOS)
            .expect("maximum nanosecond count is a valid datetime")
            .unix_timestamp_nanos(),
        MAX_TIMESTAMP_NANOS,
    );
    assert!(time::OffsetDateTime::from_unix_timestamp_nanos(MIN_TIMESTAMP_NANOS - 1).is_err());
    assert!(time::OffsetDateTime::from_unix_timestamp_nanos(MAX_TIMESTAMP_NANOS + 1).is_err());
}

#[test]
fn map_lookup_returns_first_match() {
    let entries = vec![
        ("k".to_string(), Ipld::Integer(1)),
        ("k".to_string(), Ipld::Integer(2)),
    ];
    let node = map_get(&entries, &"k".to_string()).expect("key present");
    assert_eq!(*node, Ipld::Integer(1));
    assert!(map_get(&entries, &"other".to_string()).is_none());
}

#[test]
fn decode_ignores_extra_entries() {
    let mut entries = wire_entries(sample_object().to_ipld());
    entries.push(("extra".to_string(), Ipld::Bool(false)));
    let back = Object::from_ipld(&Ipld::Dict(entries)).expect("extra entries are ignored");
    assert_eq!(back, sample_object());
}
