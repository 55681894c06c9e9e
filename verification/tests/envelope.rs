use monky_utilities::deserializer::{KafkaDeserializer, SerializationError};
use monky_utilities::json::JsonTree;
use monky_utilities::mapper::{HybridObjectMapper, TypeTagging};
use monky_utilities::serializer::KafkaSerializer;
use monky_utilities::MONKY_MAGIC_BYTE;

/// Render a tree as plain JSON text, with no null-elision and no tagging.
fn render(t: &JsonTree) -> String {
    let mapper = HybridObjectMapper {
        type_tagging: TypeTagging::Untagged,
        omit_null_values: false,
        ignore_type_names: vec![],
    };
    mapper.serialize(t, None).expect("render")
}

fn num(v: u64) -> JsonTree {
    JsonTree::Num(serde_json::Number::from(v))
}

#[test]
fn serialize_basic() {
    let ser = KafkaSerializer::new();
    let item = JsonTree::Obj(vec![
        ("id".to_owned(), num(1)),
        ("name".to_owned(), JsonTree::Str("alice".to_owned())),
        ("optional".to_owned(), JsonTree::Null),
    ]);

    let bytes = ser.serialize("topic", &item).expect("serialize");
    assert_eq!(bytes[0], MONKY_MAGIC_BYTE);
    let json_part = &bytes[1..];
    let text = std::str::from_utf8(json_part).expect("utf8");
    let v = HybridObjectMapper::new().deserialize(text).expect("parse json");
    assert!(matches!(v.get("id"), Some(JsonTree::Num(n)) if n.as_u64() == Some(1)));
    assert!(matches!(v.get("name"), Some(JsonTree::Str(s)) if s == "alice"));
    assert!(v.get("optional").is_none());
}

#[test]
fn serialize_with_custom_mapper_adjacent_type_tag() {
    let mut mapper = HybridObjectMapper::new();
    mapper.type_tagging = TypeTagging::Adjacent;
    let ser = KafkaSerializer::with_mapper(mapper);

    let map = JsonTree::Obj(vec![("k".to_owned(), JsonTree::Str("v".to_owned()))]);

    let bytes = ser.serialize("t", &map).expect("serialize");
    assert_eq!(bytes[0], MONKY_MAGIC_BYTE);

    let text = std::str::from_utf8(&bytes[1..]).unwrap();
    let v = HybridObjectMapper::new().deserialize(text).unwrap();
    assert!(v.get("@type").is_some());
    assert!(v.get("value").is_some());
    assert_eq!(render(v.get("value").unwrap()), "{\"k\":\"v\"}");
}

#[test]
fn serialize_array_removes_nulls() {
    let ser = KafkaSerializer::new();
    let arr = JsonTree::Arr(vec![num(1), JsonTree::Null, num(2)]);
    let bytes = ser.serialize("t", &arr).expect("serialize");
    let text = std::str::from_utf8(&bytes[1..]).unwrap();
    assert_eq!(text, "[1,2]");
}

#[test]
fn deserialize_valid_payload_without_type_wrapper() {
    let des = KafkaDeserializer::new();
    let payload = b"\x00{\"k\":\"v\"}";
    let v = des.deserialize("topic", payload).expect("should parse");
    assert_eq!(render(&v), "{\"k\":\"v\"}");
}

#[test]
fn deserialize_valid_payload_with_type_wrapper() {
    let mut mapper = HybridObjectMapper::new();
    mapper.type_tagging = TypeTagging::Adjacent;
    let des = KafkaDeserializer::with_mapper(mapper);

    let mut buf = vec![0u8];
    buf.extend_from_slice(b"{\"@type\":\"com.example\",\"value\":{\"k\":\"v\"}}");

    let v = des.deserialize("topic", &buf).expect("should parse wrapped");
    assert_eq!(render(&v), "{\"k\":\"v\"}");
}

#[test]
fn deserialize_empty_payload() {
    let des = KafkaDeserializer::new();
    let err = des.deserialize("topic", &[]).unwrap_err();
    assert!(matches!(err, SerializationError::PayloadTooShort));
}

#[test]
fn deserialize_invalid_utf8() {
    let des = KafkaDeserializer::new();
    let payload = &[0u8, 0xff, 0xff, 0xff];
    let err = des.deserialize("t", payload).unwrap_err();
    match err {
        SerializationError::InvalidUtf8(_) => {}
        _ => panic!("expected InvalidUtf8"),
    }
}

#[test]
fn deserialize_invalid_json() {
    let des = KafkaDeserializer::new();
    let mut buf = vec![0u8];
    buf.extend_from_slice(b"{not:json}");
    let err = des.deserialize("t", &buf).unwrap_err();
    match err {
        SerializationError::Json(_) => {}
        _ => panic!("expected Json error"),
    }
}

#[test]
fn header_byte_on_every_mode() {
    let trees = [
        JsonTree::Null,
        JsonTree::Bool(true),
        num(7),
        JsonTree::Str("x".to_owned()),
        JsonTree::Arr(vec![]),
        JsonTree::Obj(vec![]),
    ];
    for t in trees.iter() {
        let plain = KafkaSerializer::new().serialize("t", t).expect("serialize");
        assert_eq!(plain[0], MONKY_MAGIC_BYTE);
        let mut mapper = HybridObjectMapper::new();
        mapper.type_tagging = TypeTagging::Adjacent;
        let tagged = KafkaSerializer::with_mapper(mapper).serialize("t", t).expect("serialize");
        assert_eq!(tagged[0], MONKY_MAGIC_BYTE);
    }
}

#[test]
fn round_trip_default_mapper() {
    let tree = JsonTree::Obj(vec![
        ("a".to_owned(), num(1)),
        ("b".to_owned(), JsonTree::Arr(vec![num(2), JsonTree::Null, num(3)])),
        ("c".to_owned(), JsonTree::Null),
    ]);
    let bytes = KafkaSerializer::new().serialize("t", &tree).expect("serialize");
    let back = KafkaDeserializer::new().deserialize("t", &bytes).expect("decode");
    assert_eq!(render(&back), "{\"a\":1,\"b\":[2,3]}");
}

#[test]
fn parser_depth_limit_boundary() {
    // A tree of 127 nested arrays decodes back; one more level produces
    // text that the JSON parser refuses.
    let mut t = JsonTree::Arr(vec![]);
    for _ in 0..126 {
        t = JsonTree::Arr(vec![t]);
    }
    let bytes = KafkaSerializer::new().serialize("t", &t).expect("serialize");
    assert!(KafkaDeserializer::new().deserialize("t", &bytes).is_ok());

    let deeper = JsonTree::Arr(vec![t]);
    let bytes2 = KafkaSerializer::new().serialize("t", &deeper).expect("serialize");
    let err = KafkaDeserializer::new().deserialize("t", &bytes2).unwrap_err();
    assert!(matches!(err, SerializationError::Json(_)));
}

#[test]
fn round_trip_bytes_payload_adjacent() {
    let payload: Vec<JsonTree> = std::iter::repeat_with(|| num(0xff)).take(16).collect();
    let dict = JsonTree::Obj(vec![("bytes".to_owned(), JsonTree::Arr(payload))]);

    let mut mapper = HybridObjectMapper::new();
    mapper.type_tagging = TypeTagging::Adjacent;
    let ser = KafkaSerializer::with_mapper(mapper);
    let bytes = ser.serialize("t", &dict).expect("serialize");

    let unwrapped = KafkaDeserializer::new().deserialize("t", &bytes).expect("decode");
    match unwrapped.get("bytes") {
        Some(JsonTree::Arr(items)) => {
            assert_eq!(items.len(), 16);
            for item in items.iter() {
                assert!(matches!(item, JsonTree::Num(n) if n.as_u64() == Some(0xff)));
            }
        }
        _ => panic!("expected a bytes member holding an array"),
    }
}
