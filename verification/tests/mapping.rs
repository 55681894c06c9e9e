use monky_utilities::json::{remove_nulls, JsonTree};
use monky_utilities::mapper::{HybridObjectMapper, TypeTagging};

fn plain_mapper() -> HybridObjectMapper {
    HybridObjectMapper {
        type_tagging: TypeTagging::Untagged,
        omit_null_values: false,
        ignore_type_names: vec![],
    }
}

fn render(t: &JsonTree) -> String {
    plain_mapper().serialize(t, None).expect("render")
}

fn num(v: u64) -> JsonTree {
    JsonTree::Num(serde_json::Number::from(v))
}

#[test]
fn serialize_omit_nulls() {
    let mapper = HybridObjectMapper {
        type_tagging: TypeTagging::Untagged,
        omit_null_values: true,
        ignore_type_names: vec![],
    };
    let s = JsonTree::Obj(vec![
        ("a".to_owned(), JsonTree::Str("x".to_owned())),
        ("b".to_owned(), JsonTree::Null),
        ("c".to_owned(), num(3)),
    ]);
    let json = mapper.serialize(&s, None).unwrap();
    let v = plain_mapper().deserialize(&json).unwrap();
    assert!(v.get("b").is_none());
    assert!(matches!(v.get("a"), Some(JsonTree::Str(t)) if t == "x"));
}

#[test]
fn serialize_with_type_tagging() {
    let mapper = HybridObjectMapper {
        type_tagging: TypeTagging::Adjacent,
        omit_null_values: true,
        ignore_type_names: vec![],
    };
    let s = JsonTree::Obj(vec![
        ("a".to_owned(), JsonTree::Str("y".to_owned())),
        ("b".to_owned(), JsonTree::Null),
        ("c".to_owned(), JsonTree::Null),
    ]);
    let json = mapper.serialize(&s, Some("com.example.Sample")).unwrap();
    let v = plain_mapper().deserialize(&json).unwrap();
    assert!(matches!(v.get("@type"), Some(JsonTree::Str(t)) if t == "com.example.Sample"));
    let val = v.get("value").expect("value member");
    assert!(val.get("b").is_none());
}

#[test]
fn avro_generic_array_serialize_works() {
    let arr = JsonTree::Arr(vec![num(1), JsonTree::Str("two".to_owned()), JsonTree::Null]);
    let mapper = HybridObjectMapper::new();
    let value = mapper.to_json_value(&arr).unwrap();
    assert_eq!(render(&value), "[1,\"two\"]");
}

#[test]
fn filter_dynamic_value_ignores_types() {
    let mut mapper = HybridObjectMapper::new();
    mapper.add_ignored_type("org.apache.avro.Schema");
    let v = JsonTree::Obj(vec![
        (
            "org.apache.avro.Schema".to_owned(),
            JsonTree::Obj(vec![("foo".to_owned(), JsonTree::Str("bar".to_owned()))]),
        ),
        ("keep".to_owned(), JsonTree::Str("x".to_owned())),
    ]);
    let filtered = mapper.filter_dynamic_value(v);
    assert!(filtered.get("org.apache.avro.Schema").is_none());
    assert!(matches!(filtered.get("keep"), Some(JsonTree::Str(s)) if s == "x"));
}

#[test]
fn remove_nulls_is_idempotent_on_a_sample() {
    let t = JsonTree::Obj(vec![
        ("a".to_owned(), JsonTree::Null),
        (
            "b".to_owned(),
            JsonTree::Arr(vec![JsonTree::Null, num(1), JsonTree::Obj(vec![
                ("x".to_owned(), JsonTree::Null),
            ])]),
        ),
    ]);
    let once = remove_nulls(&t);
    let twice = remove_nulls(&once);
    assert_eq!(render(&once), render(&twice));
    assert_eq!(render(&once), "{\"b\":[1,{}]}");
}

#[test]
fn remove_nulls_preserves_empties() {
    let empty_obj = JsonTree::Obj(vec![]);
    let empty_arr = JsonTree::Arr(vec![]);
    assert_eq!(render(&remove_nulls(&empty_obj)), "{}");
    assert_eq!(render(&remove_nulls(&empty_arr)), "[]");
}

#[test]
fn deserialize_with_type_unwraps_any_tag() {
    let mapper = HybridObjectMapper::new();
    let text = "{\"@type\":\"anything.at.all\",\"value\":{\"k\":\"v\"}}";
    let v = mapper.deserialize_with_type(text).unwrap();
    assert_eq!(render(&v), "{\"k\":\"v\"}");
}

#[test]
fn deserialize_with_type_falls_through_without_value() {
    let mapper = HybridObjectMapper::new();
    let text = "{\"@type\":\"tag.only\",\"other\":1}";
    let v = mapper.deserialize_with_type(text).unwrap();
    assert!(matches!(v.get("@type"), Some(JsonTree::Str(s)) if s == "tag.only"));
    assert!(matches!(v.get("other"), Some(JsonTree::Num(n)) if n.as_u64() == Some(1)));
}

#[test]
fn deserialize_with_type_ignores_non_string_tag() {
    let mapper = HybridObjectMapper::new();
    let text = "{\"@type\":7,\"value\":{\"k\":\"v\"}}";
    let v = mapper.deserialize_with_type(text).unwrap();
    assert!(v.get("@type").is_some());
    assert!(v.get("value").is_some());
}

#[test]
fn serialize_scalars_exactly() {
    let mapper = plain_mapper();
    assert_eq!(mapper.serialize(&JsonTree::Null, None).unwrap(), "null");
    assert_eq!(mapper.serialize(&JsonTree::Bool(true), None).unwrap(), "true");
    assert_eq!(mapper.serialize(&num(42), None).unwrap(), "42");
    assert_eq!(
        mapper.serialize(&JsonTree::Str("hi".to_owned()), None).unwrap(),
        "\"hi\""
    );
}
