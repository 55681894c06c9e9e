use monky_utilities::uuid_v5::{uuid_from_bytes, uuid_from_name, uuid_from_namespace_and_name};
use uuid::Uuid;

#[test]
fn test_uuid_from_bytes_sets_version_and_variant() {
    let bytes = [0xffu8; 16];
    let uuid = uuid_from_bytes(bytes);

    assert_eq!(uuid.get_version_num(), 5);
    assert_eq!(uuid.get_variant(), uuid::Variant::RFC4122);
}

#[test]
fn test_uuid_from_name_non_namespace_consistent() {
    let name = "test name";
    let uuid1 = uuid_from_name(name);
    let uuid2 = uuid_from_name(name);
    assert_eq!(uuid1, uuid2);

    assert_eq!(uuid1.get_version_num(), 5);
    assert_eq!(uuid1.get_variant(), uuid::Variant::RFC4122);
}

#[test]
fn test_uuid_from_namespace_and_name_matches_rfc() {
    let namespace = Uuid::NAMESPACE_DNS;
    let name = "example.com";
    let uuid = uuid_from_namespace_and_name(&namespace, name);

    let expected = Uuid::new_v5(&namespace, name.as_bytes());

    assert_eq!(uuid, expected);
    assert_eq!(uuid.get_version_num(), 5);
    assert_eq!(uuid.get_variant(), uuid::Variant::RFC4122);
}
