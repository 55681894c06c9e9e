use monky_utilities::url_parse::{parse_url_encoded, DuplicateBehavior};

#[test]
fn basic_parse() {
    let payload = "name=alice&age=30&note=hello+world";
    let m = parse_url_encoded(payload, DuplicateBehavior::KeepLast);
    assert_eq!(m.get("name").map(|s| s.as_str()), Some("alice"));
    assert_eq!(m.get("age").map(|s| s.as_str()), Some("30"));
    assert_eq!(m.get("note").map(|s| s.as_str()), Some("hello world"));
}

#[test]
fn empty_values_and_keys() {
    let payload = "k1=&=emptykey&justkey";
    let m = parse_url_encoded(payload, DuplicateBehavior::KeepLast);
    assert_eq!(m.get("k1").map(|s| s.as_str()), Some(""));
    assert_eq!(m.get("").map(|s| s.as_str()), Some("emptykey"));
    assert_eq!(m.get("justkey").map(|s| s.as_str()), Some(""));
}

#[test]
fn percent_decoding() {
    let payload = "q=Rust%20%26%20Web&plus=1%2B1";
    let m = parse_url_encoded(payload, DuplicateBehavior::KeepLast);
    assert_eq!(m.get("q").map(|s| s.as_str()), Some("Rust & Web"));
    assert_eq!(m.get("plus").map(|s| s.as_str()), Some("1+1"));
}

#[test]
fn duplicates_keep_first_vs_last() {
    let payload = "k=a&k=b&k=c";
    let m_last = parse_url_encoded(payload, DuplicateBehavior::KeepLast);
    assert_eq!(m_last.get("k").map(|s| s.as_str()), Some("c"));

    let m_first = parse_url_encoded(payload, DuplicateBehavior::KeepFirst);
    assert_eq!(m_first.get("k").map(|s| s.as_str()), Some("a"));

    let m_collected = parse_url_encoded(payload, DuplicateBehavior::CollectCommaSeparated);
    assert_eq!(m_collected.get("k").map(|s| s.as_str()), Some("a,b,c"));
}

#[test]
fn reserved_characters() {
    let payload = "k=%2Fpath%2Fto%2Ffile&space=one+two";
    let m = parse_url_encoded(payload, DuplicateBehavior::KeepLast);
    assert_eq!(m.get("k").map(|s| s.as_str()), Some("/path/to/file"));
    assert_eq!(m.get("space").map(|s| s.as_str()), Some("one two"));
}
