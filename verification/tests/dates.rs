use monky_utilities::date_format::{iso_from_millis, DateFormatError};

#[test]
fn test_iso_from_millis_positive() {
    let epoch_millis = 1_600_000_456_789i128;
    let iso = iso_from_millis(epoch_millis).unwrap();
    assert!(iso.starts_with("2020-09-"));
    assert!(iso.ends_with("Z"));
    assert!(iso.contains('.'));
    assert_eq!(iso.len(), 24);
}

#[test]
fn test_iso_from_millis_zero() {
    let iso = iso_from_millis(0).unwrap();
    assert_eq!(iso, "1970-01-01T00:00:00.000Z");
}

#[test]
fn test_iso_from_millis_negative() {
    let epoch_millis = -1_000i128;
    let iso = iso_from_millis(epoch_millis).unwrap();
    assert!(iso.starts_with("1969-12-31"));
    assert!(iso.ends_with(".000Z") || iso.ends_with(".999Z"));
}

#[test]
fn test_iso_from_millis_overflow() {
    let large = i128::MAX / 1_000_000;
    let result = iso_from_millis(large);
    assert!(matches!(
        result,
        Err(DateFormatError::InvalidTimestamp) | Err(DateFormatError::IntConversion)
    ));
}
