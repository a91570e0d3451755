use probes::{calculate_time_difference, parse_u64, time_adjusted, ProbeError};

#[test]
fn test_calculate_time_difference() {
    assert_eq!(100, calculate_time_difference(100, 200).unwrap());
    assert!(calculate_time_difference(200, 100).is_err());
}

#[test]
fn test_time_adjusted() {
    assert_eq!(1200, time_adjusted("field", 2400, 1200, 60_000_000_000).unwrap());
    assert_eq!(2400, time_adjusted("field", 2400, 1200, 30_000_000_000).unwrap());
    assert_eq!(4800, time_adjusted("field", 2400, 1200, 15_000_000_000).unwrap());
}

#[test]
fn test_time_adjusted_first_higher_than_lower() {
    match time_adjusted("field", 1200, 2400, 60_000_000_000) {
        Err(ProbeError::UnexpectedContent(_)) => (),
        r => panic!("Unexpected result: {:?}", r),
    }
}

#[test]
fn test_parse_u64() {
    assert_eq!(100, parse_u64("100").unwrap());
    assert!(parse_u64("something").is_err());
}

#[test]
fn equal_times_are_invalid_input() {
    match calculate_time_difference(100, 100) {
        Err(ProbeError::InvalidInput(_)) => (),
        r => panic!("Unexpected result: {:?}", r),
    }
}

#[test]
fn time_adjusted_truncates_toward_zero() {
    // 7 over 45 seconds is 9.33... per minute.
    assert_eq!(9, time_adjusted("field", 7, 0, 45_000_000_000).unwrap());
}

#[test]
fn time_adjusted_holds_at_largest_value() {
    assert_eq!(u64::MAX, time_adjusted("field", u64::MAX, 0, 1).unwrap());
}

#[test]
fn time_adjusted_empty_window_is_invalid_input() {
    match time_adjusted("field", 10, 5, 0) {
        Err(ProbeError::InvalidInput(_)) => (),
        r => panic!("Unexpected result: {:?}", r),
    }
}

#[test]
fn parse_u64_edges() {
    assert_eq!(7, parse_u64("+7").unwrap());
    assert_eq!(u64::MAX, parse_u64("18446744073709551615").unwrap());
    assert!(parse_u64("18446744073709551616").is_err());
    assert!(parse_u64("").is_err());
    assert!(parse_u64("+").is_err());
    assert!(parse_u64("-1").is_err());
    assert!(parse_u64(" 1").is_err());
}

#[test]
fn error_messages_name_the_file() {
    let e = ProbeError::IO("No such file or directory".to_owned(), "/proc/stat".to_owned());
    assert_eq!("No such file or directory for /proc/stat", e.message());
    assert_eq!("bad", ProbeError::UnexpectedContent("bad".to_owned()).message());
    assert_eq!("late", ProbeError::InvalidInput("late".to_owned()).message());
}
