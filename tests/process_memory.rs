use probes::process_memory::read_and_get_current_rss;
use probes::ProbeError;

#[test]
fn test_read_and_get_current_rss() {
    let value = read_and_get_current_rss("4845 1138 802 1 0 1139 0\n", 4096).unwrap();
    assert_eq!(4552, value);
}

#[test]
fn test_read_and_get_current_rss_incomplete() {
    match read_and_get_current_rss("4845\n", 4096) {
        Err(ProbeError::UnexpectedContent(_)) => (),
        r => panic!("Unexpected result: {:?}", r),
    }
}

#[test]
fn test_read_and_get_current_rss_garbage() {
    match read_and_get_current_rss("4845 garbage 802 1 0 1139 0\n", 4096) {
        Err(ProbeError::UnexpectedContent(_)) => (),
        r => panic!("Unexpected result: {:?}", r),
    }
}

#[test]
fn rss_scales_with_page_size() {
    assert_eq!(18208, read_and_get_current_rss("1 1138\n", 16384).unwrap());
}

#[test]
fn rss_out_of_range_is_unexpected() {
    match read_and_get_current_rss("1 18446744073709551615\n", 4096) {
        Err(ProbeError::UnexpectedContent(_)) => (),
        r => panic!("Unexpected result: {:?}", r),
    }
}
