use downloader::probe::{parse_content_length, FileInfo};

#[test]
fn missing_headers_take_defaults() {
    let info = FileInfo::from_headers(None, None, None);
    assert_eq!(info.size, 0);
    assert!(!info.supports_range);
    assert_eq!(info.content_type, "application/octet-stream");
}

#[test]
fn headers_are_reported() {
    let info = FileInfo::from_headers(Some("4096"), Some("Bytes"), Some("text/plain"));
    assert_eq!(info.size, 4096);
    assert!(info.supports_range);
    assert_eq!(info.content_type, "text/plain");
}

#[test]
fn other_range_units_do_not_count() {
    assert!(!FileInfo::from_headers(None, Some("none"), None).supports_range);
    assert!(!FileInfo::from_headers(None, Some("bytes "), None).supports_range);
}

#[test]
fn unreadable_length_counts_as_unknown() {
    assert_eq!(FileInfo::from_headers(Some("12a"), None, None).size, 0);
    assert_eq!(FileInfo::from_headers(Some("0"), None, None).size, 0);
}

#[test]
fn content_lengths() {
    assert_eq!(parse_content_length("0"), Some(0));
    assert_eq!(parse_content_length("007"), Some(7));
    assert_eq!(parse_content_length("18446744073709551615"), Some(u64::MAX));
    assert_eq!(parse_content_length("18446744073709551616"), None);
    assert_eq!(parse_content_length("99999999999999999999x"), None);
    assert_eq!(parse_content_length(""), None);
    assert_eq!(parse_content_length("+5"), None);
    assert_eq!(parse_content_length(" 5"), None);
}
