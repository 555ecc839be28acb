use live_relay::StreamUrlStore;
use live_relay::bytes::{
    bytes_eq, contains_sub, ends_with, find_byte, find_sub, starts_with, to_ascii_lower,
    to_ascii_upper, trim_bytes, u64_to_dec,
};

#[test]
fn find_sub_reports_the_first_occurrence() {
    assert_eq!(find_sub(b"abcabc", b"bc"), Some(1));
    assert_eq!(find_sub(b"abc", b"x"), None);
    assert_eq!(find_sub(b"abc", b""), Some(0));
    assert_eq!(find_sub(b"ab", b"abc"), None);
}

#[test]
fn find_byte_reports_length_when_absent() {
    assert_eq!(find_byte(b"a:b", b':'), 1);
    assert_eq!(find_byte(b"ab", b':'), 2);
}

#[test]
fn prefix_suffix_and_containment() {
    assert!(starts_with(b"https://x", b"https://"));
    assert!(!starts_with(b"http://x", b"https://"));
    assert!(ends_with(b"index.m3u8", b".m3u8"));
    assert!(!ends_with(b"index.m3u", b".m3u8"));
    assert!(contains_sub(b"a.bilibili.com/x", b"bilibili.com"));
    assert!(!contains_sub(b"a.example.com/x", b"bilibili.com"));
}

#[test]
fn trimming_and_case_mapping() {
    assert_eq!(trim_bytes(b"  seg.ts \r\n"), b"seg.ts".to_vec());
    assert_eq!(trim_bytes(b"   "), b"".to_vec());
    assert_eq!(to_ascii_lower(b"M3U8-Xy"), b"m3u8-xy".to_vec());
    assert_eq!(to_ascii_upper(b"od 9"), b"OD 9".to_vec());
}

#[test]
fn byte_equality() {
    assert!(bytes_eq(b"abc", b"abc"));
    assert!(!bytes_eq(b"abc", b"abd"));
    assert!(!bytes_eq(b"abc", b"ab"));
}

#[test]
fn decimal_formatting() {
    assert_eq!(u64_to_dec(0), b"0".to_vec());
    assert_eq!(u64_to_dec(34719), b"34719".to_vec());
    assert_eq!(u64_to_dec(10050), b"10050".to_vec());
}

#[test]
fn stream_target_is_set_and_read() {
    let mut store = StreamUrlStore::new();
    assert!(!store.has_target());
    store.set_url(b"https://pull.example.com/live.flv".to_vec());
    assert!(store.has_target());
    assert_eq!(store.url, b"https://pull.example.com/live.flv".to_vec());
    store.set_url(Vec::new());
    assert!(!store.has_target());
}
