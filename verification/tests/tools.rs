use robustmq::tools::{
    id_from_uuid_bytes, millis_from_reading, seconds_from_reading,
    local_ip_or_loopback, millis_from_parts, missing_file_error, now_mills, now_second,
    remove_hyphens, unique_id, CommonError,
};

#[test]
fn unique_id_test() {
    println!("{}", unique_id());
}

#[test]
fn unique_id_is_32_lowercase_hex_digits_of_a_v4_uuid() {
    let id = unique_id();
    assert_eq!(id.len(), 32);
    assert!(!id.contains('-'));
    assert!(id.chars().all(|c| c.is_ascii_digit() || ('a'..='f').contains(&c)));
    assert_eq!(id.chars().nth(12), Some('4'));
    assert!(matches!(id.chars().nth(16), Some('8' | '9' | 'a' | 'b')));
}

#[test]
fn unique_ids_differ() {
    assert_ne!(unique_id(), unique_id());
}

#[test]
fn remove_hyphens_keeps_other_characters_in_order() {
    assert_eq!(remove_hyphens("a-b--c-"), "abc");
    assert_eq!(remove_hyphens(""), "");
    assert_eq!(remove_hyphens("---"), "");
    assert_eq!(
        remove_hyphens("67e55044-10b1-426f-9247-bb680e5fe0c8"),
        "67e5504410b1426f9247bb680e5fe0c8"
    );
}

#[test]
fn millis_from_parts_counts_whole_milliseconds() {
    assert_eq!(millis_from_parts(0, 0), 0);
    assert_eq!(millis_from_parts(1, 999_999), 1000);
    assert_eq!(millis_from_parts(1, 1_000_000), 1001);
    assert_eq!(millis_from_parts(2, 999_999_999), 2999);
    assert_eq!(
        millis_from_parts(u64::MAX, 999_999_999),
        (u64::MAX as u128) * 1000 + 999
    );
}

#[test]
fn millis_agree_with_seconds() {
    let m = millis_from_parts(1_700_000_123, 456_789_000);
    assert_eq!(m / 1000, 1_700_000_123);
    assert_eq!(m % 1000, 456);
}

#[test]
fn clock_reads_after_the_epoch() {
    let secs = now_second().unwrap();
    let millis = now_mills().unwrap();
    assert!(secs > 1_600_000_000);
    assert!(millis / 1000 >= secs as u128);
    assert!(millis / 1000 - (secs as u128) < 60);
}

#[test]
fn missing_file_error_names_the_path() {
    match missing_file_error("/tmp/none.conf") {
        CommonError::CommmonError(msg) => assert_eq!(msg, "File /tmp/none.conf does not exist"),
        CommonError::IoError(_) => panic!("wrong variant"),
    }
}

#[test]
fn local_ip_falls_back_to_loopback() {
    assert_eq!(local_ip_or_loopback(None), "127.0.0.1");
    assert_eq!(
        local_ip_or_loopback(Some("192.168.1.7".to_string())),
        "192.168.1.7"
    );
}

#[test]
fn id_from_uuid_bytes_gives_the_simple_form() {
    let bytes = [
        0x67, 0xe5, 0x50, 0x44, 0x10, 0xb1, 0x42, 0x6f, 0x92, 0x47, 0xbb, 0x68, 0x0e, 0x5f, 0xe0,
        0xc8,
    ];
    assert_eq!(id_from_uuid_bytes(bytes), "67e5504410b1426f9247bb680e5fe0c8");
    let mut other = bytes;
    other[15] = 0xc9;
    assert_ne!(id_from_uuid_bytes(other), id_from_uuid_bytes(bytes));
}

#[test]
fn readings_give_seconds_and_milliseconds() {
    assert_eq!(seconds_from_reading(Some((1_700_000_123, 456_789_000))), Some(1_700_000_123));
    assert_eq!(millis_from_reading(Some((1_700_000_123, 456_789_000))), Some(1_700_000_123_456));
    assert_eq!(seconds_from_reading(None), None);
    assert_eq!(millis_from_reading(None), None);
}
