use indexer::key::{
    append_decimal, append_signed_decimal, decimal_len, record_key, MessageKind,
    KEY_HEIGHT_LIMIT, KEY_HEIGHT_WIDTH,
};

#[test]
fn send_key_is_padded_to_twelve_digits() {
    let key = record_key(42, MessageKind::Send, 1_700_000_000, "ABCDEF");
    assert_eq!(key, "000000000042:msgSend:1700000000:ABCDEF");
}

#[test]
fn transfer_key_names_its_kind() {
    let key = record_key(42, MessageKind::IbcTransfer, 1_700_000_000, "ABCDEF");
    assert_eq!(key, "000000000042:msgIbcTransfer:1700000000:ABCDEF");
}

#[test]
fn key_matches_the_standard_formatting() {
    let heights = [0u64, 1, 9, 10, 99, 100, 12_345, 999_999_999_999, 1_000_000_000_000, u64::MAX];
    let times = [0i64, 1, -1, 1_700_000_000, i64::MAX, i64::MIN];
    for h in heights {
        for t in times {
            assert_eq!(
                record_key(h, MessageKind::Send, t, "FF00"),
                format!("{:012}:msgSend:{}:{}", h, t, "FF00")
            );
            assert_eq!(
                record_key(h, MessageKind::IbcTransfer, t, "FF00"),
                format!("{:012}:msgIbcTransfer:{}:{}", h, t, "FF00")
            );
        }
    }
}

#[test]
fn height_zero_is_all_zeros() {
    assert_eq!(record_key(0, MessageKind::Send, 0, ""), "000000000000:msgSend:0:");
}

#[test]
fn height_at_the_limit_is_written_in_full() {
    assert_eq!(KEY_HEIGHT_WIDTH, 12);
    assert_eq!(KEY_HEIGHT_LIMIT, 1_000_000_000_000);
    assert_eq!(
        record_key(KEY_HEIGHT_LIMIT - 1, MessageKind::Send, 5, "A"),
        "999999999999:msgSend:5:A"
    );
    assert_eq!(
        record_key(KEY_HEIGHT_LIMIT, MessageKind::Send, 5, "A"),
        "1000000000000:msgSend:5:A"
    );
}

#[test]
fn negative_time_keeps_its_sign() {
    assert_eq!(record_key(7, MessageKind::Send, -15, "A"), "000000000007:msgSend:-15:A");
    assert_eq!(
        record_key(7, MessageKind::Send, i64::MIN, "A"),
        "000000000007:msgSend:-9223372036854775808:A"
    );
}

#[test]
fn keys_sort_by_height() {
    let heights = [0u64, 1, 2, 9, 10, 11, 99, 100, 101, 4_999, 5_000, 999_999_999_998, 999_999_999_999];
    for (i, &h1) in heights.iter().enumerate() {
        for &h2 in &heights[i + 1..] {
            let low = record_key(h1, MessageKind::IbcTransfer, i64::MAX, "FFFF");
            let high = record_key(h2, MessageKind::Send, i64::MIN, "0000");
            assert!(low < high, "{} should sort before {}", low, high);
            assert!(low.as_bytes() < high.as_bytes());
        }
    }
}

#[test]
fn keys_beyond_the_padded_width_do_not_sort_by_height() {
    let low = record_key(999_999_999_999, MessageKind::Send, 0, "A");
    let high = record_key(1_000_000_000_000, MessageKind::Send, 0, "A");
    assert!(high < low);
}

#[test]
fn same_fields_give_the_same_key() {
    let a = record_key(123, MessageKind::Send, 456, "DEADBEEF");
    let b = record_key(123, MessageKind::Send, 456, "DEADBEEF");
    assert_eq!(a, b);
}

#[test]
fn kind_tags() {
    assert_eq!(MessageKind::Send.tag(), "msgSend");
    assert_eq!(MessageKind::IbcTransfer.tag(), "msgIbcTransfer");
}

#[test]
fn decimal_is_appended() {
    let mut out = String::from("x=");
    append_decimal(&mut out, 0);
    assert_eq!(out, "x=0");
    append_decimal(&mut out, 1_234_567_890);
    assert_eq!(out, "x=01234567890");
    let mut max = String::new();
    append_decimal(&mut max, u64::MAX);
    assert_eq!(max, "18446744073709551615");
}

#[test]
fn signed_decimal_is_appended() {
    let mut out = String::new();
    append_signed_decimal(&mut out, -1);
    out.push(',');
    append_signed_decimal(&mut out, 0);
    out.push(',');
    append_signed_decimal(&mut out, i64::MAX);
    assert_eq!(out, "-1,0,9223372036854775807");
}

#[test]
fn decimal_len_counts_digits() {
    assert_eq!(decimal_len(0), 1);
    assert_eq!(decimal_len(9), 1);
    assert_eq!(decimal_len(10), 2);
    assert_eq!(decimal_len(999_999_999_999), 12);
    assert_eq!(decimal_len(1_000_000_000_000), 13);
    assert_eq!(decimal_len(u64::MAX), 20);
}
