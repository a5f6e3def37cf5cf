use bible_rs::utils::{hex_to_u64, seed_from_date};

#[test]
fn seed_from_date_is_deterministic() {
    let a = seed_from_date("2024-01-15").unwrap();
    let b = seed_from_date("2024-01-15").unwrap();
    assert_eq!(a, b);
}

#[test]
fn seed_from_date_golden_value() {
    // SHA-256 of "2024-01-15" begins with bb10628e8f758901.
    let seed = seed_from_date("2024-01-15").unwrap();
    assert_eq!(seed, 0xbb10628e8f758901);
    assert_eq!(seed, 13479382049151617281u64);
}

#[test]
fn seed_from_date_second_golden_value() {
    // SHA-256 of "2024-01-16" begins with 90da12594fd8fd65.
    let seed = seed_from_date("2024-01-16").unwrap();
    assert_eq!(seed, 0x90da12594fd8fd65);
}

#[test]
fn different_dates_give_different_seeds() {
    let a = seed_from_date("2024-01-15").unwrap();
    let b = seed_from_date("2024-01-16").unwrap();
    assert_ne!(a, b);
}

#[test]
fn hex_to_u64_parses_plain_digits() {
    assert_eq!(hex_to_u64(b"ff"), Some(255));
    assert_eq!(hex_to_u64(b"0"), Some(0));
    assert_eq!(hex_to_u64(b"10"), Some(16));
    assert_eq!(hex_to_u64(b"bb10628e8f758901"), Some(0xbb10628e8f758901));
}

#[test]
fn hex_to_u64_accepts_upper_case_and_plus() {
    assert_eq!(hex_to_u64(b"FF"), Some(255));
    assert_eq!(hex_to_u64(b"+ff"), Some(255));
    assert_eq!(hex_to_u64(b"DeadBeef"), Some(0xdeadbeef));
}

#[test]
fn hex_to_u64_rejects_bad_numerals() {
    assert_eq!(hex_to_u64(b""), None);
    assert_eq!(hex_to_u64(b"+"), None);
    assert_eq!(hex_to_u64(b"fg"), None);
    assert_eq!(hex_to_u64(b"-1"), None);
    assert_eq!(hex_to_u64(b"0x10"), None);
}

#[test]
fn hex_to_u64_handles_the_64_bit_boundary() {
    assert_eq!(hex_to_u64(b"ffffffffffffffff"), Some(u64::MAX));
    assert_eq!(hex_to_u64(b"10000000000000000"), None);
    assert_eq!(hex_to_u64(b"ffffffffffffffff0"), None);
    assert_eq!(hex_to_u64(b"0000000000000000ffffffffffffffff"), Some(u64::MAX));
}
