use proxy_core::hex::{chars_of, format_prefixed_hex, parse_prefixed_hex};

#[test]
fn parses_a_height_quantity() {
    assert_eq!(parse_prefixed_hex("0x10"), 16);
    assert_eq!(parse_prefixed_hex("0xe4e1c0"), 15_000_000);
    assert_eq!(parse_prefixed_hex("0xABC"), 0xabc);
}

#[test]
fn a_quantity_needs_its_prefix_and_digits() {
    assert_eq!(parse_prefixed_hex("10"), 0);
    assert_eq!(parse_prefixed_hex("0x"), 0);
    assert_eq!(parse_prefixed_hex(""), 0);
    assert_eq!(parse_prefixed_hex("0X10"), 0);
    assert_eq!(parse_prefixed_hex("0x1g"), 0);
    assert_eq!(parse_prefixed_hex("0x 1"), 0);
}

#[test]
fn a_quantity_must_fit_in_64_bits() {
    assert_eq!(parse_prefixed_hex("0xffffffffffffffff"), u64::MAX);
    assert_eq!(parse_prefixed_hex("0x10000000000000000"), 0);
    assert_eq!(parse_prefixed_hex("0x0000000000000000001"), 1);
}

#[test]
fn formats_the_shortest_lower_case_digits() {
    assert_eq!(format_prefixed_hex(0), "0x0");
    assert_eq!(format_prefixed_hex(255), "0xff");
    assert_eq!(format_prefixed_hex(0x1a2b3c), "0x1a2b3c");
    assert_eq!(format_prefixed_hex(u64::MAX), "0xffffffffffffffff");
    assert_eq!(format_prefixed_hex(123_456_789), format!("0x{:x}", 123_456_789u64));
}

#[test]
fn reading_back_a_written_quantity_gives_the_number() {
    for n in [0u64, 1, 15, 16, 4096, 0xdead_beef, u64::MAX - 1, u64::MAX] {
        assert_eq!(parse_prefixed_hex(&format_prefixed_hex(n)), n);
    }
}

#[test]
fn chars_of_keeps_every_character() {
    assert_eq!(chars_of("añb"), vec!['a', 'ñ', 'b']);
    assert!(chars_of("").is_empty());
}
