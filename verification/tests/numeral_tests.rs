use rx_repack::numeral::{parse_u32, push_upper_hex4, u32_to_decimal, u64_to_hex};

#[test]
fn decimal_is_what_display_writes() {
    for n in [0u32, 1, 9, 10, 11, 99, 100, 12345, 99999, 100000, 4294967295] {
        assert_eq!(u32_to_decimal(n), n.to_string());
    }
    assert_eq!(u32_to_decimal(3), "3");
    assert_eq!(u32_to_decimal(4294967295), "4294967295");
}

#[test]
fn hex_is_lower_case_without_leading_zeros() {
    for n in [0u64, 1, 9, 10, 15, 16, 255, 256, 0xa27cf06, 0xdeadbeef, u64::MAX, 1 << 63] {
        assert_eq!(u64_to_hex(n), format!("{:x}", n));
    }
    assert_eq!(u64_to_hex(0), "0");
    assert_eq!(u64_to_hex(0xABCDEF), "abcdef");
    assert_eq!(u64_to_hex(u64::MAX), "ffffffffffffffff");
}

#[test]
fn upper_hex4_has_four_digits() {
    for (n, text) in [(0u16, "0000"), (0x10, "0010"), (0x7FE0, "7FE0"), (0xFFFF, "FFFF"), (0x103E, "103E")] {
        let mut s = String::new();
        push_upper_hex4(&mut s, n);
        assert_eq!(s, text);
        assert_eq!(s, format!("{:04X}", n));
    }
}

#[test]
fn parse_u32_reads_what_the_standard_parser_reads() {
    let samples = [
        "",
        "+",
        "-",
        "0",
        "+0",
        "-0",
        "7",
        "+7",
        "007",
        "+007",
        "++7",
        "7+",
        " 7",
        "7 ",
        "1.5",
        "12a",
        "a12",
        "4294967295",
        "4294967296",
        "+4294967295",
        "42949672950",
        "99999999999999999999999999",
        "00000000000000000000000000005",
        "\u{ff17}",
        "\u{0663}",
        "1_000",
        "0x10",
        "SeriesNumber",
    ];
    for s in samples {
        assert_eq!(parse_u32(s), s.parse::<u32>().ok(), "{:?}", s);
    }
    assert_eq!(parse_u32("3"), Some(3));
    assert_eq!(parse_u32("+12"), Some(12));
    assert_eq!(parse_u32("4294967295"), Some(u32::MAX));
    assert_eq!(parse_u32("4294967296"), None);
    assert_eq!(parse_u32("3A"), None);
    assert_eq!(parse_u32(""), None);
}

#[test]
fn decimal_and_parse_are_inverse() {
    for n in [0u32, 5, 10, 99999, 100000, u32::MAX] {
        assert_eq!(parse_u32(&u32_to_decimal(n)), Some(n));
    }
}
