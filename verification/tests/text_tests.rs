use bank_query::text::{decimal, is_whitespace, parse_u16, trim};

#[test]
fn whitespace_agrees_with_std() {
    for u in 0u32..0x3100 {
        if let Some(c) = char::from_u32(u) {
            assert_eq!(is_whitespace(c), c.is_whitespace(), "code point {:x}", u);
        }
    }
    for c in ['\u{feff}', '\u{200b}', '\u{10ffff}', 'a', '中'] {
        assert_eq!(is_whitespace(c), c.is_whitespace());
    }
}

#[test]
fn trim_agrees_with_std() {
    let cases = [
        "",
        "   ",
        "ICBC",
        "  ICBC  ",
        "\t中国工商银行\n",
        "\u{3000}全角空格\u{3000}",
        "\u{a0}a b\u{a0}",
        " a  b ",
        "\u{2028}\u{2029}",
        "x\u{200b}",
    ];
    for s in cases {
        assert_eq!(trim(s), s.trim(), "trimming {:?}", s);
    }
}

#[test]
fn trim_is_idempotent_on_examples() {
    for s in ["  a ", "\t\tb\u{3000}", "c"] {
        let once = trim(s);
        assert_eq!(trim(&once), once);
    }
}

#[test]
fn decimal_agrees_with_std() {
    for n in [0usize, 7, 9, 10, 42, 100, 10119, 65535, 1234567890, usize::MAX] {
        assert_eq!(decimal(n), n.to_string());
    }
}

#[test]
fn parse_u16_agrees_with_std() {
    let cases = [
        "", "+", "-", "-0", "0", "+0", "80", "+8080", "08080", "65535", "65536", "99999999999999",
        " 80", "80 ", "８０", "1_000", "12a", "++1", "0000000000000000000065535",
    ];
    for s in cases {
        assert_eq!(parse_u16(s), s.parse::<u16>().ok(), "parsing {:?}", s);
    }
}

#[test]
fn port_round_trip_on_examples() {
    for n in [0u16, 1, 80, 8080, 10119, 65535] {
        assert_eq!(parse_u16(&decimal(n as usize)), Some(n));
    }
}
