use batman_robin::text::{is_blank, parse_u32};
use batman_robin::MacAddress;

#[test]
fn decimal_parsing_follows_std() {
    for s in ["0", "42", "+42", "007", "4294967295", "4294967296", "", "+", "-1", "1a", " 1", "99999999999999999999"] {
        assert_eq!(parse_u32(s), s.parse::<u32>().ok(), "{s}");
    }
}

#[test]
fn blank_names() {
    assert!(is_blank(""));
    assert!(is_blank(" \t\n\u{a0}\u{3000}"));
    assert!(!is_blank(" bat0 "));
    for s in ["\u{85}", "\u{2028}", "x", "\u{200b}"] {
        assert_eq!(is_blank(s), s.trim().is_empty(), "{s:?}");
    }
}

#[test]
fn mac_addresses() {
    let m = MacAddress::parse("ab-0d-ef-12-34-56").unwrap();
    assert_eq!(m.octets(), &[0xab, 0x0d, 0xef, 0x12, 0x34, 0x56]);
    assert_eq!(m.to_text(), "AB:0D:EF:12:34:56");
    let m8 = MacAddress::parse("01:02:03:04:05:06:07:08").unwrap();
    assert_eq!(m8.to_text(), "01:02:03:04:05:06:07:08");
    assert!(MacAddress::parse("01:02:03").is_none());
    let parsed: MacAddress = "60:09:c3:aa:bb:cc".parse().unwrap();
    assert_eq!(parsed, MacAddress::from_octets([0x60, 0x09, 0xc3, 0xaa, 0xbb, 0xcc]));
}
