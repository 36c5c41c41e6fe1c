use flower::decimal::{format_u32, parse_u32};

#[test]
fn formats_numbers() {
    assert_eq!(format_u32(0), "0");
    assert_eq!(format_u32(7), "7");
    assert_eq!(format_u32(10), "10");
    assert_eq!(format_u32(310069), "310069");
    assert_eq!(format_u32(u32::MAX), "4294967295");
}

#[test]
fn parses_numbers() {
    assert_eq!(parse_u32("0"), Some(0));
    assert_eq!(parse_u32("310069"), Some(310069));
    assert_eq!(parse_u32("+42"), Some(42));
    assert_eq!(parse_u32("007"), Some(7));
    assert_eq!(parse_u32("4294967295"), Some(u32::MAX));
}

#[test]
fn refuses_what_u32_parsing_refuses() {
    for text in ["", "+", "-1", "-0", "12a", " 1", "4294967296", "99999999999999999999", "++1"] {
        assert_eq!(parse_u32(text), None, "{:?}", text);
        assert!(text.parse::<u32>().is_err());
    }
}

#[test]
fn parsing_agrees_with_std() {
    for text in ["1", "+0", "65535", "123456789", "4294967295", "4294967300"] {
        assert_eq!(parse_u32(text), text.parse::<u32>().ok(), "{:?}", text);
    }
}
