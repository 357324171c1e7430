use nats_messaging::strutil::{is_blank, parse_u16, parse_u32, split_on, split_once_on, trim_ascii};

#[test]
fn split_keeps_empty_pieces() {
    assert_eq!(split_on("a,b,c", ','), vec!["a", "b", "c"]);
    assert_eq!(split_on("a,,c", ','), vec!["a", "", "c"]);
    assert_eq!(split_on("", ','), vec![""]);
    assert_eq!(split_on("no-separator", ','), vec!["no-separator"]);
    assert_eq!(split_on(",edge,", ','), vec!["", "edge", ""]);
}

#[test]
fn split_once_cuts_at_first_separator() {
    assert_eq!(split_once_on("sub|queue", '|'), Some(("sub".to_string(), "queue".to_string())));
    assert_eq!(split_once_on("a|b|c", '|'), Some(("a".to_string(), "b|c".to_string())));
    assert_eq!(split_once_on("plain", '|'), None);
    assert_eq!(split_once_on("|lead", '|'), Some(("".to_string(), "lead".to_string())));
}

#[test]
fn decimal_parsing_is_exact() {
    assert_eq!(parse_u16("0"), Some(0));
    assert_eq!(parse_u16("65535"), Some(65535));
    assert_eq!(parse_u16("65536"), None);
    assert_eq!(parse_u16(""), None);
    assert_eq!(parse_u16("12a"), None);
    assert_eq!(parse_u16("-1"), None);
    assert_eq!(parse_u32("4294967295"), Some(4294967295));
    assert_eq!(parse_u32("4294967296"), None);
    assert_eq!(parse_u32("00042"), Some(42));
}

#[test]
fn trimming_strips_surrounding_whitespace_only() {
    assert_eq!(trim_ascii("  padded  "), "padded");
    assert_eq!(trim_ascii("\t\nmixed \r"), "mixed");
    assert_eq!(trim_ascii("inner space kept"), "inner space kept");
    assert_eq!(trim_ascii("   "), "");
    assert_eq!(trim_ascii(""), "");
}

#[test]
fn blankness_is_whitespace_only() {
    assert!(is_blank(""));
    assert!(is_blank(" \t\r\n"));
    assert!(!is_blank(" x "));
}
