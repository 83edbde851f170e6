use selab::text::{
    chars_of, decimal, find_char, has_part, has_prefix, has_suffix, is_text, join, parse_i32,
    parse_u16, split_once, without_char,
};

#[test]
fn split_once_splits_at_the_first_separator() {
    assert_eq!(
        split_once("/var/www:httpd_sys_content_t", ':'),
        Some(("/var/www".to_string(), "httpd_sys_content_t".to_string()))
    );
    assert_eq!(split_once("a:b:c", ':'), Some(("a".to_string(), "b:c".to_string())));
    assert_eq!(split_once(":x", ':'), Some((String::new(), "x".to_string())));
    assert_eq!(split_once("x:", ':'), Some(("x".to_string(), String::new())));
    assert_eq!(split_once("путь:метка", ':'), Some(("путь".to_string(), "метка".to_string())));
}

#[test]
fn split_once_without_separator_gives_none() {
    assert_eq!(split_once("no separator", ':'), None);
    assert_eq!(split_once("", ':'), None);
}

#[test]
fn find_char_counts_characters_not_bytes() {
    assert_eq!(find_char("жж:", ':'), Some(2));
    assert_eq!(find_char("abc", 'c'), Some(2));
    assert_eq!(find_char("abc", 'x'), None);
    assert_eq!(find_char("", 'x'), None);
}

#[test]
fn decimal_writes_integers() {
    assert_eq!(decimal(0), "0");
    assert_eq!(decimal(7), "7");
    assert_eq!(decimal(10), "10");
    assert_eq!(decimal(1700000000123), "1700000000123");
    assert_eq!(decimal(-5), "-5");
    assert_eq!(decimal(i64::MAX), i64::MAX.to_string());
    assert_eq!(decimal(i64::MIN), i64::MIN.to_string());
}

#[test]
fn chars_of_gives_the_characters() {
    assert_eq!(chars_of("aж1"), vec!['a', 'ж', '1']);
    assert!(chars_of("").is_empty());
}

#[test]
fn prefix_suffix_and_part() {
    assert!(has_prefix("/var/www/app", "/var/www"));
    assert!(!has_prefix("/var", "/var/www"));
    assert!(has_prefix("abc", ""));
    assert!(has_prefix("", ""));
    assert!(has_suffix("module.pp", ".pp"));
    assert!(!has_suffix("pp", ".pp"));
    assert!(has_suffix("x", ""));
    assert!(has_part("system_u:httpd_t:s0", "httpd_t"));
    assert!(has_part("abc", "c"));
    assert!(has_part("abc", ""));
    assert!(has_part("", ""));
    assert!(!has_part("abc", "abcd"));
    assert!(!has_part("abab", "bb"));
    assert!(has_part("aab", "ab"));
}

#[test]
fn is_text_compares_texts() {
    assert!(is_text(&"read".to_string(), "read"));
    assert!(!is_text(&"read".to_string(), "reads"));
}

#[test]
fn parse_u16_reads_port_numbers() {
    assert_eq!(parse_u16("80"), Some(80));
    assert_eq!(parse_u16("0"), Some(0));
    assert_eq!(parse_u16("0080"), Some(80));
    assert_eq!(parse_u16("+443"), Some(443));
    assert_eq!(parse_u16("65535"), Some(65535));
    assert_eq!(parse_u16("65536"), None);
    assert_eq!(parse_u16("99999999999999999999"), None);
    assert_eq!(parse_u16(""), None);
    assert_eq!(parse_u16("+"), None);
    assert_eq!(parse_u16("-1"), None);
    assert_eq!(parse_u16("8o"), None);
    assert_eq!(parse_u16(" 80"), None);
    assert_eq!(parse_u16("80-90"), None);
    for text in ["80", "+7", "65535", "65536", "", "+", "-0", "1e3", "٣"] {
        assert_eq!(parse_u16(text), text.parse::<u16>().ok(), "{}", text);
    }
}

#[test]
fn parse_i32_reads_signed_numbers() {
    assert_eq!(parse_i32("400"), Some(400));
    assert_eq!(parse_i32("-400"), Some(-400));
    assert_eq!(parse_i32("+400"), Some(400));
    assert_eq!(parse_i32("2147483647"), Some(i32::MAX));
    assert_eq!(parse_i32("2147483648"), None);
    assert_eq!(parse_i32("-2147483648"), Some(i32::MIN));
    assert_eq!(parse_i32("-2147483649"), None);
    assert_eq!(parse_i32("-"), None);
    assert_eq!(parse_i32(""), None);
    assert_eq!(parse_i32("--1"), None);
    assert_eq!(parse_i32("+-1"), None);
    for text in ["0", "-0", "+0", "12a", "-", "+", "007", "-007", "4000000000"] {
        assert_eq!(parse_i32(text), text.parse::<i32>().ok(), "{}", text);
    }
}

#[test]
fn without_char_drops_every_occurrence() {
    assert_eq!(without_char("\"httpd\"", '"'), "httpd");
    assert_eq!(without_char("a\"b\"\"c", '"'), "abc");
    assert_eq!(without_char("plain", '"'), "plain");
    assert_eq!(without_char("\"\"", '"'), "");
    assert_eq!(without_char("", '"'), "");
}

#[test]
fn join_puts_the_separator_between() {
    let parts = vec!["/my".to_string(), "long".to_string(), "path".to_string()];
    assert_eq!(join(&parts, 3, " "), "/my long path");
    assert_eq!(join(&parts, 2, " "), "/my long");
    assert_eq!(join(&parts, 1, " "), "/my");
    assert_eq!(join(&parts, 0, " "), "");
}
