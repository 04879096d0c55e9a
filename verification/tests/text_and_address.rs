use btman::address::{alias_is_address, parse_address, BtAddress};
use btman::text::{
    contains, i32_to_decimal, order_texts, parse_u32_or_zero, replace_char, same_text,
    u32_to_decimal, TextOrder,
};

#[test]
fn contains_finds_runs_of_characters() {
    assert!(contains("org.bluez.Error.Failed: br-connection-page-timeout", "page-timeout"));
    assert!(contains("abc", ""));
    assert!(contains("abc", "abc"));
    assert!(!contains("abc", "abcd"));
    assert!(!contains("ab c", "bc"));
    assert!(contains("xxyyz", "yyz"));
}

#[test]
fn replace_char_swaps_every_occurrence() {
    assert_eq!(replace_char("00-1A-7D", '-', ':'), "00:1A:7D");
    assert_eq!(replace_char("", '-', ':'), "");
    assert_eq!(replace_char("no dashes", '-', ':'), "no dashes");
}

#[test]
fn decimal_notation_matches_to_string() {
    for n in [0u32, 7, 10, 42, 100, 65535, 4294967295] {
        assert_eq!(u32_to_decimal(n), n.to_string());
    }
    for n in [0i32, -1, -60, 127, i32::MIN, i32::MAX] {
        assert_eq!(i32_to_decimal(n), n.to_string());
    }
}

#[test]
fn parse_reads_unsigned_numbers_or_gives_zero() {
    assert_eq!(parse_u32_or_zero("123456"), 123456);
    assert_eq!(parse_u32_or_zero("+17"), 17);
    assert_eq!(parse_u32_or_zero("007"), 7);
    assert_eq!(parse_u32_or_zero("4294967295"), 4294967295);
    assert_eq!(parse_u32_or_zero("4294967296"), 0);
    assert_eq!(parse_u32_or_zero(""), 0);
    assert_eq!(parse_u32_or_zero("+"), 0);
    assert_eq!(parse_u32_or_zero("-1"), 0);
    assert_eq!(parse_u32_or_zero("12a"), 0);
    assert_eq!(parse_u32_or_zero(" 12"), 0);
}

#[test]
fn parse_reads_back_decimal_notation() {
    for n in [0u32, 1, 999999, 123456789, u32::MAX] {
        assert_eq!(parse_u32_or_zero(&u32_to_decimal(n)), n);
    }
}

#[test]
fn texts_order_by_code_points() {
    assert_eq!(order_texts("apple", "banana"), TextOrder::Before);
    assert_eq!(order_texts("banana", "apple"), TextOrder::After);
    assert_eq!(order_texts("app", "apple"), TextOrder::Before);
    assert_eq!(order_texts("same", "same"), TextOrder::Same);
    assert_eq!(order_texts("", ""), TextOrder::Same);
    assert_eq!(order_texts("Zebra", "apple"), TextOrder::Before);
    assert!(same_text("héllo", "héllo"));
    assert!(!same_text("hello", "hellO"));
}

#[test]
fn lowercase_follows_std() {
    assert_eq!(btman::window::yes_no_answer_id("Remove"), "remove");
    assert_eq!(btman::window::yes_no_answer_id("ÀÉ"), "àé");
}

#[test]
fn addresses_parse_like_bluer() {
    let a = parse_address("00:1A:7D:DA:71:13").unwrap();
    assert_eq!(a.value, 0x001A7DDA7113);
    assert_eq!(parse_address("ff:ff:ff:ff:ff:ff").unwrap().value, 0xFFFFFFFFFFFF);
    assert_eq!(parse_address("+1:2:3:4:5:6").unwrap().value, 0x010203040506);
    assert_eq!(parse_address("0001:2:3:4:5:6").unwrap().value, 0x010203040506);
    assert!(parse_address("00:1A:7D:DA:71").is_none());
    assert!(parse_address("00:1A:7D:DA:71:13:00").is_none());
    assert!(parse_address("00:1A:7D:DA:71:1G").is_none());
    assert!(parse_address("00:1A:7D:DA:71:100").is_none());
    assert!(parse_address("00:1A:7D:DA::13").is_none());
    assert!(parse_address("").is_none());
    assert_eq!(BtAddress::any().value, 0);
    assert_eq!(BtAddress::from_octets([1, 2, 3, 4, 5, 6]).value, 0x010203040506);
}

#[test]
fn aliases_that_spell_addresses_are_recognised() {
    assert!(alias_is_address("00-1A-7D-DA-71-13"));
    assert!(alias_is_address("00:1A:7D:DA:71:13"));
    assert!(!alias_is_address("Headphones"));
    assert!(!alias_is_address("Unknown Device"));
    assert!(!alias_is_address("00-1A-7D-DA-71"));
}
