use unic_ucd_gen::case::{
    capitalize, capitalize_with, is_white_space_char, title_case, title_case_with,
};
use unic_ucd_gen::number::{parse_decimal_u16, parse_hex_u32};

#[test]
fn title_case_words() {
    assert_eq!(title_case("line feed"), "LineFeed");
    assert_eq!(title_case("  upper   case letter "), "UpperCaseLetter");
    assert_eq!(title_case(""), "");
    assert_eq!(title_case(" \t\n"), "");
    assert_eq!(title_case("straße weiß"), "StraßeWeiß");
    assert_eq!(title_case("ßa"), "SSa");
}

#[test]
fn capitalize_words() {
    assert_eq!(capitalize("abc"), "Abc");
    assert_eq!(capitalize(""), "");
    assert_eq!(capitalize("Abc"), "Abc");
    assert_eq!(capitalize("ǆemal"), "Ǆemal");
}

#[test]
fn white_space_property() {
    assert!(is_white_space_char(' '));
    assert!(is_white_space_char('\u{3000}'));
    assert!(is_white_space_char('\u{85}'));
    assert!(!is_white_space_char('\u{200B}'));
    assert!(!is_white_space_char('a'));
}

#[test]
fn hex_parsing() {
    assert_eq!(parse_hex_u32(&"0041".chars().collect()), Some(0x41));
    assert_eq!(parse_hex_u32(&"10ffff".chars().collect()), Some(0x10FFFF));
    assert_eq!(parse_hex_u32(&"FFFFFFFF".chars().collect()), Some(u32::MAX));
    assert_eq!(parse_hex_u32(&"100000000".chars().collect()), None);
    assert_eq!(parse_hex_u32(&"".chars().collect()), None);
    assert_eq!(parse_hex_u32(&"12G".chars().collect()), None);
}

#[test]
fn decimal_parsing() {
    assert_eq!(parse_decimal_u16(&"11".chars().collect()), Some(11));
    assert_eq!(parse_decimal_u16(&"65535".chars().collect()), Some(65535));
    assert_eq!(parse_decimal_u16(&"65536".chars().collect()), None);
    assert_eq!(parse_decimal_u16(&"".chars().collect()), None);
    assert_eq!(parse_decimal_u16(&"1a".chars().collect()), None);
}

#[test]
fn capitalize_with_given_upper() {
    let w: Vec<char> = "ßa".chars().collect();
    let up: Vec<char> = "SS".chars().collect();
    assert_eq!(capitalize_with(&up, &w), vec!['S', 'S', 'a']);
    assert_eq!(capitalize_with(&up, &Vec::new()), Vec::<char>::new());
}

#[test]
fn title_case_with_given_uppers() {
    let s: Vec<char> = "ab c".chars().collect();
    let ups: Vec<Vec<char>> = vec![vec!['X'], vec!['Y'], vec![' '], vec!['Z', 'Z']];
    assert_eq!(title_case_with(&s, &ups), vec!['X', 'b', 'Z', 'Z']);
    assert_eq!(title_case_with(&Vec::new(), &Vec::new()), Vec::<char>::new());
}
