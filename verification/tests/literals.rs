use nj_derive::literal::append_string_literal;
use nj_derive::text::{append_decimal, append_statements, decimal};

fn string_literal(value: &str) -> String {
    let mut literal = String::new();
    append_string_literal(&mut literal, value);
    literal
}

fn denoted(literal: &str) -> String {
    syn::parse_str::<syn::LitStr>(literal).unwrap().value()
}

#[test]
fn plain_text_stands_between_quotes() {
    assert_eq!(string_literal("userId"), "\"userId\"");
    assert_eq!(string_literal(""), "\"\"");
}

#[test]
fn quotes_and_backslashes_are_escaped() {
    assert_eq!(string_literal("a\"b"), "\"a\\\"b\"");
    assert_eq!(string_literal("a\\b"), "\"a\\\\b\"");
    assert_eq!(string_literal("\\\""), "\"\\\\\\\"\"");
}

#[test]
fn control_characters_are_escaped() {
    assert_eq!(string_literal("a\nb"), "\"a\\nb\"");
    assert_eq!(string_literal("a\rb"), "\"a\\rb\"");
    assert_eq!(string_literal("a\tb"), "\"a\\tb\"");
    assert_eq!(string_literal("a\0b"), "\"a\\0b\"");
}

#[test]
fn other_characters_stand_for_themselves() {
    assert_eq!(string_literal("it's"), "\"it's\"");
    assert_eq!(string_literal("größe ✓"), "\"größe ✓\"");
    assert_eq!(string_literal("{x}"), "\"{x}\"");
}

#[test]
fn literal_denotes_its_value() {
    let values = [
        "",
        "plain",
        "Enums are not supported",
        "with \"quotes\" and \\ backslashes \\\\",
        "line\nbreak\r\nand\ttab",
        "nul\0seven7 and \u{0}0",
        "trailing backslash \\",
        "\\n is not a line feed",
        "größe ✓ 日本語 \u{1F600}",
        "'single' {braces} #hash",
    ];
    for value in values {
        assert_eq!(denoted(&string_literal(value)), value);
    }
}

#[test]
fn literal_is_appended_behind_what_is_there() {
    let mut out = String::from("key = ");
    append_string_literal(&mut out, "a\"b");
    assert_eq!(out, "key = \"a\\\"b\"");
}

#[test]
fn decimal_notation() {
    assert_eq!(decimal(0), "0");
    assert_eq!(decimal(7), "7");
    assert_eq!(decimal(9), "9");
    assert_eq!(decimal(10), "10");
    assert_eq!(decimal(42), "42");
    assert_eq!(decimal(100), "100");
    assert_eq!(decimal(1234567890), "1234567890");
    assert_eq!(decimal(usize::MAX), usize::MAX.to_string());
}

#[test]
fn decimal_is_appended_behind_what_is_there() {
    let mut out = String::from("self.");
    append_decimal(&mut out, 305);
    assert_eq!(out, "self.305");
}

#[test]
fn statements_become_indented_lines() {
    let mut out = String::from("{\n");
    append_statements(&mut out, &vec!["first();".to_string(), "second();".to_string()]);
    assert_eq!(out, "{\n        first();\n        second();\n");
}

#[test]
fn no_statements_give_no_lines() {
    let mut out = String::from("{\n");
    append_statements(&mut out, &Vec::new());
    assert_eq!(out, "{\n");
}
