use rust_basics::data_types::{literal_lines, signed_byte_overflow, wrapping_increment, SIGNED_BYTE_MAX};
use rust_basics::decimal::{push_decimal, to_decimal};
use rust_basics::lines::labelled_line;
use rust_basics::ownership::{greet, greeting_line, hand_back_text, moved_text_line, world_line};
use rust_basics::variables::shadowing_lines;

#[test]
fn shadowing_output_is_literal() {
    assert_eq!(
        shadowing_lines(),
        vec![
            "The value of x is: 5".to_string(),
            "The value of x is: 6".to_string(),
            "The value of x in the inner scope is: 12".to_string(),
            "The value of x is: 6".to_string(),
        ]
    );
}

#[test]
fn literal_output_is_decimal() {
    assert_eq!(literal_lines(), vec!["98222", "255", "63", "240", "65"]);
}

#[test]
fn repeated_runs_agree() {
    assert_eq!(shadowing_lines(), shadowing_lines());
    assert_eq!(literal_lines(), literal_lines());
    assert_eq!(hand_back_text(), hand_back_text());
    assert_eq!(moved_text_line(), moved_text_line());
    assert_eq!(signed_byte_overflow(), signed_byte_overflow());
}

#[test]
fn signed_byte_max_wraps_to_min() {
    assert_eq!(SIGNED_BYTE_MAX, 127);
    assert_eq!(wrapping_increment(127), -128);
    assert_eq!(signed_byte_overflow(), (127, -128));
}

#[test]
fn increment_below_max_adds_one() {
    assert_eq!(wrapping_increment(0), 1);
    assert_eq!(wrapping_increment(-128), -127);
    assert_eq!(wrapping_increment(-1), 0);
    assert_eq!(wrapping_increment(126), 127);
}

#[test]
fn moved_text_reaches_new_owner() {
    assert_eq!(moved_text_line(), "hello, world!");
}

#[test]
fn greet_hands_back_both_texts() {
    let (a, b) = greet("Hello".to_string(), "world".to_string());
    assert_eq!(a, "Hello");
    assert_eq!(b, "world");
    assert_eq!(hand_back_text(), "Hello world");
}

#[test]
fn greeting_line_joins_with_space() {
    assert_eq!(greeting_line(&"a".to_string(), &"b".to_string()), "a b");
    assert_eq!(greeting_line(&String::new(), &String::new()), " ");
}

#[test]
fn world_line_appends_greeting() {
    assert_eq!(world_line(&"hi".to_string()), "hi, world!");
    assert_eq!(world_line(&String::new()), ", world!");
}

#[test]
fn decimal_edge_values() {
    assert_eq!(to_decimal(0), "0");
    assert_eq!(to_decimal(9), "9");
    assert_eq!(to_decimal(10), "10");
    assert_eq!(to_decimal(1000), "1000");
    assert_eq!(to_decimal(u64::MAX), "18446744073709551615");
}

#[test]
fn push_decimal_appends() {
    let mut s = "n=".to_string();
    push_decimal(&mut s, 407);
    assert_eq!(s, "n=407");
}

#[test]
fn labelled_line_prefixes_value() {
    assert_eq!(labelled_line("v: ", 0), "v: 0");
    assert_eq!(labelled_line("", 42), "42");
}
