use excel_analyzer::numeral::{count_or, parse_count, push_decimal};
use excel_analyzer::session::{
    header_row_count, sample_row_count, DEFAULT_HEADER_ROWS, DEFAULT_SAMPLE_ROWS,
};

fn decimal(n: usize) -> String {
    let mut out = String::from(">");
    push_decimal(&mut out, n);
    out
}

#[test]
fn numerals_are_written_without_leading_zeros() {
    assert_eq!(decimal(0), ">0");
    assert_eq!(decimal(7), ">7");
    assert_eq!(decimal(10), ">10");
    assert_eq!(decimal(109), ">109");
    assert_eq!(decimal(1234567890), ">1234567890");
    assert_eq!(decimal(usize::MAX), format!(">{}", usize::MAX));
}

#[test]
fn numerals_are_read() {
    assert_eq!(parse_count("0"), Some(0));
    assert_eq!(parse_count("5"), Some(5));
    assert_eq!(parse_count("42"), Some(42));
    assert_eq!(parse_count("+7"), Some(7));
    assert_eq!(parse_count("007"), Some(7));
    assert_eq!(parse_count("+000"), Some(0));
    assert_eq!(parse_count(&usize::MAX.to_string()), Some(usize::MAX));
}

#[test]
fn other_texts_are_no_counts() {
    for text in [
        "", "+", "-", "-1", "-0", "abc", "5a", "a5", " 5", "5 ", "1.5", "1e3", "++1", "+-1", "1+",
        "0x10", "１２", "५",
    ] {
        assert_eq!(parse_count(text), None, "{:?}", text);
        assert_eq!(text.parse::<usize>().ok(), None, "{:?}", text);
    }
}

#[test]
fn numerals_beyond_the_word_are_no_counts() {
    let over = format!("{}0", usize::MAX);
    assert_eq!(parse_count(&over), None);
    let next = (usize::MAX as u128 + 1).to_string();
    assert_eq!(parse_count(&next), None);
    assert_eq!(parse_count("99999999999999999999999999999999999999999"), None);
    assert_eq!(parse_count(&format!("000{}", usize::MAX)), Some(usize::MAX));
}

#[test]
fn reading_agrees_with_the_standard_parser() {
    for text in ["0", "1", "+1", "10", "0010", "18446744073709551615", "18446744073709551616", "+", ""] {
        assert_eq!(parse_count(text), text.parse::<usize>().ok(), "{:?}", text);
    }
    for n in [0usize, 1, 9, 10, 11, 99, 100, 65535, 4294967295] {
        assert_eq!(parse_count(&n.to_string()), Some(n));
    }
}

#[test]
fn settings_that_are_no_counts_fall_back() {
    assert_eq!(DEFAULT_HEADER_ROWS, 1);
    assert_eq!(DEFAULT_SAMPLE_ROWS, 5);
    for text in ["", "abc", "-3", "2.5", "one", " "] {
        assert_eq!(header_row_count(text), 1);
        assert_eq!(sample_row_count(text), 5);
    }
    assert_eq!(header_row_count("0"), 0);
    assert_eq!(header_row_count("3"), 3);
    assert_eq!(sample_row_count("0"), 0);
    assert_eq!(sample_row_count("12"), 12);
    assert_eq!(count_or("x", 9), 9);
    assert_eq!(count_or("4", 9), 4);
}

#[test]
fn what_is_written_reads_back() {
    for n in [0usize, 1, 9, 10, 19, 100, 101, 999, 1000, 123456789, usize::MAX - 1, usize::MAX] {
        let mut text = String::new();
        push_decimal(&mut text, n);
        assert_eq!(text, n.to_string());
        assert_eq!(parse_count(&text), Some(n));
    }
}
