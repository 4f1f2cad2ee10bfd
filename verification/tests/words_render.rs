use wc::count::Count;
use wc::render::{render_count, render_number};
use wc::report::needs_total;
use wc::words::line_words;

#[test]
fn whitespace_only_line_has_no_words() {
    assert_eq!(line_words(""), 0);
    assert_eq!(line_words("   "), 0);
    assert_eq!(line_words(" \t \t "), 0);
}

#[test]
fn words_are_maximal_nonspace_runs() {
    assert_eq!(line_words("  a   bb c  "), 3);
    assert_eq!(line_words("hello"), 1);
    assert_eq!(line_words("hello world"), 2);
    assert_eq!(line_words("a\tb\tc\td"), 4);
}

#[test]
fn unicode_whitespace_separates_words() {
    // No-break space and ideographic space both carry the White_Space
    // property, so they end a word just as the blank does.
    assert_eq!(line_words("a\u{a0}b"), 2);
    assert_eq!(line_words("a\u{3000}b"), 2);
}

#[test]
fn render_number_is_plain_decimal() {
    assert_eq!(render_number(0), "0");
    assert_eq!(render_number(7), "7");
    assert_eq!(render_number(42), "42");
    assert_eq!(render_number(1234567), "1234567");
    assert_eq!(render_number(10000000), "10000000");
}

#[test]
fn row_fields_are_right_aligned_to_width_seven() {
    let c = Count { lines: Some(2), words: Some(2), chars: Some(12) };
    assert_eq!(render_count(&c, None), "       2       2      12\n");
}

#[test]
fn row_carries_the_input_name() {
    let c = Count { lines: Some(2), words: Some(2), chars: Some(12) };
    assert_eq!(render_count(&c, Some("data.txt")), "       2       2      12 data.txt\n");
}

#[test]
fn row_skips_absent_metrics() {
    let c = Count { lines: None, words: Some(3), chars: None };
    assert_eq!(render_count(&c, None), "       3\n");
    let c = Count { lines: Some(1), words: None, chars: Some(9) };
    assert_eq!(render_count(&c, Some("f")), "       1       9 f\n");
}

#[test]
fn wide_values_widen_their_field() {
    let c = Count { lines: None, words: None, chars: Some(123456789) };
    assert_eq!(render_count(&c, None), " 123456789\n");
}

#[test]
fn total_row_needed_only_for_more_than_one_input() {
    assert!(!needs_total(0));
    assert!(!needs_total(1));
    assert!(needs_total(2));
    assert!(needs_total(17));
}

#[test]
fn render_zero_counts() {
    let c = Count { lines: Some(0), words: Some(0), chars: Some(0) };
    assert_eq!(render_count(&c, None), "       0       0       0\n");
}
