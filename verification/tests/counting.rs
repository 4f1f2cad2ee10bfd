use wc::count::{count, count_line, Count};
use wc::modes::Flags;

fn no_flags() -> Flags {
    Flags::new(false, false, false, false)
}

fn lines_of(strs: &[&str]) -> Vec<String> {
    strs.iter().map(|s| s.to_string()).collect()
}

#[test]
fn default_flags_activate_lines_words_bytes() {
    let c = Count::new(&no_flags());
    assert_eq!(c.lines, Some(0));
    assert_eq!(c.words, Some(0));
    assert_eq!(c.chars, Some(0));
}

#[test]
fn explicit_flags_activate_only_requested_metrics() {
    let f = Flags::new(false, false, true, false);
    let c = Count::new(&f);
    assert_eq!(c.lines, Some(0));
    assert_eq!(c.words, None);
    assert_eq!(c.chars, None);

    let f = Flags::new(true, false, false, true);
    let c = Count::new(&f);
    assert_eq!(c.lines, None);
    assert_eq!(c.words, Some(0));
    assert_eq!(c.chars, Some(0));
}

#[test]
fn all_flags_activate_all_metrics() {
    let f = Flags::new(true, true, true, true);
    let c = Count::new(&f);
    assert_eq!(c.lines, Some(0));
    assert_eq!(c.words, Some(0));
    assert_eq!(c.chars, Some(0));
}

#[test]
fn hello_world_default_counts() {
    // The stream "hello\nworld\n" under no flags: 2 lines, 2 words,
    // 12 bytes (5 + 1 + 5 + 1).
    let ls = lines_of(&["hello", "world"]);
    let c = count(&ls, Count::new(&no_flags()), false).unwrap();
    assert_eq!(c.lines, Some(2));
    assert_eq!(c.words, Some(2));
    assert_eq!(c.chars, Some(12));
}

#[test]
fn empty_stream_counts_zero() {
    let ls = lines_of(&[]);
    let c = count(&ls, Count::new(&no_flags()), false).unwrap();
    assert_eq!(c.lines, Some(0));
    assert_eq!(c.words, Some(0));
    assert_eq!(c.chars, Some(0));
}

#[test]
fn unicode_char_counted_once_under_char_unit() {
    // A line holding one 3-byte character: one character under -m,
    // three bytes under -c, plus one for the newline either way.
    let ls = lines_of(&["\u{20ac}"]);
    let char_mode = Flags::new(true, false, false, false);
    let c = count(&ls, Count::new(&char_mode), true).unwrap();
    assert_eq!(c.chars, Some(2));

    let byte_mode = Flags::new(false, true, false, false);
    let c = count(&ls, Count::new(&byte_mode), false).unwrap();
    assert_eq!(c.chars, Some(4));
}

#[test]
fn char_and_byte_units_agree_on_single_byte_streams() {
    let ls = lines_of(&["plain ascii text", "", "more of it"]);
    let char_mode = Flags::new(true, false, false, false);
    let byte_mode = Flags::new(false, true, false, false);
    let a = count(&ls, Count::new(&char_mode), true).unwrap();
    let b = count(&ls, Count::new(&byte_mode), false).unwrap();
    assert_eq!(a.chars, b.chars);
}

#[test]
fn counting_twice_yields_identical_counts() {
    let ls = lines_of(&["same", "content here"]);
    let again = lines_of(&["same", "content here"]);
    let a = count(&ls, Count::new(&no_flags()), false).unwrap();
    let b = count(&again, Count::new(&no_flags()), false).unwrap();
    assert_eq!(a.lines, b.lines);
    assert_eq!(a.words, b.words);
    assert_eq!(a.chars, b.chars);
}

#[test]
fn count_line_folds_one_line() {
    let c = Count::new(&no_flags());
    let c = count_line(c, "two words", false).unwrap();
    assert_eq!(c.lines, Some(1));
    assert_eq!(c.words, Some(2));
    assert_eq!(c.chars, Some(10));
}

#[test]
fn count_line_reports_overflow() {
    let full = Count { lines: Some(usize::MAX), words: Some(0), chars: Some(0) };
    assert!(count_line(full, "x", false).is_none());
}

#[test]
fn count_reports_overflow() {
    let full = Count { lines: None, words: None, chars: Some(usize::MAX) };
    let ls = lines_of(&["x"]);
    assert!(count(&ls, full, false).is_none());
}

#[test]
fn inactive_metrics_stay_absent_through_counting() {
    let f = Flags::new(false, false, false, true);
    let ls = lines_of(&["one two three"]);
    let c = count(&ls, Count::new(&f), false).unwrap();
    assert_eq!(c.lines, None);
    assert_eq!(c.words, Some(3));
    assert_eq!(c.chars, None);
}

#[test]
fn add_sums_metric_wise() {
    let a = Count { lines: Some(1), words: Some(2), chars: Some(12) };
    let b = Count { lines: Some(3), words: Some(4), chars: Some(30) };
    let c = a.add(b);
    assert_eq!(c.lines, Some(4));
    assert_eq!(c.words, Some(6));
    assert_eq!(c.chars, Some(42));
}

#[test]
fn add_keeps_absent_metrics_absent() {
    let a = Count { lines: Some(1), words: None, chars: Some(12) };
    let b = Count { lines: Some(3), words: Some(4), chars: None };
    let c = a.add(b);
    assert_eq!(c.lines, Some(4));
    assert_eq!(c.words, None);
    assert_eq!(c.chars, None);
}

#[test]
fn total_of_inputs_is_metric_wise_sum() {
    // The total over several inputs equals the per-metric sum of the
    // individually computed counts.
    let first = lines_of(&["hello", "world"]);
    let second = lines_of(&["a b c"]);
    let f = no_flags();
    let c1 = count(&first, Count::new(&f), false).unwrap();
    let c2 = count(&second, Count::new(&f), false).unwrap();
    let total = Count::new(&f).add(c1).add(c2);
    assert_eq!(total.lines, Some(3));
    assert_eq!(total.words, Some(5));
    assert_eq!(total.chars, Some(18));
    assert_eq!(total.lines, Some(c1.lines.unwrap() + c2.lines.unwrap()));
    assert_eq!(total.words, Some(c1.words.unwrap() + c2.words.unwrap()));
    assert_eq!(total.chars, Some(c1.chars.unwrap() + c2.chars.unwrap()));
}

#[test]
fn try_add_agrees_with_add_and_reports_overflow() {
    let a = Count { lines: Some(1), words: Some(2), chars: Some(3) };
    let b = Count { lines: Some(4), words: Some(5), chars: Some(6) };
    let c = a.try_add(b).unwrap();
    assert_eq!(c.lines, Some(5));
    assert_eq!(c.words, Some(7));
    assert_eq!(c.chars, Some(9));

    let big = Count { lines: Some(usize::MAX), words: Some(0), chars: Some(0) };
    let one = Count { lines: Some(1), words: Some(0), chars: Some(0) };
    assert!(big.try_add(one).is_none());
}

#[test]
fn total_over_one_present_one_missing_input() {
    // Two inputs where one cannot be opened: only the present one is
    // counted, and the total equals its count alone.
    let present = lines_of(&["hello", "world"]);
    let f = no_flags();
    let counted = count(&present, Count::new(&f), false).unwrap();
    let total = Count::new(&f).add(counted);
    assert_eq!(total.lines, counted.lines);
    assert_eq!(total.words, counted.words);
    assert_eq!(total.chars, counted.chars);
}

#[test]
fn fold_input_skips_failed_inputs() {
    // An input that produced no count leaves the total unchanged and
    // prints nothing.
    let total = Count { lines: Some(2), words: Some(2), chars: Some(12) };
    let (t, row) = wc::report::fold_input(total, None, Some("missing.txt")).unwrap();
    assert_eq!(t.lines, Some(2));
    assert_eq!(t.words, Some(2));
    assert_eq!(t.chars, Some(12));
    assert!(row.is_none());
}

#[test]
fn fold_input_folds_and_renders_counted_inputs() {
    let total = Count { lines: Some(1), words: Some(1), chars: Some(2) };
    let counted = Count { lines: Some(2), words: Some(2), chars: Some(12) };
    let (t, row) = wc::report::fold_input(total, Some(counted), Some("data.txt")).unwrap();
    assert_eq!(t.lines, Some(3));
    assert_eq!(t.words, Some(3));
    assert_eq!(t.chars, Some(14));
    assert_eq!(row.unwrap(), "       2       2      12 data.txt\n");
}

#[test]
fn fold_input_reports_total_overflow() {
    let total = Count { lines: Some(usize::MAX), words: None, chars: None };
    let counted = Count { lines: Some(1), words: None, chars: None };
    assert!(wc::report::fold_input(total, Some(counted), None).is_none());
}

#[test]
fn error_lines_name_the_failed_input() {
    // A failed named input is reported as "<name>: <description>"; a
    // failure on standard input carries no name prefix.
    assert_eq!(
        wc::report::error_line(Some("missing.txt"), "No such file or directory"),
        "missing.txt: No such file or directory"
    );
    assert_eq!(wc::report::error_line(None, "stream did not contain valid UTF-8"),
        "stream did not contain valid UTF-8");
}
