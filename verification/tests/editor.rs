use fexc::editor::format_number;
use fexc::editor::line_total;
use fexc::editor::numlines_text;

#[test]
fn empty_text_shows_line_one() {
    assert_eq!(line_total(""), 1);
    assert_eq!(numlines_text(""), "1");
}

#[test]
fn trailing_newline_opens_one_more_line() {
    assert_eq!(line_total("a"), 1);
    assert_eq!(line_total("a\n"), 2);
    assert_eq!(line_total("a\nb"), 2);
    assert_eq!(line_total("a\nb\n"), 3);
    assert_eq!(line_total("\n"), 2);
}

#[test]
fn gutter_joins_numbers_with_newlines() {
    assert_eq!(numlines_text("a\nb"), "1\n2");
    assert_eq!(numlines_text("a\nb\nc"), "1\n2\n3");
}

#[test]
fn gutter_pads_to_widest_number() {
    // Ten lines: single-digit numbers are right-aligned under "10".
    let text = "a\nb\nc\nd\ne\nf\ng\nh\ni\nj";
    assert_eq!(line_total(text), 10);
    assert_eq!(
        numlines_text(text),
        " 1\n 2\n 3\n 4\n 5\n 6\n 7\n 8\n 9\n10"
    );
}

#[test]
fn gutter_counts_multibyte_text_by_characters() {
    assert_eq!(line_total("розмір\nшрифту\n"), 3);
    assert_eq!(numlines_text("розмір\nшрифту"), "1\n2");
}

#[test]
fn format_number_is_plain_decimal() {
    assert_eq!(format_number(0), "0");
    assert_eq!(format_number(7), "7");
    assert_eq!(format_number(10), "10");
    assert_eq!(format_number(36), "36");
    assert_eq!(format_number(1835), "1835");
    assert_eq!(format_number(1000000), "1000000");
}
