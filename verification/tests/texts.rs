use copy_order::diagnostic::report;
use copy_order::diagnostic::sort_error_message;
use copy_order::diagnostic::Diagnostic;
use copy_order::parse::failure;
use copy_order::range::to_lsp;
use copy_order::range::Point;
use copy_order::range::Position;
use copy_order::range::Range;
use copy_order::range::SourceRange;
use copy_order::syntax::SyntaxError;
use copy_order::text::bytes_le;
use copy_order::text::slice_text;
use copy_order::text::sorts_before_or_at;
use copy_order::text::starts_with_dash;

#[test]
fn a_dash_in_front_makes_a_flag() {
    assert!(starts_with_dash("-x"));
    assert!(starts_with_dash("--long"));
    assert!(starts_with_dash("-"));
    assert!(!starts_with_dash(""));
    assert!(!starts_with_dash("x-"));
    assert!(!starts_with_dash("foo"));
    assert!(!starts_with_dash("\u{2013}x"));
}

#[test]
fn order_agrees_with_the_order_of_str() {
    let samples = [
        "", "a", "A", "ab", "abc", "abd", "b", "B", "-", "0", "10", "9", "foo", "bar",
        "\u{e9}", "e", "z", "\u{1f600}", "\u{7ff}", "\u{800}", "a\u{0}", "a b",
    ];
    for a in samples {
        for b in samples {
            assert_eq!(sorts_before_or_at(a, b), a <= b, "{:?} against {:?}", a, b);
            assert_eq!(bytes_le(a.as_bytes(), b.as_bytes()), a.as_bytes() <= b.as_bytes());
        }
    }
}

#[test]
fn a_prefix_comes_first() {
    assert!(sorts_before_or_at("foo", "foobar"));
    assert!(!sorts_before_or_at("foobar", "foo"));
    assert!(sorts_before_or_at("", "a"));
    assert!(sorts_before_or_at("same", "same"));
}

#[test]
fn a_piece_is_cut_at_its_bytes() {
    assert_eq!(slice_text("d foo; d bar", 2, 5), Some("foo"));
    assert_eq!(slice_text("d foo", 0, 5), Some("d foo"));
    assert_eq!(slice_text("d foo", 5, 5), Some(""));
    assert_eq!(slice_text("d foo", 0, 0), Some(""));
    assert_eq!(slice_text("", 0, 0), Some(""));
}

#[test]
fn no_piece_lies_outside_the_text() {
    assert_eq!(slice_text("d foo", 3, 2), None);
    assert_eq!(slice_text("d foo", 0, 6), None);
    assert_eq!(slice_text("d foo", 6, 6), None);
    assert_eq!(slice_text("", 0, 1), None);
    assert_eq!(slice_text("abc", usize::MAX, usize::MAX), None);
}

#[test]
fn no_piece_splits_a_character() {
    let text = "a\u{e9}b";
    assert_eq!(text.len(), 4);
    assert_eq!(slice_text(text, 1, 3), Some("\u{e9}"));
    assert_eq!(slice_text(text, 0, 3), Some("a\u{e9}"));
    assert_eq!(slice_text(text, 1, 2), None);
    assert_eq!(slice_text(text, 2, 3), None);
    assert_eq!(slice_text(text, 2, 4), None);
    assert_eq!(slice_text(text, 3, 4), Some("b"));
}

#[test]
fn the_sort_message_names_the_later_argument_first() {
    assert_eq!(
        sort_error_message(&"foo".to_string(), &"bar".to_string()),
        "First argument `bar` should appear before `foo`. First arguments should be sorted alphabetically within the f(ile) and d(irectory) sections."
    );
    assert_eq!(
        sort_error_message(&"".to_string(), &"".to_string()),
        "First argument `` should appear before ``. First arguments should be sorted alphabetically within the f(ile) and d(irectory) sections."
    );
}

#[test]
fn a_report_holds_what_it_is_given() {
    let range = Range {
        start: Position { line: 3, character: 1 },
        end: Position { line: 4, character: 0 },
    };
    assert_eq!(
        report(range, "Missing first argument."),
        Diagnostic { range, message: "Missing first argument.".to_string() }
    );
}

#[test]
fn a_diagnostic_is_cloned_field_by_field() {
    let range = Range {
        start: Position { line: 3, character: 1 },
        end: Position { line: 4, character: 0 },
    };
    let first = Diagnostic { range, message: "as it is".to_string() };
    assert_eq!(first.clone(), first);
}

#[test]
fn a_text_that_cannot_be_read_is_reported_at_the_start() {
    let start = Position { line: 0, character: 0 };
    assert_eq!(
        failure(SyntaxError::Grammar),
        Diagnostic {
            range: Range { start, end: start },
            message: "Error loading Bash grammar".to_string()
        }
    );
    assert_eq!(
        failure(SyntaxError::Script),
        Diagnostic {
            range: Range { start, end: start },
            message: "Failed to parse the script".to_string()
        }
    );
}

#[test]
fn rows_become_lines_and_columns_characters() {
    let range = SourceRange {
        start: Point { row: 1, column: 2 },
        end: Point { row: 3, column: 4 },
    };
    assert!(range.check_fits());
    assert_eq!(
        to_lsp(range),
        Range {
            start: Position { line: 1, character: 2 },
            end: Position { line: 3, character: 4 },
        }
    );
}

#[test]
fn the_largest_coordinates_still_fit() {
    let most = u32::MAX as usize;
    let range = SourceRange {
        start: Point { row: 0, column: most },
        end: Point { row: most, column: 0 },
    };
    assert!(range.check_fits());
    assert_eq!(
        to_lsp(range),
        Range {
            start: Position { line: 0, character: u32::MAX },
            end: Position { line: u32::MAX, character: 0 },
        }
    );
}

#[test]
fn a_coordinate_past_32_bits_does_not_fit() {
    if let Some(past) = (u32::MAX as usize).checked_add(1) {
        let at = |row: usize, column: usize| Point { row, column };
        assert!(!SourceRange { start: at(past, 0), end: at(0, 0) }.check_fits());
        assert!(!SourceRange { start: at(0, past), end: at(0, 0) }.check_fits());
        assert!(!SourceRange { start: at(0, 0), end: at(past, 0) }.check_fits());
        assert!(!SourceRange { start: at(0, 0), end: at(0, past) }.check_fits());
    }
}
