use copy_order::diagnostic::Diagnostic;
use copy_order::parse::parse;
use copy_order::range::Position;
use copy_order::range::Range;

fn span(line: u32, from: u32, to: u32) -> Range {
    Range {
        start: Position { line, character: from },
        end: Position { line, character: to },
    }
}

fn check(script: &str) -> Result<(), Diagnostic> {
    parse(&script.to_string())
}

const SECTION: &str = "The first f command should appear after the last d command.";
const MISSING: &str = "Missing first argument.";
const NOT_LITERAL: &str = "First argument must be a string literal.";

fn unsorted(later: &str, earlier: &str) -> String {
    format!(
        "First argument `{}` should appear before `{}`. First arguments should be sorted alphabetically within the f(ile) and d(irectory) sections.",
        later, earlier
    )
}

#[test]
fn unsorted_directories_are_reported_at_the_later_argument() {
    let found = check("d foo; d bar").unwrap_err();
    assert_eq!(found.message, unsorted("bar", "foo"));
    assert_eq!(found.range, span(0, 9, 12));
}

#[test]
fn sorted_sections_in_order_pass() {
    assert_eq!(check("d bar; d foo; f alpha; f beta"), Ok(()));
}

#[test]
fn file_before_directory_is_reported_at_the_file_command() {
    let found = check("f alpha; d bar").unwrap_err();
    assert_eq!(found.message, SECTION);
    assert_eq!(found.range, span(0, 0, 1));
}

#[test]
fn flags_alone_leave_the_first_argument_missing() {
    let found = check("d -x; d foo").unwrap_err();
    assert_eq!(found.message, MISSING);
    assert_eq!(found.range, span(0, 0, 1));
}

#[test]
fn a_missing_argument_of_the_later_command_is_reported_at_its_name() {
    let found = check("d foo\nd -r --all\n").unwrap_err();
    assert_eq!(found.message, MISSING);
    assert_eq!(found.range, span(1, 0, 1));
}

#[test]
fn an_expansion_is_no_literal() {
    let found = check("d \"$VAR\"; d foo").unwrap_err();
    assert_eq!(found.message, NOT_LITERAL);
    assert_eq!(found.range, span(0, 2, 8));
}

#[test]
fn a_bare_expansion_is_no_literal() {
    let found = check("f a\nf -v $HOME\n").unwrap_err();
    assert_eq!(found.message, NOT_LITERAL);
    assert_eq!(found.range, span(1, 5, 10));
}

#[test]
fn other_commands_are_ignored() {
    assert_eq!(check("echo hi; d foo"), Ok(()));
    assert_eq!(check("d a\necho zzz\nls -la\nd b\n"), Ok(()));
}

#[test]
fn other_commands_do_not_part_a_pair() {
    let found = check("d b\necho between\nd a\n").unwrap_err();
    assert_eq!(found.message, unsorted("a", "b"));
    assert_eq!(found.range, span(2, 2, 3));
}

#[test]
fn a_single_command_forms_no_pair() {
    assert_eq!(check("d -x"), Ok(()));
    assert_eq!(check("d \"$VAR\""), Ok(()));
    assert_eq!(check("f only"), Ok(()));
}

#[test]
fn an_empty_script_passes() {
    assert_eq!(check(""), Ok(()));
    assert_eq!(check("\n\n"), Ok(()));
    assert_eq!(check("# nothing to copy\n"), Ok(()));
}

#[test]
fn lines_are_counted_from_zero() {
    let found = check("d b\nd a\n").unwrap_err();
    assert_eq!(found.range, span(1, 2, 3));
}

#[test]
fn flags_are_passed_over_by_position() {
    assert_eq!(check("d -r alpha\nd --force -p beta\n"), Ok(()));
    let found = check("d -r beta\nd --force -p alpha\n").unwrap_err();
    assert_eq!(found.message, unsorted("alpha", "beta"));
    assert_eq!(found.range, span(1, 13, 18));
}

#[test]
fn equal_arguments_pass() {
    assert_eq!(check("d same; d same; f same; f same"), Ok(()));
}

#[test]
fn order_is_by_bytes() {
    assert_eq!(check("d B; d a"), Ok(()));
    let found = check("d a; d B").unwrap_err();
    assert_eq!(found.message, unsorted("B", "a"));
    assert_eq!(check("d a; d ab"), Ok(()));
    let found = check("d ab; d a").unwrap_err();
    assert_eq!(found.message, unsorted("a", "ab"));
}

#[test]
fn each_section_is_sorted_on_its_own() {
    assert_eq!(check("d y; d z; f a; f b"), Ok(()));
}

#[test]
fn the_first_failing_pair_is_the_one_reported() {
    let found = check("d b; d a; f x; d c").unwrap_err();
    assert_eq!(found.message, unsorted("a", "b"));
    assert_eq!(found.range, span(0, 7, 8));
}

#[test]
fn the_section_report_points_at_the_file_command_before_the_directory() {
    let found = check("f a\nf b\nd c\n").unwrap_err();
    assert_eq!(found.message, SECTION);
    assert_eq!(found.range, span(1, 0, 1));
}

#[test]
fn a_directory_after_a_later_file_is_reported_once() {
    let found = check("d a\nf b\nd c\nf d\nd e\n").unwrap_err();
    assert_eq!(found.message, SECTION);
    assert_eq!(found.range, span(1, 0, 1));
}

#[test]
fn a_fault_is_reported_before_the_kinds_are_looked_at() {
    let found = check("f a; d -x").unwrap_err();
    assert_eq!(found.message, MISSING);
    assert_eq!(found.range, span(0, 5, 6));
}

#[test]
fn the_fault_of_the_earlier_command_comes_first() {
    let found = check("d $A; d -x").unwrap_err();
    assert_eq!(found.message, NOT_LITERAL);
    assert_eq!(found.range, span(0, 2, 4));
}

#[test]
fn names_must_match_exactly() {
    assert_eq!(check("dd b; dd a"), Ok(()));
    assert_eq!(check("./d b; ./d a"), Ok(()));
    assert_eq!(check("D b; D a; F b; F a"), Ok(()));
}

#[test]
fn only_top_level_commands_count() {
    assert_eq!(check("if true; then d b; d a; fi"), Ok(()));
    assert_eq!(check("d b && d a"), Ok(()));
}

#[test]
fn validating_twice_gives_the_same_result() {
    let script = "d foo; d bar".to_string();
    assert_eq!(parse(&script), parse(&script));
    let script = "d bar; d foo; f alpha; f beta".to_string();
    assert_eq!(parse(&script), parse(&script));
}

#[test]
fn text_beyond_ascii_is_read_whole() {
    let found = check("d \u{e9}t\u{e9}; d abc").unwrap_err();
    assert_eq!(found.message, unsorted("abc", "\u{e9}t\u{e9}"));
}

#[test]
fn odd_scripts_are_still_read() {
    let scripts = [
        "d a\r\nd b\r\n",
        "\td a\n\td b\n",
        "d a <<EOF\nbody\nEOF\nd b\n",
        "d 'unterminated\nd b\n",
        "d \"unterminated\n",
        "d a; d b; (((\n",
        "if d a; then\n",
        "d \u{1f600}; d \u{1f601}\n",
        "d a\u{0}b; d b\n",
        "d $(f x) ; f `d y`\n",
        "   \n#!/bin/bash\n# d z\n# d a\n",
        "function d { f a; }; d b; d a\n",
        "d=1; f=2; echo $d $f\n",
        "d a > out; d b 2>&1\n",
    ];
    for script in scripts {
        let found = check(script);
        if let Err(diagnostic) = &found {
            assert_ne!(diagnostic.message, "Failed to parse the script", "{:?}", script);
            assert_ne!(diagnostic.message, "Error loading Bash grammar", "{:?}", script);
        }
        assert_eq!(check(script), found, "{:?}", script);
    }
}

#[test]
fn a_long_script_is_judged_to_its_end() {
    let mut script = String::new();
    for n in 0..2000 {
        script.push_str(&format!("d dir{:05} --flag\n", n));
    }
    for n in 0..2000 {
        script.push_str(&format!("f -v file{:05}\n", n));
    }
    assert_eq!(check(&script), Ok(()));
    script.push_str("f file00000\n");
    let found = check(&script).unwrap_err();
    assert_eq!(found.message, unsorted("file00000", "file01999"));
    assert_eq!(found.range, span(4000, 2, 11));
}
