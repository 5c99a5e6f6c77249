//! The entry point: from the text of a script to success or one diagnostic.

use vstd::prelude::*;
use crate::command::extract_commands;
use crate::command::records_of;
use crate::command::Statement;
use crate::command::StatementView;
use crate::diagnostic::document_start;
use crate::diagnostic::outcome_view;
use crate::diagnostic::report;
pub use crate::diagnostic::sort_error_message;
pub use crate::diagnostic::Diagnostic;
use crate::diagnostic::DiagnosticView;
use crate::order::validate;
use crate::order::verdict;
pub use crate::range::to_lsp;
use crate::range::Position;
use crate::range::Range;
use crate::syntax::read_statements;
use crate::syntax::reading_of;
use crate::syntax::SyntaxError;

verus! {

/// What a pass over the top-level statements of a script returns: the
/// verdict on the copy commands among them.
pub open spec fn statements_verdict(statements: Seq<StatementView>) -> Result<(), DiagnosticView> {
    verdict(records_of(statements))
}

/// Validates the top-level statements of a script, given in document order.
pub fn check_statements(statements: &Vec<Statement>) -> (r: Result<(), Diagnostic>)
    ensures
        outcome_view(r) == statements_verdict(statements.deep_view()),
{
    let records = extract_commands(statements);
    validate(&records)
}

/// Said where the parser did not take the grammar.
pub const GRAMMAR_FAILURE: &'static str = "Error loading Bash grammar";

/// Said where the parser gave no tree that fits the text.
pub const SCRIPT_FAILURE: &'static str = "Failed to parse the script";

/// Said where the parser did not take the grammar.
pub open spec fn grammar_message() -> Seq<char> {
    GRAMMAR_FAILURE@
}

/// Said where the parser gave no tree that fits the text.
pub open spec fn script_message() -> Seq<char> {
    SCRIPT_FAILURE@
}

/// The diagnostic that stands for a text that could not be read: it points
/// at the start of the document.
pub open spec fn failure_view(error: SyntaxError) -> DiagnosticView {
    DiagnosticView {
        range: document_start(),
        message: match error {
            SyntaxError::Grammar => grammar_message(),
            SyntaxError::Script => script_message(),
        },
    }
}

/// Reports a text that could not be read.
pub fn failure(error: SyntaxError) -> (d: Diagnostic)
    ensures
        d@ == failure_view(error),
{
    let start = Position { line: 0, character: 0 };
    let range = Range { start, end: start };
    match error {
        SyntaxError::Grammar => report(range, GRAMMAR_FAILURE),
        SyntaxError::Script => report(range, SCRIPT_FAILURE),
    }
}

/// What a pass returns once the text has been read, or could not be.
pub open spec fn reading_verdict(reading: Result<Seq<StatementView>, SyntaxError>) -> Result<
    (),
    DiagnosticView,
> {
    match reading {
        Ok(statements) => statements_verdict(statements),
        Err(error) => Err(failure_view(error)),
    }
}

/// What a pass over the text of a script returns: the verdict on what
/// reading the text comes to.
pub open spec fn text_verdict(text: Seq<char>) -> Result<(), DiagnosticView> {
    reading_verdict(reading_of(text))
}

/// Validates the text of a script: parses it as Bash, reads the top-level
/// statements and judges the copy commands among them. A text that cannot be
/// read is reported at its start.
pub fn parse(text: &String) -> (r: Result<(), Diagnostic>)
    ensures
        outcome_view(r) == text_verdict(text@),
{
    match read_statements(text.as_str()) {
        Ok(statements) => check_statements(&statements),
        Err(error) => Err(failure(error)),
    }
}

} // verus!
