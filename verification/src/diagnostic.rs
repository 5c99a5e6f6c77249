//! The one thing a validation pass reports: a place in the document and a
//! sentence about it.

use vstd::prelude::*;
use vstd::string::StringExecFns;
use crate::range::Position;
use crate::range::Range;

verus! {

/// A reported problem: where it is and what it is.
#[derive(Debug, PartialEq, Eq)]
pub struct Diagnostic {
    pub range: Range,
    pub message: String,
}

/// What a `Diagnostic` says, with the message as the characters it holds.
pub struct DiagnosticView {
    pub range: Range,
    pub message: Seq<char>,
}

impl View for Diagnostic {
    type V = DiagnosticView;

    open spec fn view(&self) -> DiagnosticView {
        DiagnosticView { range: self.range, message: self.message@ }
    }
}

impl DeepView for Diagnostic {
    type V = DiagnosticView;

    open spec fn deep_view(&self) -> DiagnosticView {
        self@
    }
}

impl Clone for Diagnostic {
    fn clone(&self) -> (r: Self)
        ensures
            r == *self,
    {
        Diagnostic { range: self.range, message: self.message.clone() }
    }
}

/// What a pass returns, with any diagnostic taken by its view.
pub open spec fn outcome_view(r: Result<(), Diagnostic>) -> Result<(), DiagnosticView> {
    match r {
        Ok(()) => Ok(()),
        Err(d) => Err(d@),
    }
}

/// Said of a copy command with no argument other than flags.
pub const MISSING_ARGUMENT: &'static str = "Missing first argument.";

/// Said of a copy command whose first argument is not a plain word.
pub const NON_LITERAL_ARGUMENT: &'static str = "First argument must be a string literal.";

/// Said of a file command that a directory command follows.
pub const OUT_OF_ORDER_SECTION: &'static str =
    "The first f command should appear after the last d command.";

/// What stands before the later argument in the sentence on two arguments
/// out of order.
pub const UNSORTED_BEFORE_LATER: &'static str = "First argument `";

/// What stands between the later and the earlier argument in that sentence.
pub const UNSORTED_BETWEEN: &'static str = "` should appear before `";

/// What stands after the earlier argument in that sentence.
pub const UNSORTED_AFTER_EARLIER: &'static str =
    "`. First arguments should be sorted alphabetically within the f(ile) and d(irectory) sections.";

/// Said of a copy command with no argument other than flags.
pub open spec fn missing_argument_message() -> Seq<char> {
    MISSING_ARGUMENT@
}

/// Said of a copy command whose first argument is not a plain word.
pub open spec fn non_literal_message() -> Seq<char> {
    NON_LITERAL_ARGUMENT@
}

/// Said of a file command that a directory command follows.
pub open spec fn section_message() -> Seq<char> {
    OUT_OF_ORDER_SECTION@
}

/// Said of two neighbouring commands of one kind whose first arguments,
/// `prev` and then `curr`, are out of order.
pub open spec fn sort_message(prev: Seq<char>, curr: Seq<char>) -> Seq<char> {
    UNSORTED_BEFORE_LATER@ + curr + UNSORTED_BETWEEN@ + prev + UNSORTED_AFTER_EARLIER@
}

/// The start of the document, as an empty range.
pub open spec fn document_start() -> Range {
    Range {
        start: Position { line: 0, character: 0 },
        end: Position { line: 0, character: 0 },
    }
}

/// The diagnostic at `range` that says `message`.
pub fn report(range: Range, message: &str) -> (d: Diagnostic)
    ensures
        d@ == (DiagnosticView { range, message: message@ }),
{
    Diagnostic { range, message: String::from_str(message) }
}

/// The sentence that asks for `curr` to stand before `prev`.
pub fn sort_error_message(prev: &String, curr: &String) -> (message: String)
    ensures
        message@ == sort_message(prev@, curr@),
{
    let mut message = String::from_str(UNSORTED_BEFORE_LATER);
    message.append(curr.as_str());
    message.append(UNSORTED_BETWEEN);
    message.append(prev.as_str());
    message.append(UNSORTED_AFTER_EARLIER);
    message
}

} // verus!
