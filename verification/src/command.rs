//! The command extractor: from the top-level statements of a script to the
//! copy commands among them, each with its kind and its first argument.

use vstd::prelude::*;
use vstd::string::StringExecFns;
use crate::diagnostic::missing_argument_message;
use crate::diagnostic::non_literal_message;
use crate::diagnostic::report;
use crate::diagnostic::Diagnostic;
use crate::diagnostic::DiagnosticView;
use crate::diagnostic::MISSING_ARGUMENT;
use crate::diagnostic::NON_LITERAL_ARGUMENT;
use crate::range::Range;
use crate::text::is_excerpt;
use crate::text::is_flag;
use crate::text::starts_with_dash;
use crate::yield_self::YieldSelf;

verus! {

/// One token of a statement: the kind the grammar gives it, the text it
/// covers and where that text stands.
#[derive(Clone, Debug, PartialEq, Eq)]
pub struct Token {
    pub kind: String,
    pub text: String,
    pub range: Range,
}

/// A `Token` as plain values.
pub struct TokenView {
    pub kind: Seq<char>,
    pub text: Seq<char>,
    pub range: Range,
}

impl TokenView {
    /// The token's text is cut out of `script`.
    pub open spec fn within(self, script: Seq<char>) -> bool {
        is_excerpt(self.text, script)
    }
}

impl View for Token {
    type V = TokenView;

    open spec fn view(&self) -> TokenView {
        TokenView { kind: self.kind@, text: self.text@, range: self.range }
    }
}

impl DeepView for Token {
    type V = TokenView;

    open spec fn deep_view(&self) -> TokenView {
        self@
    }
}

/// One top-level statement of a script: the kind the grammar gives it, its
/// name token where it has one, and its argument tokens in order.
#[derive(Clone, Debug, PartialEq, Eq)]
pub struct Statement {
    pub kind: String,
    pub name: Option<Token>,
    pub arguments: Vec<Token>,
}

/// A `Statement` as plain values.
pub struct StatementView {
    pub kind: Seq<char>,
    pub name: Option<TokenView>,
    pub arguments: Seq<TokenView>,
}

impl StatementView {
    /// The text of every token of the statement is cut out of `script`.
    pub open spec fn within(self, script: Seq<char>) -> bool {
        &&& self.name matches Some(name) ==> name.within(script)
        &&& forall|i: int|
            0 <= i < self.arguments.len() ==> (#[trigger] self.arguments[i]).within(script)
    }
}

impl View for Statement {
    type V = StatementView;

    open spec fn view(&self) -> StatementView {
        StatementView {
            kind: self.kind@,
            name: self.name.deep_view(),
            arguments: self.arguments.deep_view(),
        }
    }
}

impl DeepView for Statement {
    type V = StatementView;

    open spec fn deep_view(&self) -> StatementView {
        self@
    }
}

/// Which of the two copy commands an invocation is.
#[derive(Clone, Copy, Debug, PartialEq, Eq, Structural)]
pub enum CommandKind {
    /// `d`: copy a directory.
    Directory,
    /// `f`: copy a file.
    File,
}

/// What the search for a command's first argument that is no flag came to.
#[derive(Clone, Debug, PartialEq, Eq)]
pub enum FirstArgument {
    /// No argument but flags. The diagnostic points at the command's name.
    Absent(Diagnostic),
    /// An argument that is not a plain word. The diagnostic points at it.
    NonLiteral(Diagnostic),
    /// A plain word: its text, by which commands are sorted, and its place.
    Literal { text: String, range: Range },
}

/// A `FirstArgument` as plain values.
pub enum FirstArgumentView {
    Absent(DiagnosticView),
    NonLiteral(DiagnosticView),
    Literal { text: Seq<char>, range: Range },
}

impl View for FirstArgument {
    type V = FirstArgumentView;

    open spec fn view(&self) -> FirstArgumentView {
        match *self {
            FirstArgument::Absent(d) => FirstArgumentView::Absent(d@),
            FirstArgument::NonLiteral(d) => FirstArgumentView::NonLiteral(d@),
            FirstArgument::Literal { text, range } => FirstArgumentView::Literal {
                text: text@,
                range,
            },
        }
    }
}

impl FirstArgumentView {
    /// The diagnostic that stands in the way of comparing this argument, if
    /// there is one.
    pub open spec fn fault(self) -> Option<DiagnosticView> {
        match self {
            FirstArgumentView::Absent(d) => Some(d),
            FirstArgumentView::NonLiteral(d) => Some(d),
            FirstArgumentView::Literal { .. } => None,
        }
    }
}

/// One copy command: where its name stands, which of the two it is, and its
/// first argument.
#[derive(Clone, Debug, PartialEq, Eq)]
pub struct CommandRecord {
    pub location: Range,
    pub kind: CommandKind,
    pub first_argument: FirstArgument,
}

/// A `CommandRecord` as plain values.
pub struct CommandRecordView {
    pub location: Range,
    pub kind: CommandKind,
    pub first_argument: FirstArgumentView,
}

impl View for CommandRecord {
    type V = CommandRecordView;

    open spec fn view(&self) -> CommandRecordView {
        CommandRecordView {
            location: self.location,
            kind: self.kind,
            first_argument: self.first_argument@,
        }
    }
}

impl DeepView for CommandRecord {
    type V = CommandRecordView;

    open spec fn deep_view(&self) -> CommandRecordView {
        self@
    }
}

/// The name of the command that copies a directory.
pub const DIR_COMMAND: &'static str = "d";

/// The name of the command that copies a file.
pub const FILE_COMMAND: &'static str = "f";

/// The kind of statement that invokes a command, as the grammar names it.
pub const COMMAND_STATEMENT: &'static str = "command";

/// The kind of token that is a plain word, as the grammar names it.
pub const WORD_TOKEN: &'static str = "word";

/// The kind of statement that invokes a command.
pub open spec fn command_statement() -> Seq<char> {
    COMMAND_STATEMENT@
}

/// The kind of token that is a plain word.
pub open spec fn word_token() -> Seq<char> {
    WORD_TOKEN@
}

/// The copy command that `name` invokes: `d` for a directory, `f` for a file,
/// and none for any other name.
pub open spec fn keyword_kind(name: Seq<char>) -> Option<CommandKind> {
    if name == DIR_COMMAND@ {
        Some(CommandKind::Directory)
    } else if name == FILE_COMMAND@ {
        Some(CommandKind::File)
    } else {
        None
    }
}

/// Decides `keyword_kind`.
pub fn command_kind(name: &String) -> (kind: Option<CommandKind>)
    ensures
        kind == keyword_kind(name@),
{
    if *name == String::from_str(DIR_COMMAND) {
        Some(CommandKind::Directory)
    } else if *name == String::from_str(FILE_COMMAND) {
        Some(CommandKind::File)
    } else {
        None
    }
}

/// `i` is the place of the first argument that is no flag.
pub open spec fn is_first_non_flag(arguments: Seq<TokenView>, i: int) -> bool {
    &&& 0 <= i < arguments.len()
    &&& !is_flag(arguments[i].text)
    &&& forall|j: int| 0 <= j < i ==> is_flag(#[trigger] arguments[j].text)
}

/// The place of the first argument that is no flag, if there is one.
pub open spec fn first_non_flag(arguments: Seq<TokenView>) -> Option<int> {
    if exists|i: int| is_first_non_flag(arguments, i) {
        Some(choose|i: int| is_first_non_flag(arguments, i))
    } else {
        None
    }
}

/// There is at most one first argument that is no flag.
pub proof fn lemma_first_non_flag_unique(arguments: Seq<TokenView>, i: int, k: int)
    requires
        is_first_non_flag(arguments, i),
        is_first_non_flag(arguments, k),
    ensures
        i == k,
{
}

/// The first argument of a command whose name stands at `location` and whose
/// arguments are `arguments`: absent where all are flags, else the first that
/// is no flag, taken as a literal where it is a plain word.
pub open spec fn first_argument_of(location: Range, arguments: Seq<TokenView>) -> FirstArgumentView {
    match first_non_flag(arguments) {
        None => FirstArgumentView::Absent(
            DiagnosticView { range: location, message: missing_argument_message() },
        ),
        Some(i) => if arguments[i].kind == word_token() {
            FirstArgumentView::Literal { text: arguments[i].text, range: arguments[i].range }
        } else {
            FirstArgumentView::NonLiteral(
                DiagnosticView { range: arguments[i].range, message: non_literal_message() },
            )
        },
    }
}

/// Finds and classifies the first argument that is no flag.
pub fn first_argument(location: Range, arguments: &Vec<Token>) -> (found: FirstArgument)
    ensures
        found@ == first_argument_of(location, arguments.deep_view()),
{
    let ghost args = arguments.deep_view();
    let mut i: usize = 0;
    while i < arguments.len()
        invariant
            i <= arguments.len(),
            args == arguments.deep_view(),
            forall|j: int| 0 <= j < i ==> is_flag(#[trigger] args[j].text),
        decreases arguments.len() - i,
    {
        let argument = &arguments[i];
        let no_flag = |text: &&str| -> (plain: bool)
            ensures plain != is_flag(text@)
        {
            !starts_with_dash(*text)
        };
        let plain = argument.text.as_str().yield_self(no_flag);
        if plain {
            proof {
                lemma_first_non_flag_unique(
                    args,
                    i as int,
                    choose|k: int| is_first_non_flag(args, k),
                );
            }
            if argument.kind == String::from_str(WORD_TOKEN) {
                return FirstArgument::Literal { text: argument.text.clone(), range: argument.range };
            } else {
                return FirstArgument::NonLiteral(
                    report(argument.range, NON_LITERAL_ARGUMENT),
                );
            }
        }
        i = i + 1;
    }
    assert(forall|k: int| !is_first_non_flag(args, k));
    FirstArgument::Absent(report(location, MISSING_ARGUMENT))
}

/// The copy command that `statement` is, if it is one: a command statement
/// whose name is one of the two keywords.
pub open spec fn record_of(statement: StatementView) -> Option<CommandRecordView> {
    if statement.kind == command_statement() {
        match statement.name {
            Some(name) => match keyword_kind(name.text) {
                Some(kind) => Some(
                    CommandRecordView {
                        location: name.range,
                        kind,
                        first_argument: first_argument_of(name.range, statement.arguments),
                    },
                ),
                None => None,
            },
            None => None,
        }
    } else {
        None
    }
}

/// Reads `statement` as a copy command, if it is one.
pub fn command_record(statement: &Statement) -> (record: Option<CommandRecord>)
    ensures
        record.deep_view() == record_of(statement@),
{
    if statement.kind == String::from_str(COMMAND_STATEMENT) {
        match &statement.name {
            Some(name) => match command_kind(&name.text) {
                Some(kind) => Some(
                    CommandRecord {
                        location: name.range,
                        kind,
                        first_argument: first_argument(name.range, &statement.arguments),
                    },
                ),
                None => None,
            },
            None => None,
        }
    } else {
        None
    }
}

/// The copy commands among `statements`, in the order of the statements.
pub open spec fn records_of(statements: Seq<StatementView>) -> Seq<CommandRecordView>
    decreases statements.len(),
{
    if statements.len() == 0 {
        Seq::empty()
    } else {
        let earlier = records_of(statements.drop_last());
        match record_of(statements.last()) {
            Some(record) => earlier.push(record),
            None => earlier,
        }
    }
}

/// Extracts the copy commands from the top-level statements of a script.
pub fn extract_commands(statements: &Vec<Statement>) -> (records: Vec<CommandRecord>)
    ensures
        records.deep_view() == records_of(statements.deep_view()),
{
    let ghost all = statements.deep_view();
    let mut records: Vec<CommandRecord> = Vec::new();
    let mut i: usize = 0;
    while i < statements.len()
        invariant
            i <= statements.len(),
            all == statements.deep_view(),
            records.deep_view() == records_of(all.take(i as int)),
        decreases statements.len() - i,
    {
        assert(all.take(i + 1).drop_last() =~= all.take(i as int));
        if let Some(record) = command_record(&statements[i]) {
            records.push(record);
        }
        i = i + 1;
    }
    assert(all.take(i as int) =~= all);
    records
}

} // verus!
