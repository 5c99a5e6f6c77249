//! What holds of every script: the rules of the convention, stated over the
//! statements and copy commands that a pass works on.

use vstd::prelude::*;
use crate::command::first_argument_of;
use crate::command::first_non_flag;
use crate::command::is_first_non_flag;
use crate::command::keyword_kind;
use crate::command::lemma_first_non_flag_unique;
use crate::command::record_of;
use crate::command::records_of;
use crate::command::word_token;
use crate::command::CommandKind;
use crate::command::CommandRecordView;
use crate::command::FirstArgumentView;
use crate::command::Statement;
use crate::command::StatementView;
use crate::command::TokenView;
use crate::diagnostic::missing_argument_message;
use crate::diagnostic::non_literal_message;
use crate::diagnostic::outcome_view;
use crate::diagnostic::section_message;
use crate::diagnostic::sort_message;
use crate::diagnostic::Diagnostic;
use crate::diagnostic::DiagnosticView;
use crate::order::lemma_failure_stands;
use crate::order::pair_verdict;
use crate::order::verdict;
use crate::parse::check_statements;
use crate::parse::parse;
use crate::parse::statements_verdict;
use crate::parse::text_verdict;
use crate::range::Range;
use crate::syntax::reading_of;
use crate::text::is_flag;
use crate::text::law_text_order_is_total;
use crate::text::text_le;
use crate::text::text_lt;

verus! {

/// Every pair of neighbours among the first `n` records passes.
pub open spec fn pairs_pass(records: Seq<CommandRecordView>, n: int) -> bool {
    forall|j: int| 0 < j < n ==> (#[trigger] pair_verdict(records[j - 1], records[j])) is Ok
}

/// A pass succeeds exactly when every pair of neighbours passes.
pub proof fn law_pass_iff_every_pair_passes(records: Seq<CommandRecordView>)
    ensures
        verdict(records) is Ok <==> pairs_pass(records, records.len() as int),
    decreases records.len(),
{
    if records.len() >= 2 {
        let earlier = records.drop_last();
        let n = records.len() as int;
        law_pass_iff_every_pair_passes(earlier);
        if verdict(records) is Ok {
            assert forall|j: int| 0 < j < n implies (#[trigger] pair_verdict(
                records[j - 1],
                records[j],
            )) is Ok by {
                if j < n - 1 {
                    assert(pair_verdict(earlier[j - 1], earlier[j]) is Ok);
                }
            }
        }
        if pairs_pass(records, n) {
            assert forall|j: int| 0 < j < n - 1 implies (#[trigger] pair_verdict(
                earlier[j - 1],
                earlier[j],
            )) is Ok by {
                assert(pair_verdict(records[j - 1], records[j]) is Ok);
            }
        }
    }
}

/// A pass that fails reports the first pair of neighbours that does not
/// pass: where every pair before the one at `i` passes and that one fails,
/// its verdict is the verdict of the pass.
pub proof fn law_first_failing_pair_is_reported(records: Seq<CommandRecordView>, i: int)
    requires
        0 < i < records.len(),
        pairs_pass(records, i),
        pair_verdict(records[i - 1], records[i]) is Err,
    ensures
        verdict(records) == pair_verdict(records[i - 1], records[i]),
{
    let before = records.take(i);
    assert(records.take(i + 1).drop_last() =~= before);
    assert forall|j: int| 0 < j < i implies (#[trigger] pair_verdict(
        before[j - 1],
        before[j],
    )) is Ok by {
        assert(pair_verdict(records[j - 1], records[j]) is Ok);
    }
    law_pass_iff_every_pair_passes(before);
    lemma_failure_stands(records, i + 1);
}

/// A pass reports no more than one diagnostic, and none but that of a pair
/// of neighbours: a failure is the verdict on some pair before which every
/// pair passes.
pub proof fn law_failure_comes_from_a_pair(records: Seq<CommandRecordView>) -> (i: int)
    requires
        verdict(records) is Err,
    ensures
        0 < i < records.len(),
        pairs_pass(records, i),
        verdict(records) == pair_verdict(records[i - 1], records[i]),
    decreases records.len(),
{
    let earlier = records.drop_last();
    if verdict(earlier) is Err {
        let i = law_failure_comes_from_a_pair(earlier);
        assert forall|j: int| 0 < j < i implies (#[trigger] pair_verdict(
            records[j - 1],
            records[j],
        )) is Ok by {
            assert(pair_verdict(earlier[j - 1], earlier[j]) is Ok);
        }
        i
    } else {
        let i = records.len() - 1;
        law_pass_iff_every_pair_passes(earlier);
        assert forall|j: int| 0 < j < i implies (#[trigger] pair_verdict(
            records[j - 1],
            records[j],
        )) is Ok by {
            assert(pair_verdict(earlier[j - 1], earlier[j]) is Ok);
        }
        i
    }
}

/// With fewer than two copy commands no pair is formed, and the pass
/// succeeds, whatever the commands hold.
pub proof fn law_fewer_than_two_commands_pass(statements: Seq<StatementView>)
    requires
        records_of(statements).len() < 2,
    ensures
        statements_verdict(statements) == Ok::<(), DiagnosticView>(()),
{
}

/// The literal arguments of the commands at `k - 1` and at `k` do not
/// descend.
pub open spec fn ascends_at(records: Seq<CommandRecordView>, k: int) -> bool {
    text_le(records[k - 1].first_argument->text, records[k].first_argument->text)
}

/// Two commands of one kind with literal arguments `a` and then `b` fail
/// exactly when `b` comes strictly before `a`; the diagnostic then names
/// both and points at `b`.
pub proof fn law_same_kind_pair(prev: CommandRecordView, curr: CommandRecordView)
    requires
        prev.kind == curr.kind,
        prev.first_argument is Literal,
        curr.first_argument is Literal,
    ensures
        verdict(seq![prev, curr]) is Err <==> text_lt(
            curr.first_argument->text,
            prev.first_argument->text,
        ),
        verdict(seq![prev, curr]) is Err ==> verdict(seq![prev, curr]) == Err::<(), DiagnosticView>(
            DiagnosticView {
                range: curr.first_argument->range,
                message: sort_message(prev.first_argument->text, curr.first_argument->text),
            },
        ),
{
    let both = seq![prev, curr];
    assert(verdict(both.drop_last()) is Ok);
    assert(verdict(both) == pair_verdict(prev, curr));
    law_text_order_is_total(prev.first_argument->text, curr.first_argument->text);
}

/// The same of two neighbours anywhere in a script, once every pair before
/// them passes.
pub proof fn law_unsorted_neighbours_are_reported(records: Seq<CommandRecordView>, i: int)
    requires
        0 < i < records.len(),
        pairs_pass(records, i),
        records[i - 1].kind == records[i].kind,
        records[i - 1].first_argument is Literal,
        records[i].first_argument is Literal,
        text_lt(records[i].first_argument->text, records[i - 1].first_argument->text),
    ensures
        verdict(records) == Err::<(), DiagnosticView>(
            DiagnosticView {
                range: records[i].first_argument->range,
                message: sort_message(
                    records[i - 1].first_argument->text,
                    records[i].first_argument->text,
                ),
            },
        ),
{
    law_text_order_is_total(records[i - 1].first_argument->text, records[i].first_argument->text);
    law_first_failing_pair_is_reported(records, i);
}

/// The command at `i` is a file command and the command at `j` a directory
/// command.
pub open spec fn file_then_directory(records: Seq<CommandRecordView>, i: int, j: int) -> bool {
    records[i].kind == CommandKind::File && records[j].kind == CommandKind::Directory
}

/// A directory command anywhere after a file command makes the pass fail.
pub proof fn law_directory_after_file_fails(records: Seq<CommandRecordView>, i: int, j: int)
    requires
        0 <= i < j < records.len(),
        file_then_directory(records, i, j),
    ensures
        verdict(records) is Err,
    decreases j - i,
{
    if records[j - 1].kind == CommandKind::File {
        assert(pair_verdict(records[j - 1], records[j]) is Err);
        law_pass_iff_every_pair_passes(records);
    } else {
        law_directory_after_file_fails(records, i, j - 1);
    }
}

/// Where the first pair that fails steps from a file command to a directory
/// command, both with literal arguments, the diagnostic is the one on the
/// order of the sections and points at the name of the file command of that
/// pair.
pub proof fn law_section_order_is_reported(records: Seq<CommandRecordView>, i: int)
    requires
        0 < i < records.len(),
        pairs_pass(records, i),
        records[i - 1].kind == CommandKind::File,
        records[i].kind == CommandKind::Directory,
        records[i - 1].first_argument is Literal,
        records[i].first_argument is Literal,
    ensures
        verdict(records) == Err::<(), DiagnosticView>(
            DiagnosticView { range: records[i - 1].location, message: section_message() },
        ),
{
    law_first_failing_pair_is_reported(records, i);
}

/// The command at `k` is the first file command: the commands before it are
/// directory commands.
pub open spec fn is_first_file(records: Seq<CommandRecordView>, k: int) -> bool {
    &&& 0 <= k < records.len()
    &&& records[k].kind == CommandKind::File
    &&& forall|j: int| 0 <= j < k ==> (#[trigger] records[j]).kind == CommandKind::Directory
}

/// Where a directory command follows the first file command at once, the
/// pairs before them pass and the arguments of the two are literals, the
/// pass fails with the diagnostic on the order of the sections, and it points
/// at the name of the first file command.
pub proof fn law_directory_after_first_file(records: Seq<CommandRecordView>, first_file: int)
    requires
        is_first_file(records, first_file),
        first_file + 1 < records.len(),
        records[first_file + 1].kind == CommandKind::Directory,
        pairs_pass(records, first_file + 1),
        records[first_file].first_argument is Literal,
        records[first_file + 1].first_argument is Literal,
    ensures
        verdict(records) == Err::<(), DiagnosticView>(
            DiagnosticView { range: records[first_file].location, message: section_message() },
        ),
{
    law_section_order_is_reported(records, first_file + 1);
}

/// The command at `k` has a literal argument, and is a directory command if
/// `k` is below `m` and a file command if not.
pub open spec fn in_section(records: Seq<CommandRecordView>, m: int, k: int) -> bool {
    &&& records[k].first_argument is Literal
    &&& records[k].kind == if k < m {
        CommandKind::Directory
    } else {
        CommandKind::File
    }
}

/// Directory commands may stand before any number of file commands: where
/// the first `m` commands are directory commands and the rest file commands,
/// all with literal arguments that do not descend within either section, the
/// pass succeeds.
pub proof fn law_directories_then_files_pass(records: Seq<CommandRecordView>, m: int)
    requires
        0 <= m <= records.len(),
        forall|k: int| 0 <= k < records.len() ==> #[trigger] in_section(records, m, k),
        forall|k: int| 0 < k < records.len() && k != m ==> #[trigger] ascends_at(records, k),
    ensures
        verdict(records) == Ok::<(), DiagnosticView>(()),
{
    assert forall|j: int| 0 < j < records.len() implies (#[trigger] pair_verdict(
        records[j - 1],
        records[j],
    )) is Ok by {
        assert(in_section(records, m, j - 1));
        assert(in_section(records, m, j));
        if j != m {
            assert(ascends_at(records, j));
        }
    }
    law_pass_iff_every_pair_passes(records);
}

/// The convention: every first argument is a literal, no directory command
/// stands after a file command, and between neighbours of one kind the
/// arguments do not descend.
pub open spec fn conforms(records: Seq<CommandRecordView>) -> bool {
    &&& forall|k: int|
        0 <= k < records.len() ==> (#[trigger] records[k]).first_argument is Literal
    &&& forall|i: int, j: int|
        0 <= i < j < records.len() ==> !#[trigger] file_then_directory(records, i, j)
    &&& forall|k: int|
        0 < k < records.len() && records[k - 1].kind == records[k].kind
            ==> #[trigger] ascends_at(records, k)
}

/// A pass succeeds on exactly the scripts that keep the convention, and on
/// those with fewer than two copy commands.
pub proof fn law_pass_iff_script_conforms(records: Seq<CommandRecordView>)
    ensures
        verdict(records) is Ok <==> records.len() < 2 || conforms(records),
{
    law_pass_iff_every_pair_passes(records);
    if records.len() >= 2 && verdict(records) is Ok {
        assert forall|k: int| 0 <= k < records.len() implies (
        #[trigger] records[k]).first_argument is Literal by {
            let j = if k == 0 {
                1
            } else {
                k
            };
            assert(pair_verdict(records[j - 1], records[j]) is Ok);
        }
        assert forall|i: int, j: int| 0 <= i < j < records.len() implies !#[trigger]
            file_then_directory(records, i, j) by {
            if file_then_directory(records, i, j) {
                law_directory_after_file_fails(records, i, j);
            }
        }
        assert forall|k: int|
            0 < k < records.len() && records[k - 1].kind
                == records[k].kind implies #[trigger] ascends_at(records, k) by {
            assert(pair_verdict(records[k - 1], records[k]) is Ok);
        }
    }
    if records.len() >= 2 && conforms(records) {
        assert forall|j: int| 0 < j < records.len() implies (#[trigger] pair_verdict(
            records[j - 1],
            records[j],
        )) is Ok by {
            assert(records[j - 1].first_argument is Literal);
            assert(records[j].first_argument is Literal);
            assert(!file_then_directory(records, j - 1, j));
            if records[j - 1].kind == records[j].kind {
                assert(ascends_at(records, j));
            }
        }
    }
}

/// The two keywords are the names `d` and `f`, and no other name invokes a
/// copy command.
pub proof fn law_keywords_are_d_and_f(name: Seq<char>)
    ensures
        keyword_kind(name) == Some(CommandKind::Directory) <==> name == seq!['d'],
        keyword_kind(name) == Some(CommandKind::File) <==> name == seq!['f'],
{
    reveal_strlit("d");
    reveal_strlit("f");
    assert("d"@ =~= seq!['d']);
    assert("f"@ =~= seq!['f']);
    assert(seq!['d'][0] != seq!['f'][0]);
}

/// Extraction keeps the document order: the commands of a script in two
/// parts are the commands of the first part and then those of the second.
pub proof fn law_extraction_keeps_document_order(
    first: Seq<StatementView>,
    second: Seq<StatementView>,
)
    ensures
        records_of(first + second) == records_of(first) + records_of(second),
    decreases second.len(),
{
    if second.len() > 0 {
        assert((first + second).drop_last() =~= first + second.drop_last());
        law_extraction_keeps_document_order(first, second.drop_last());
    }
}

/// A statement on its own gives the one command that it is, or none.
pub proof fn law_extraction_of_one_statement(statement: StatementView)
    ensures
        records_of(seq![statement]) == match record_of(statement) {
            Some(record) => seq![record],
            None => Seq::empty(),
        },
{
    assert(records_of(seq![statement].drop_last()) =~= Seq::empty());
}

/// Where some argument among the first `n + 1` is no flag, one of them is
/// the first that is none.
proof fn lemma_some_first_non_flag(arguments: Seq<TokenView>, n: int)
    requires
        0 <= n < arguments.len(),
        !is_flag(arguments[n].text),
    ensures
        exists|i: int| is_first_non_flag(arguments, i),
    decreases n,
{
    if forall|j: int| 0 <= j < n ==> is_flag(#[trigger] arguments[j].text) {
        assert(is_first_non_flag(arguments, n));
    } else {
        let j = choose|j: int| 0 <= j < n && !is_flag(#[trigger] arguments[j].text);
        lemma_some_first_non_flag(arguments, j);
    }
}

/// A copy command is without a first argument exactly when each of its
/// arguments is a flag; the diagnostic it then carries says so and points
/// at the name of the command.
pub proof fn law_only_flags_is_missing(statement: StatementView)
    requires
        record_of(statement) is Some,
    ensures
        record_of(statement)->0.first_argument is Absent <==> forall|k: int|
            0 <= k < statement.arguments.len() ==> is_flag(#[trigger] statement.arguments[k].text),
        record_of(statement)->0.first_argument is Absent ==> record_of(statement)->0.first_argument
            == FirstArgumentView::Absent(
            DiagnosticView { range: statement.name->0.range, message: missing_argument_message() },
        ),
        record_of(statement)->0.location == statement.name->0.range,
{
    let arguments = statement.arguments;
    if first_non_flag(arguments) is None {
        assert forall|k: int| 0 <= k < arguments.len() implies is_flag(
            #[trigger] arguments[k].text,
        ) by {
            if !is_flag(arguments[k].text) {
                lemma_some_first_non_flag(arguments, k);
            }
        }
    } else {
        assert(is_first_non_flag(arguments, first_non_flag(arguments)->0));
    }
}

/// Where the first argument of a copy command that is no flag stands at
/// `i`, the first argument is a literal with that token's text and place if
/// the token is a plain word; if it is not, the first argument is no
/// literal, and the diagnostic it carries says so and points at the token.
pub proof fn law_first_non_flag_decides(statement: StatementView, i: int)
    requires
        record_of(statement) is Some,
        is_first_non_flag(statement.arguments, i),
    ensures
        statement.arguments[i].kind == word_token() ==> record_of(statement)->0.first_argument == (
        FirstArgumentView::Literal {
            text: statement.arguments[i].text,
            range: statement.arguments[i].range,
        }),
        statement.arguments[i].kind != word_token() ==> record_of(statement)->0.first_argument
            == FirstArgumentView::NonLiteral(
            DiagnosticView { range: statement.arguments[i].range, message: non_literal_message() },
        ),
{
    lemma_first_non_flag_unique(
        statement.arguments,
        i,
        choose|k: int| is_first_non_flag(statement.arguments, k),
    );
}

/// A literal first argument is one of the arguments: a plain word that is no
/// flag, with its own text and place. So its text is empty only where a
/// token's is.
pub proof fn law_literal_is_an_argument(location: Range, arguments: Seq<TokenView>) -> (i: int)
    requires
        first_argument_of(location, arguments) is Literal,
    ensures
        is_first_non_flag(arguments, i),
        arguments[i].kind == word_token(),
        first_argument_of(location, arguments)->text == arguments[i].text,
        first_argument_of(location, arguments)->range == arguments[i].range,
{
    first_non_flag(arguments)->0
}

/// An argument that cannot be compared is reported as soon as its command
/// stands in a pair: where the command at `i` is the first whose argument is
/// absent or no literal, there are at least two commands, and every pair
/// before it passes, the pass fails with the diagnostic that the command
/// carries.
pub proof fn law_fault_is_reported(records: Seq<CommandRecordView>, i: int)
    requires
        records.len() >= 2,
        0 <= i < records.len(),
        records[i].first_argument.fault() is Some,
        forall|k: int| 0 <= k < i ==> (#[trigger] records[k]).first_argument is Literal,
        pairs_pass(records, i),
    ensures
        verdict(records) == Err::<(), DiagnosticView>(records[i].first_argument.fault()->0),
{
    if i == 0 {
        law_first_failing_pair_is_reported(records, 1);
    } else {
        assert(records[i - 1].first_argument is Literal);
        law_first_failing_pair_is_reported(records, i);
    }
}

/// Validating the same text twice gives the same result: whatever two calls
/// of `parse` on one text return, the two agree.
pub proof fn law_parse_is_idempotent(
    text: &String,
    first: Result<(), Diagnostic>,
    second: Result<(), Diagnostic>,
)
    requires
        call_ensures(parse, (text,), first),
        call_ensures(parse, (text,), second),
    ensures
        outcome_view(first) == outcome_view(second),
{
}

/// A text with fewer than two copy commands among its statements passes.
pub proof fn law_text_with_fewer_than_two_commands_passes(text: Seq<char>)
    requires
        reading_of(text) matches Ok(statements) && records_of(statements).len() < 2,
    ensures
        text_verdict(text) == Ok::<(), DiagnosticView>(()),
{
}

/// Validating the same statements twice gives the same result: whatever two
/// calls of `check_statements` on one input return, the two agree.
pub proof fn law_validation_is_idempotent(
    statements: &Vec<Statement>,
    first: Result<(), Diagnostic>,
    second: Result<(), Diagnostic>,
)
    requires
        call_ensures(check_statements, (statements,), first),
        call_ensures(check_statements, (statements,), second),
    ensures
        outcome_view(first) == outcome_view(second),
{
}

} // verus!
