//! The order validator: walks the copy commands of a script pair by pair and
//! stops at the first pair that breaks a rule.

use vstd::prelude::*;
use vstd::std_specs::iter::IteratorSpec;
use crate::command::CommandKind;
use crate::command::CommandRecord;
use crate::command::CommandRecordView;
use crate::command::FirstArgument;
use crate::diagnostic::outcome_view;
use crate::diagnostic::report;
use crate::diagnostic::section_message;
use crate::diagnostic::sort_error_message;
use crate::diagnostic::sort_message;
use crate::diagnostic::Diagnostic;
use crate::diagnostic::DiagnosticView;
use crate::diagnostic::OUT_OF_ORDER_SECTION;
use crate::text::sorts_before_or_at;
use crate::text::text_le;
use crate::with_prev::law_pairs_are_neighbours;
use crate::with_prev::runs_over;
use crate::with_prev::taken_after;
use crate::with_prev::IteratorWithPrev;

verus! {

/// What the rules say of two neighbouring copy commands, `prev` and then
/// `curr`.
///
/// A first argument that cannot be compared is reported, that of `prev`
/// before that of `curr`. Between commands of different kinds only the step
/// from a file command to a directory command is an error, reported at the
/// file command. Between commands of one kind the arguments must not
/// descend; where they do, the later argument is reported.
pub open spec fn pair_verdict(prev: CommandRecordView, curr: CommandRecordView) -> Result<
    (),
    DiagnosticView,
> {
    if let Some(d) = prev.first_argument.fault() {
        Err(d)
    } else if let Some(d) = curr.first_argument.fault() {
        Err(d)
    } else if prev.kind != curr.kind {
        if prev.kind == CommandKind::File {
            Err(DiagnosticView { range: prev.location, message: section_message() })
        } else {
            Ok(())
        }
    } else if text_le(prev.first_argument->text, curr.first_argument->text) {
        Ok(())
    } else {
        Err(
            DiagnosticView {
                range: curr.first_argument->range,
                message: sort_message(prev.first_argument->text, curr.first_argument->text),
            },
        )
    }
}

/// What a pass over `records` returns: the verdict on the first pair of
/// neighbours that breaks a rule, and success where no pair does. Fewer than
/// two records form no pair.
pub open spec fn verdict(records: Seq<CommandRecordView>) -> Result<(), DiagnosticView>
    decreases records.len(),
{
    if records.len() < 2 {
        Ok(())
    } else {
        match verdict(records.drop_last()) {
            Err(d) => Err(d),
            Ok(()) => pair_verdict(records[records.len() - 2], records[records.len() - 1]),
        }
    }
}

/// A failure among the first `n` records is the failure of the whole pass.
pub proof fn lemma_failure_stands(records: Seq<CommandRecordView>, n: int)
    requires
        0 <= n <= records.len(),
        verdict(records.take(n)) is Err,
    ensures
        verdict(records) == verdict(records.take(n)),
    decreases records.len() - n,
{
    if n < records.len() {
        assert(records.take(n + 1).drop_last() =~= records.take(n));
        lemma_failure_stands(records, n + 1);
    } else {
        assert(records.take(n) =~= records);
    }
}

/// Judges one pair of neighbouring copy commands.
pub fn check_pair(prev: &CommandRecord, curr: &CommandRecord) -> (r: Result<(), Diagnostic>)
    ensures
        outcome_view(r) == pair_verdict(prev@, curr@),
{
    let prev_text = match &prev.first_argument {
        FirstArgument::Absent(d) => {
            return Err(d.clone());
        },
        FirstArgument::NonLiteral(d) => {
            return Err(d.clone());
        },
        FirstArgument::Literal { text, .. } => text,
    };
    let (curr_text, curr_range) = match &curr.first_argument {
        FirstArgument::Absent(d) => {
            return Err(d.clone());
        },
        FirstArgument::NonLiteral(d) => {
            return Err(d.clone());
        },
        FirstArgument::Literal { text, range } => (text, *range),
    };
    if prev.kind != curr.kind {
        return match prev.kind {
            CommandKind::File => Err(report(prev.location, OUT_OF_ORDER_SECTION)),
            CommandKind::Directory => Ok(()),
        };
    }
    if sorts_before_or_at(prev_text.as_str(), curr_text.as_str()) {
        Ok(())
    } else {
        Err(Diagnostic { range: curr_range, message: sort_error_message(prev_text, curr_text) })
    }
}

/// Validates the copy commands of a script, given in document order: success,
/// or the diagnostic of the first pair of neighbours that breaks a rule.
pub fn validate(records: &Vec<CommandRecord>) -> (r: Result<(), Diagnostic>)
    ensures
        outcome_view(r) == verdict(records.deep_view()),
{
    let ghost all = records.deep_view();
    let ghost items = records@.as_ref();
    let mut pairs = records.iter().with_prev();
    let ghost mut seen: int = 0;
    assert(items.skip(0) =~= items);
    loop
        invariant
            all == records.deep_view(),
            items == records@.as_ref(),
            pairs.inner().obeys_prophetic_iter_laws(),
            runs_over(items, seen, pairs.inner().remaining(), pairs.held()),
            verdict(all.take(seen)) is Ok,
        decreases items.len() - seen,
    {
        let ghost before = pairs;
        let found = pairs.next();
        proof {
            law_pairs_are_neighbours(
                items,
                seen,
                before.inner().remaining(),
                before.held(),
                found,
                pairs.inner().remaining(),
                pairs.held(),
            );
            seen = taken_after(items.len(), seen, before.held(), found);
        }
        match found {
            None => {
                assert(all.take(seen) =~= all);
                return Ok(());
            },
            Some((prev, curr)) => {
                assert(verdict(all.take(seen - 1)) is Ok);
                assert(all.take(seen).drop_last() =~= all.take(seen - 1));
                match check_pair(prev, curr) {
                    Ok(()) => {},
                    Err(d) => {
                        proof {
                            lemma_failure_stands(all, seen);
                        }
                        return Err(d);
                    },
                }
            },
        }
    }
}

} // verus!
