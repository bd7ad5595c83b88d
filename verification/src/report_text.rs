use crate::service_shutdown_outcome::{
    failures_of, lemma_failures_of_take_next, named_is_failure, ServiceShutdownOutcome,
    ServiceShutdownOutcomeWithServiceName,
};
use core::fmt::Write;
use vstd::prelude::*;

verus! {

/// The text that `format!("{:?}", text)` gives for a `str`: the text quoted,
/// with the characters that `str`'s `Debug` escapes escaped.
pub uninterp spec fn debug_quoted_text(text: Seq<char>) -> Seq<char>;

/// Formats a service name with `str`'s `Debug`. The result is named
/// `debug_quoted_text(name@)`: std's `Debug` for `str` depends on the text alone.
#[verifier::external_body]
fn debug_quoted(name: &str) -> (quoted: String)
    ensures
        quoted@ == debug_quoted_text(name@),
{
    format!("{:?}", name)
}

/// The first line of a shutdown report.
pub open spec fn report_header() -> Seq<char> {
    "service shutdown failed:\n"@
}

/// The line about a service that returned an error, given its quoted name and
/// the error's text.
pub open spec fn errored_line_text(quoted_name: Seq<char>, error_text: Seq<char>) -> Seq<char> {
    "  service "@ + quoted_name + " errored: "@ + error_text + "\n"@
}

/// The report line of a failed outcome. `error_text` is the text of the error
/// of an errored service and is not used for the other outcomes.
pub open spec fn failure_line_text(
    named: ServiceShutdownOutcomeWithServiceName,
    error_text: Seq<char>,
) -> Seq<char> {
    let quoted = debug_quoted_text(named.name@);
    match named.outcome {
        ServiceShutdownOutcome::Completed => Seq::empty(),
        ServiceShutdownOutcome::Errored(_) => errored_line_text(quoted, error_text),
        ServiceShutdownOutcome::Panicked(message) => "  service "@ + quoted + " panicked: "@
            + message@ + "\n"@,
        ServiceShutdownOutcome::AbortedByShutdownDeadline => "  service "@ + quoted
            + " aborted after shutdown deadline\n"@,
        ServiceShutdownOutcome::LeakedBeyondShutdownDeadline => "  service "@ + quoted
            + " leaked beyond shutdown deadline\n"@,
    }
}

/// The line about a service that returned an error.
pub fn errored_line(quoted_name: &str, error_text: &str) -> (line: String)
    ensures
        line@ == errored_line_text(quoted_name@, error_text@),
{
    let mut line = "  service ".to_owned();
    line.append(quoted_name);
    line.append(" errored: ");
    line.append(error_text);
    line.append("\n");
    line
}

/// The errors of the errored services among `outcomes`, in order.
pub open spec fn errored_errors(outcomes: Seq<ServiceShutdownOutcomeWithServiceName>) -> Seq<
    anyhow::Error,
>
    decreases outcomes.len(),
{
    if outcomes.len() == 0 {
        Seq::empty()
    } else {
        let rest = errored_errors(outcomes.drop_last());
        match outcomes.last().outcome {
            ServiceShutdownOutcome::Errored(error) => rest.push(error),
            _ => rest,
        }
    }
}

/// The lines of the report on `outcomes`: the header, then one line for each
/// failed outcome, in order; `error_texts[j]` is the text of the `j`-th
/// errored service's error.
pub open spec fn report_text_lines(
    outcomes: Seq<ServiceShutdownOutcomeWithServiceName>,
    error_texts: Seq<Seq<char>>,
) -> Seq<Seq<char>>
    decreases outcomes.len(),
{
    if outcomes.len() == 0 {
        seq![report_header()]
    } else {
        let rest = report_text_lines(outcomes.drop_last(), error_texts);
        let last = outcomes.last();
        if named_is_failure(last) {
            rest.push(
                failure_line_text(last, error_texts[errored_errors(outcomes.drop_last()).len() as int]),
            )
        } else {
            rest
        }
    }
}

/// The line of an outcome other than `Errored` does not depend on any error
/// text.
pub proof fn lemma_failure_line_without_error_text(
    named: ServiceShutdownOutcomeWithServiceName,
    error_text: Seq<char>,
    other_error_text: Seq<char>,
)
    requires
        !(named.outcome is Errored),
    ensures
        failure_line_text(named, error_text) == failure_line_text(named, other_error_text),
{
}

/// The report uses only the texts of the errors that its outcomes hold:
/// texts that agree on those give the same lines.
pub proof fn lemma_report_uses_own_error_texts(
    outcomes: Seq<ServiceShutdownOutcomeWithServiceName>,
    error_texts: Seq<Seq<char>>,
    other_error_texts: Seq<Seq<char>>,
)
    requires
        forall|j: int|
            0 <= j < errored_errors(outcomes).len() ==> #[trigger] error_texts[j]
                == other_error_texts[j],
    ensures
        report_text_lines(outcomes, error_texts) == report_text_lines(outcomes, other_error_texts),
    decreases outcomes.len(),
{
    if outcomes.len() > 0 {
        let rest = outcomes.drop_last();
        let last = outcomes.last();
        let count = errored_errors(rest).len() as int;
        assert forall|j: int| 0 <= j < errored_errors(rest).len() implies #[trigger] error_texts[j]
            == other_error_texts[j] by {
            assert(errored_errors(rest).len() <= errored_errors(outcomes).len());
        }
        lemma_report_uses_own_error_texts(rest, error_texts, other_error_texts);
        if last.outcome is Errored {
            assert(error_texts[count] == other_error_texts[count]);
        } else if named_is_failure(last) {
            lemma_failure_line_without_error_text(last, error_texts[count], other_error_texts[count]);
        }
    }
}

/// The errors of a prefix of the outcomes are a prefix of the errors of all.
pub proof fn lemma_errored_errors_of_prefix(
    outcomes: Seq<ServiceShutdownOutcomeWithServiceName>,
    k: int,
)
    requires
        0 <= k <= outcomes.len(),
    ensures
        errored_errors(outcomes.take(k)).len() <= errored_errors(outcomes).len(),
        forall|j: int|
            0 <= j < errored_errors(outcomes.take(k)).len() ==> #[trigger] errored_errors(
                outcomes.take(k),
            )[j] == errored_errors(outcomes)[j],
    decreases outcomes.len(),
{
    if k == outcomes.len() {
        assert(outcomes.take(k) =~= outcomes);
    } else {
        let rest = outcomes.drop_last();
        assert(outcomes.take(k) =~= rest.take(k));
        lemma_errored_errors_of_prefix(rest, k);
    }
}

/// Outcomes one longer: their errors and report lines extend those of the
/// shorter prefix by the next outcome's.
proof fn lemma_prefix_step(outcomes: Seq<ServiceShutdownOutcomeWithServiceName>, i: int)
    requires
        0 <= i < outcomes.len(),
    ensures
        outcomes.take(i + 1).drop_last() == outcomes.take(i),
        outcomes.take(i + 1).last() == outcomes[i],
{
    assert(outcomes.take(i + 1).drop_last() =~= outcomes.take(i));
}

/// Formats the errors of errored services. It holds the log of every error
/// formatted through it: the error, with its text, or `None` when formatting
/// failed. Only `format_error_chain` adds to the log.
pub struct ErrorTextFormatter {
    log: Ghost<Seq<(anyhow::Error, Option<Seq<char>>)>>,
}

/// The text that a formatting gave, or `None` if it failed.
pub open spec fn formatted(text: Result<String, core::fmt::Error>) -> Option<Seq<char>> {
    match text {
        Ok(text) => Some(text@),
        Err(_) => None,
    }
}

/// The text of a log entry; nothing for a formatting that failed.
pub open spec fn formatted_text(entry: (anyhow::Error, Option<Seq<char>>)) -> Seq<char> {
    match entry.1 {
        Some(text) => text,
        None => Seq::empty(),
    }
}

/// The texts of log entries, in order.
pub open spec fn formatted_texts(entries: Seq<(anyhow::Error, Option<Seq<char>>)>) -> Seq<Seq<char>> {
    entries.map_values(|entry: (anyhow::Error, Option<Seq<char>>)| formatted_text(entry))
}

/// The text of the last log entry.
pub open spec fn last_formatted_text(log: Seq<(anyhow::Error, Option<Seq<char>>)>) -> Seq<char> {
    if log.len() > 0 {
        formatted_text(log.last())
    } else {
        Seq::empty()
    }
}

impl ErrorTextFormatter {
    /// The errors formatted so far, each with its text or `None`.
    pub closed spec fn log(&self) -> Seq<(anyhow::Error, Option<Seq<char>>)> {
        self.log@
    }

    /// A formatter that has formatted nothing yet.
    pub fn new() -> (formatter: Self)
        ensures
            formatter.log() == Seq::<(anyhow::Error, Option<Seq<char>>)>::empty(),
    {
        ErrorTextFormatter { log: Ghost(Seq::empty()) }
    }

    /// Formats `error` with `anyhow::Error`'s alternate `Display` (`{:#}`: the
    /// error's message, then `": "` and the message of each cause) into a new
    /// `String`, and logs the error with the text, or with `None` when a
    /// `Display` in the chain fails. The text depends on `Display` impls of
    /// the error's users, so only the log entry is stated.
    #[verifier::external_body]
    pub fn format_error_chain(&mut self, error: &anyhow::Error) -> (text: Result<
        String,
        core::fmt::Error,
    >)
        ensures
            final(self).log() == old(self).log().push((*error, formatted(text))),
    {
        let mut text = String::new();
        match write!(text, "{:#}", error) {
            Ok(()) => Ok(text),
            Err(error) => Err(error),
        }
    }
}

/// Whether the formattings logged from `before` to `after` format `errors` in
/// order, one each, stopping at the first that fails, with `ok` telling
/// whether every one succeeded: the formatted errors are a prefix of
/// `errors`; every formatting but the last succeeded; and either all errors
/// were formatted (`ok`), or the last formatting failed (`!ok`).
pub open spec fn formats_errors_in_order(
    before: Seq<(anyhow::Error, Option<Seq<char>>)>,
    after: Seq<(anyhow::Error, Option<Seq<char>>)>,
    errors: Seq<anyhow::Error>,
    ok: bool,
) -> bool {
    let made = after.skip(before.len() as int);
    &&& before.len() <= after.len()
    &&& after.take(before.len() as int) == before
    &&& made.len() <= errors.len()
    &&& forall|i: int| 0 <= i < made.len() ==> (#[trigger] made[i]).0 == errors[i]
    &&& forall|i: int| 0 <= i < made.len() - 1 ==> (#[trigger] made[i]).1 is Some
    &&& ok ==> made.len() == errors.len() && forall|i: int|
        0 <= i < made.len() ==> (#[trigger] made[i]).1 is Some
    &&& !ok ==> made.len() > 0 && made[made.len() - 1].1 is None
}

/// The report line for one outcome: `None` for a completed service, the line
/// for any other. For an errored service the error is formatted through
/// `formatter` and its text goes into the line; the line is `Err` exactly when
/// that formatting failed.
pub fn report_line(
    named: &ServiceShutdownOutcomeWithServiceName,
    formatter: &mut ErrorTextFormatter,
) -> (line: Result<Option<String>, core::fmt::Error>)
    ensures
        named.outcome matches ServiceShutdownOutcome::Errored(error) ==> {
            &&& final(formatter).log().drop_last() == old(formatter).log()
            &&& final(formatter).log().len() == old(formatter).log().len() + 1
            &&& final(formatter).log().last().0 == error
            &&& (line is Ok <==> final(formatter).log().last().1 is Some)
        },
        !(named.outcome is Errored) ==> line is Ok && final(formatter).log() == old(formatter).log(),
        (line matches Ok(None)) <==> !named_is_failure(*named),
        line matches Ok(Some(text)) ==> text@ == failure_line_text(
            *named,
            last_formatted_text(final(formatter).log()),
        ),
{
    if named.outcome.is_completed() {
        return Ok(None);
    }
    let quoted = debug_quoted(named.name);
    match &named.outcome {
        ServiceShutdownOutcome::Completed => Ok(None),
        ServiceShutdownOutcome::Errored(service_error) => {
            let formatted_error = formatter.format_error_chain(service_error);
            proof {
                assert(formatter.log().drop_last() =~= old(formatter).log());
            }
            match formatted_error {
                Ok(error_text) => {
                    let line = errored_line(quoted.as_str(), error_text.as_str());
                    Ok(Some(line))
                },
                Err(error) => Err(error),
            }
        },
        ServiceShutdownOutcome::Panicked(panic_message) => {
            let mut line = "  service ".to_owned();
            line.append(quoted.as_str());
            line.append(" panicked: ");
            line.append(panic_message.as_str());
            line.append("\n");
            Ok(Some(line))
        },
        ServiceShutdownOutcome::AbortedByShutdownDeadline => {
            let mut line = "  service ".to_owned();
            line.append(quoted.as_str());
            line.append(" aborted after shutdown deadline\n");
            Ok(Some(line))
        },
        ServiceShutdownOutcome::LeakedBeyondShutdownDeadline => {
            let mut line = "  service ".to_owned();
            line.append(quoted.as_str());
            line.append(" leaked beyond shutdown deadline\n");
            Ok(Some(line))
        },
    }
}

/// The text of each line, in order.
pub open spec fn line_texts(lines: Seq<String>) -> Seq<Seq<char>> {
    lines.map_values(|line: String| line@)
}

/// The lines of the shutdown report on `outcomes`. The errors of the errored
/// services are formatted through `formatter`, in order, until one fails; the
/// result is `Err` exactly when one failed, and otherwise holds the report
/// with each errored service's line carrying its own error's text.
pub fn report_lines(
    outcomes: &[ServiceShutdownOutcomeWithServiceName],
    formatter: &mut ErrorTextFormatter,
) -> (result: Result<Vec<String>, core::fmt::Error>)
    ensures
        formats_errors_in_order(
            old(formatter).log(),
            final(formatter).log(),
            errored_errors(outcomes@),
            result is Ok,
        ),
        result matches Ok(lines) ==> line_texts(lines@) == report_text_lines(
            outcomes@,
            formatted_texts(final(formatter).log().skip(old(formatter).log().len() as int)),
        ),
{
    let ghost start = formatter.log();
    let mut lines: Vec<String> = Vec::new();
    lines.push("service shutdown failed:\n".to_owned());
    proof {
        assert(outcomes@.take(0) =~= Seq::<ServiceShutdownOutcomeWithServiceName>::empty());
        assert(formatter.log().skip(start.len() as int) =~= Seq::<
            (anyhow::Error, Option<Seq<char>>),
        >::empty());
        assert(formatter.log().take(start.len() as int) =~= start);
        assert(line_texts(lines@) =~= report_text_lines(
            outcomes@.take(0),
            formatted_texts(formatter.log().skip(start.len() as int)),
        ));
    }
    let n: usize = outcomes.len();
    for i in 0..n
        invariant
            n == outcomes@.len(),
            start == old(formatter).log(),
            start.len() <= formatter.log().len(),
            formatter.log().take(start.len() as int) == start,
            formatter.log().skip(start.len() as int).len() == errored_errors(
                outcomes@.take(i as int),
            ).len(),
            forall|j: int|
                0 <= j < formatter.log().skip(start.len() as int).len() ==> (#[trigger] formatter.log().skip(
                    start.len() as int,
                )[j]).0 == errored_errors(outcomes@.take(i as int))[j] && formatter.log().skip(
                    start.len() as int,
                )[j].1 is Some,
            line_texts(lines@) == report_text_lines(
                outcomes@.take(i as int),
                formatted_texts(formatter.log().skip(start.len() as int)),
            ),
    {
        let ghost made = formatter.log().skip(start.len() as int);
        let ghost texts = formatted_texts(made);
        let ghost old_lines = line_texts(lines@);
        let ghost log_before = formatter.log();
        proof {
            lemma_prefix_step(outcomes@, i as int);
            lemma_errored_errors_of_prefix(outcomes@, i + 1);
        }
        let line = report_line(&outcomes[i], formatter);
        let ghost new_made = formatter.log().skip(start.len() as int);
        let ghost named = outcomes@[i as int];
        proof {
            if named.outcome is Errored {
                assert(new_made =~= made.push(formatter.log().last()));
                assert(formatter.log().take(start.len() as int) =~= start);
            } else {
                assert(new_made =~= made);
            }
        }
        match line {
            Ok(Some(text)) => {
                lines.push(text);
                proof {
                    let count = errored_errors(outcomes@.take(i as int)).len() as int;
                    let new_texts = formatted_texts(new_made);
                    assert(line_texts(lines@) =~= old_lines.push(text@));
                    lemma_report_uses_own_error_texts(outcomes@.take(i as int), texts, new_texts);
                    if named.outcome is Errored {
                        assert(new_texts[count] == last_formatted_text(formatter.log()));
                    } else {
                        lemma_failure_line_without_error_text(
                            named,
                            new_texts[count],
                            last_formatted_text(formatter.log()),
                        );
                    }
                    assert forall|j: int| 0 <= j < new_made.len() implies (#[trigger] new_made[j]).0
                        == errored_errors(outcomes@.take(i + 1))[j] && new_made[j].1 is Some by {
                        if j < made.len() {
                            assert(new_made[j] == made[j]);
                        }
                    }
                }
            },
            Ok(None) => {
                proof {
                    assert(new_made =~= made);
                }
            },
            Err(error) => {
                proof {
                    let errors = errored_errors(outcomes@);
                    assert forall|j: int| 0 <= j < new_made.len() implies (#[trigger] new_made[j]).0
                        == errors[j] by {
                        assert(errored_errors(outcomes@.take(i + 1))[j] == errors[j]);
                        if j < made.len() {
                            assert(new_made[j] == made[j]);
                        }
                    }
                    assert forall|j: int| 0 <= j < new_made.len() - 1 implies (#[trigger] new_made[j]).1
                        is Some by {
                        assert(new_made[j] == made[j]);
                    }
                }
                return Err(error);
            },
        }
    }
    proof {
        assert(outcomes@.take(n as int) =~= outcomes@);
    }
    Ok(lines)
}

/// The lines joined into one text.
pub open spec fn joined(lines: Seq<Seq<char>>) -> Seq<char>
    decreases lines.len(),
{
    if lines.len() == 0 {
        Seq::empty()
    } else {
        joined(lines.drop_last()) + lines.last()
    }
}

/// The lines of a report, joined.
pub fn join_lines(lines: &Vec<String>) -> (text: String)
    ensures
        text@ == joined(line_texts(lines@)),
{
    let mut text = String::new();
    let n: usize = lines.len();
    for i in 0..n
        invariant
            n == lines@.len(),
            text@ == joined(line_texts(lines@.take(i as int))),
    {
        proof {
            let before = line_texts(lines@.take(i as int));
            let after = line_texts(lines@.take(i + 1));
            assert(after.drop_last() =~= before);
        }
        text.append(lines[i].as_str());
    }
    proof {
        assert(lines@.take(n as int) =~= lines@);
    }
    text
}

/// The formatter's error.
#[verifier::external_type_specification]
#[verifier::external_body]
pub struct ExFmtError(core::fmt::Error);

/// One piece of the report, as it is handed to a writer: literal text (one
/// `write_str`), a service name (written with `Debug`) or a service error
/// (written with alternate `Display`).
#[derive(Debug, Clone, Copy)]
pub enum ReportPiece<'a> {
    Text(&'a str),
    QuotedName(&'a str),
    ErrorChain(&'a anyhow::Error),
}

/// What a report piece holds.
pub enum ReportPieceView {
    Text(Seq<char>),
    QuotedName(Seq<char>),
    ErrorChain(anyhow::Error),
}

impl<'a> View for ReportPiece<'a> {
    type V = ReportPieceView;

    open spec fn view(&self) -> ReportPieceView {
        match *self {
            ReportPiece::Text(text) => ReportPieceView::Text(text@),
            ReportPiece::QuotedName(name) => ReportPieceView::QuotedName(name@),
            ReportPiece::ErrorChain(error) => ReportPieceView::ErrorChain(*error),
        }
    }
}

/// The pieces of the report line of one outcome; none for a completed service.
pub open spec fn failure_pieces(named: ServiceShutdownOutcomeWithServiceName) -> Seq<ReportPieceView> {
    let start = ReportPieceView::Text("  service "@);
    let name = ReportPieceView::QuotedName(named.name@);
    match named.outcome {
        ServiceShutdownOutcome::Completed => Seq::empty(),
        ServiceShutdownOutcome::Errored(error) => seq![
            start,
            name,
            ReportPieceView::Text(" errored: "@),
            ReportPieceView::ErrorChain(error),
            ReportPieceView::Text("\n"@),
        ],
        ServiceShutdownOutcome::Panicked(message) => seq![
            start,
            name,
            ReportPieceView::Text(" panicked: "@),
            ReportPieceView::Text(message@),
            ReportPieceView::Text("\n"@),
        ],
        ServiceShutdownOutcome::AbortedByShutdownDeadline => seq![
            start,
            name,
            ReportPieceView::Text(" aborted after shutdown deadline\n"@),
        ],
        ServiceShutdownOutcome::LeakedBeyondShutdownDeadline => seq![
            start,
            name,
            ReportPieceView::Text(" leaked beyond shutdown deadline\n"@),
        ],
    }
}

/// The pieces of the report on `outcomes`: the header, then the pieces of
/// each outcome's line, in order.
pub open spec fn report_pieces_of(outcomes: Seq<ServiceShutdownOutcomeWithServiceName>) -> Seq<
    ReportPieceView,
>
    decreases outcomes.len(),
{
    if outcomes.len() == 0 {
        seq![ReportPieceView::Text(report_header())]
    } else {
        report_pieces_of(outcomes.drop_last()) + failure_pieces(outcomes.last())
    }
}

/// What the pieces of a report hold, in order.
pub open spec fn piece_views<'a>(pieces: Seq<ReportPiece<'a>>) -> Seq<ReportPieceView> {
    pieces.map_values(|piece: ReportPiece<'a>| piece@)
}

/// The pieces in which the report on `outcomes` is handed to a writer.
pub fn report_pieces<'a>(outcomes: &'a [ServiceShutdownOutcomeWithServiceName]) -> (pieces: Vec<
    ReportPiece<'a>,
>)
    ensures
        piece_views(pieces@) == report_pieces_of(outcomes@),
{
    let mut pieces: Vec<ReportPiece<'a>> = Vec::new();
    pieces.push(ReportPiece::Text("service shutdown failed:\n"));
    proof {
        assert(outcomes@.take(0) =~= Seq::<ServiceShutdownOutcomeWithServiceName>::empty());
        assert(piece_views(pieces@) =~= report_pieces_of(outcomes@.take(0)));
    }
    let n: usize = outcomes.len();
    for i in 0..n
        invariant
            n == outcomes@.len(),
            piece_views(pieces@) == report_pieces_of(outcomes@.take(i as int)),
    {
        let ghost before = piece_views(pieces@);
        let named = &outcomes[i];
        match &named.outcome {
            ServiceShutdownOutcome::Completed => {},
            ServiceShutdownOutcome::Errored(service_error) => {
                pieces.push(ReportPiece::Text("  service "));
                pieces.push(ReportPiece::QuotedName(named.name));
                pieces.push(ReportPiece::Text(" errored: "));
                pieces.push(ReportPiece::ErrorChain(service_error));
                pieces.push(ReportPiece::Text("\n"));
            },
            ServiceShutdownOutcome::Panicked(panic_message) => {
                pieces.push(ReportPiece::Text("  service "));
                pieces.push(ReportPiece::QuotedName(named.name));
                pieces.push(ReportPiece::Text(" panicked: "));
                pieces.push(ReportPiece::Text(panic_message.as_str()));
                pieces.push(ReportPiece::Text("\n"));
            },
            ServiceShutdownOutcome::AbortedByShutdownDeadline => {
                pieces.push(ReportPiece::Text("  service "));
                pieces.push(ReportPiece::QuotedName(named.name));
                pieces.push(ReportPiece::Text(" aborted after shutdown deadline\n"));
            },
            ServiceShutdownOutcome::LeakedBeyondShutdownDeadline => {
                pieces.push(ReportPiece::Text("  service "));
                pieces.push(ReportPiece::QuotedName(named.name));
                pieces.push(ReportPiece::Text(" leaked beyond shutdown deadline\n"));
            },
        }
        proof {
            assert(outcomes@.take(i + 1).drop_last() =~= outcomes@.take(i as int));
            assert(outcomes@.take(i + 1).last() == outcomes@[i as int]);
            assert(piece_views(pieces@) =~= before + failure_pieces(outcomes@[i as int]));
        }
    }
    proof {
        assert(outcomes@.take(n as int) =~= outcomes@);
    }
    pieces
}

/// The text that a piece puts into the report; `error_text` is what the
/// error's alternate `Display` writes.
pub open spec fn piece_text(piece: ReportPieceView, error_text: Seq<char>) -> Seq<char> {
    match piece {
        ReportPieceView::Text(text) => text,
        ReportPieceView::QuotedName(name) => debug_quoted_text(name),
        ReportPieceView::ErrorChain(_) => error_text,
    }
}

/// How many of the pieces are errors.
pub open spec fn error_piece_count(pieces: Seq<ReportPieceView>) -> nat
    decreases pieces.len(),
{
    if pieces.len() == 0 {
        0
    } else {
        error_piece_count(pieces.drop_last()) + if pieces.last() is ErrorChain {
            1nat
        } else {
            0nat
        }
    }
}

/// The text that pieces put into the report, one after the other; the `j`-th
/// error piece puts in `error_texts[first + j]`.
pub open spec fn pieces_text(
    pieces: Seq<ReportPieceView>,
    error_texts: Seq<Seq<char>>,
    first: int,
) -> Seq<char>
    decreases pieces.len(),
{
    if pieces.len() == 0 {
        Seq::empty()
    } else {
        let before = pieces.drop_last();
        pieces_text(before, error_texts, first) + piece_text(
            pieces.last(),
            error_texts[first + error_piece_count(before)],
        )
    }
}

/// Pieces one after the other spell their texts one after the other.
pub proof fn lemma_pieces_text_of_concat(
    pieces: Seq<ReportPieceView>,
    more: Seq<ReportPieceView>,
    error_texts: Seq<Seq<char>>,
    first: int,
)
    ensures
        error_piece_count(pieces + more) == error_piece_count(pieces) + error_piece_count(more),
        pieces_text(pieces + more, error_texts, first) == pieces_text(pieces, error_texts, first)
            + pieces_text(more, error_texts, first + error_piece_count(pieces)),
    decreases more.len(),
{
    if more.len() == 0 {
        assert(pieces + more =~= pieces);
    } else {
        let all = pieces + more;
        assert(all.drop_last() =~= pieces + more.drop_last());
        assert(all.last() == more.last());
        lemma_pieces_text_of_concat(pieces, more.drop_last(), error_texts, first);
    }
}

/// The pieces that are written for a failed outcome spell its report line,
/// with the text of its error, if it has one, in its error piece.
pub proof fn lemma_failure_pieces_spell_line(
    named: ServiceShutdownOutcomeWithServiceName,
    error_texts: Seq<Seq<char>>,
    first: int,
)
    requires
        named_is_failure(named),
    ensures
        pieces_text(failure_pieces(named), error_texts, first) == failure_line_text(
            named,
            error_texts[first],
        ),
        error_piece_count(failure_pieces(named)) == if named.outcome is Errored {
            1nat
        } else {
            0nat
        },
{
    reveal_with_fuel(pieces_text, 6);
    reveal_with_fuel(error_piece_count, 6);
    let pieces = failure_pieces(named);
    match named.outcome {
        ServiceShutdownOutcome::Errored(_) => {
            assert(pieces.drop_last().drop_last().drop_last().drop_last().drop_last().len() == 0);
        },
        ServiceShutdownOutcome::Panicked(_) => {
            assert(pieces.drop_last().drop_last().drop_last().drop_last().drop_last().len() == 0);
        },
        _ => {
            assert(pieces.drop_last().drop_last().drop_last().len() == 0);
        },
    }
    assert(pieces_text(pieces, error_texts, first) =~= failure_line_text(named, error_texts[first]));
}

/// The pieces that `write_to` hands to a writer spell the whole report that
/// `to_display_string` gives, when each error piece is written as the text of
/// its error: the two ways of producing the report agree.
pub proof fn lemma_report_pieces_spell_report(
    outcomes: Seq<ServiceShutdownOutcomeWithServiceName>,
    error_texts: Seq<Seq<char>>,
)
    ensures
        pieces_text(report_pieces_of(outcomes), error_texts, 0) == joined(
            report_text_lines(outcomes, error_texts),
        ),
        error_piece_count(report_pieces_of(outcomes)) == errored_errors(outcomes).len(),
    decreases outcomes.len(),
{
    if outcomes.len() == 0 {
        reveal_with_fuel(pieces_text, 2);
        reveal_with_fuel(error_piece_count, 2);
        reveal_with_fuel(joined, 2);
        let header_pieces = report_pieces_of(outcomes);
        assert(header_pieces.drop_last().len() == 0);
        let lines = report_text_lines(outcomes, error_texts);
        assert(lines.drop_last().len() == 0);
        assert(pieces_text(header_pieces, error_texts, 0) =~= report_header());
        assert(joined(lines) =~= report_header());
    } else {
        let rest = outcomes.drop_last();
        let last = outcomes.last();
        lemma_report_pieces_spell_report(rest, error_texts);
        let count = errored_errors(rest).len() as int;
        lemma_pieces_text_of_concat(report_pieces_of(rest), failure_pieces(last), error_texts, 0);
        if named_is_failure(last) {
            lemma_failure_pieces_spell_line(last, error_texts, count);
            let lines = report_text_lines(outcomes, error_texts);
            assert(lines.drop_last() == report_text_lines(rest, error_texts));
        } else {
            assert(failure_pieces(last) =~= Seq::<ReportPieceView>::empty());
        }
    }
}

/// Without errored services, the report's text is fixed by the outcomes
/// alone: two reports on the same outcomes, of either report type, have the
/// same lines.
pub proof fn lemma_report_without_errors_is_fixed(
    outcomes: Seq<ServiceShutdownOutcomeWithServiceName>,
    error_texts: Seq<Seq<char>>,
    other_error_texts: Seq<Seq<char>>,
)
    requires
        errored_errors(outcomes).len() == 0,
    ensures
        report_text_lines(outcomes, error_texts) == report_text_lines(outcomes, other_error_texts),
{
    lemma_report_uses_own_error_texts(outcomes, error_texts, other_error_texts);
}

/// What follows a write: go on with the next piece, or stop with the write's
/// error.
#[derive(Debug)]
pub enum WriteStep {
    Continue,
    Stop(core::fmt::Error),
}

/// The step after a write: a write that succeeded lets the report go on; a
/// write that failed stops it, and its error is what the report returns.
pub fn after_write(result: Result<(), core::fmt::Error>) -> (step: WriteStep)
    ensures
        result is Ok ==> step is Continue,
        result matches Err(error) ==> step == WriteStep::Stop(error),
{
    match result {
        Ok(()) => WriteStep::Continue,
        Err(error) => WriteStep::Stop(error),
    }
}

/// A writer that the report is handed to, with the log of the writes made
/// through it: for each write, the piece it wrote and whether the writer
/// accepted it. Only its write methods add to the log.
pub struct ReportWriter<'a, W> {
    writer: &'a mut W,
    log: Ghost<Seq<(ReportPieceView, bool)>>,
}

impl<'a, W> ReportWriter<'a, W> {
    /// The writes made so far: each piece, and whether the writer accepted it.
    pub closed spec fn log(&self) -> Seq<(ReportPieceView, bool)> {
        self.log@
    }

    /// Takes `writer`; no write has been made through it yet.
    pub fn new(writer: &'a mut W) -> (report_writer: Self)
        ensures
            report_writer.log() == Seq::<(ReportPieceView, bool)>::empty(),
    {
        ReportWriter { writer, log: Ghost(Seq::empty()) }
    }
}

impl<'a, W: core::fmt::Write> ReportWriter<'a, W> {
    /// Hands `text` to the writer's `write_str`, and logs the piece with
    /// whether it returned `Ok`. What it returns is up to the writer.
    #[verifier::external_body]
    pub fn write_text(&mut self, text: &str) -> (result: Result<(), core::fmt::Error>)
        ensures
            final(self).log() == old(self).log().push((ReportPieceView::Text(text@), result is Ok)),
    {
        self.writer.write_str(text)
    }

    /// Writes a service name with `str`'s `Debug` (`{:?}`) through the
    /// writer's `write_fmt`, and logs the piece with whether it returned `Ok`.
    /// What it returns is up to the writer.
    #[verifier::external_body]
    pub fn write_quoted_name(&mut self, name: &str) -> (result: Result<(), core::fmt::Error>)
        ensures
            final(self).log() == old(self).log().push(
                (ReportPieceView::QuotedName(name@), result is Ok),
            ),
    {
        write!(self.writer, "{:?}", name)
    }

    /// Writes a service error with `anyhow::Error`'s alternate `Display`
    /// (`{:#}`: the error's message, then `": "` and the message of each cause)
    /// through the writer's `write_fmt`, and logs the piece with whether it
    /// returned `Ok`. It returns `Err` when the writer or a `Display` in the
    /// chain fails, which nothing here can tell apart.
    #[verifier::external_body]
    pub fn write_error_chain(&mut self, error: &anyhow::Error) -> (result: Result<
        (),
        core::fmt::Error,
    >)
        ensures
            final(self).log() == old(self).log().push(
                (ReportPieceView::ErrorChain(*error), result is Ok),
            ),
    {
        write!(self.writer, "{:#}", error)
    }

    /// Hands one piece to the writer in the way that its kind asks for.
    pub fn write_piece(&mut self, piece: ReportPiece) -> (result: Result<(), core::fmt::Error>)
        ensures
            final(self).log() == old(self).log().push((piece@, result is Ok)),
    {
        match piece {
            ReportPiece::Text(text) => self.write_text(text),
            ReportPiece::QuotedName(name) => self.write_quoted_name(name),
            ReportPiece::ErrorChain(error) => self.write_error_chain(error),
        }
    }
}

/// Whether the writes logged from `before` to `after` hand `pieces` over in
/// order, one write each, stopping at the first write that the writer did not
/// accept, with `ok` telling whether every piece was accepted: the writes
/// are a prefix of the pieces; every write but the last was accepted; and
/// either all pieces were written and accepted (`ok`), or the last write was
/// refused (`!ok`).
pub open spec fn writes_pieces_in_order(
    before: Seq<(ReportPieceView, bool)>,
    after: Seq<(ReportPieceView, bool)>,
    pieces: Seq<ReportPieceView>,
    ok: bool,
) -> bool {
    let written = after.skip(before.len() as int);
    &&& before.len() <= after.len()
    &&& after.take(before.len() as int) == before
    &&& written.len() <= pieces.len()
    &&& forall|i: int| 0 <= i < written.len() ==> (#[trigger] written[i]).0 == pieces[i]
    &&& forall|i: int| 0 <= i < written.len() - 1 ==> (#[trigger] written[i]).1
    &&& ok ==> written.len() == pieces.len() && forall|i: int|
        0 <= i < written.len() ==> (#[trigger] written[i]).1
    &&& !ok ==> written.len() > 0 && !written[written.len() - 1].1
}

/// Hands the pieces to the writer in order and stops at the first write that
/// fails, returning its error (see `after_write`); `Ok` when every write
/// succeeded.
pub fn write_pieces<W: core::fmt::Write>(
    pieces: &Vec<ReportPiece>,
    writer: &mut ReportWriter<W>,
) -> (result: Result<(), core::fmt::Error>)
    ensures
        writes_pieces_in_order(old(writer).log(), final(writer).log(), piece_views(pieces@), result is Ok),
{
    let ghost before = writer.log();
    let n: usize = pieces.len();
    for i in 0..n
        invariant
            n == pieces@.len(),
            before == old(writer).log(),
            writer.log().len() == before.len() + i,
            writer.log().take(before.len() as int) == before,
            forall|j: int| 0 <= j < i ==> (#[trigger] writer.log()[before.len() + j]).0 == piece_views(pieces@)[j]
                && writer.log()[before.len() + j].1,
    {
        let ghost log_before = writer.log();
        let result = writer.write_piece(pieces[i]);
        proof {
            assert(writer.log().take(before.len() as int) =~= before);
            assert(writer.log()[before.len() + i as int] == (pieces@[i as int]@, result is Ok));
            assert forall|j: int| 0 <= j < i implies (#[trigger] writer.log()[before.len() + j]).0
                == piece_views(pieces@)[j] && writer.log()[before.len() + j].1 by {
                assert(writer.log()[before.len() + j] == log_before[before.len() + j]);
            }
        }
        match after_write(result) {
            WriteStep::Continue => {},
            WriteStep::Stop(error) => {
                proof {
                    let written = writer.log().skip(before.len() as int);
                    assert(written.len() == i + 1);
                    assert(written[i as int] == writer.log()[before.len() + i as int]);
                    assert(!(result is Ok));
                    assert(!written[written.len() - 1].1);
                    assert forall|j: int| 0 <= j < written.len() implies (#[trigger] written[j]).0
                        == piece_views(pieces@)[j] by {
                        assert(written[j] == writer.log()[before.len() + j]);
                    }
                    assert forall|j: int| 0 <= j < written.len() - 1 implies (#[trigger] written[j]).1 by {
                        assert(written[j] == writer.log()[before.len() + j]);
                    }
                }
                return Err(error);
            },
        }
    }
    proof {
        let written = writer.log().skip(before.len() as int);
        assert forall|j: int| 0 <= j < written.len() implies (#[trigger] written[j]).0
            == piece_views(pieces@)[j] && written[j].1 by {
            assert(written[j] == writer.log()[before.len() + j]);
        }
    }
    Ok(())
}

/// The writer's answers decide the result: two writings of the same pieces
/// whose writes were answered alike end alike. So both report types, which
/// hand over the same pieces for the same outcomes, return the same result
/// from a writer that answers them alike.
pub proof fn lemma_write_result_follows_answers(
    before: Seq<(ReportPieceView, bool)>,
    after: Seq<(ReportPieceView, bool)>,
    other_before: Seq<(ReportPieceView, bool)>,
    other_after: Seq<(ReportPieceView, bool)>,
    pieces: Seq<ReportPieceView>,
    ok: bool,
    other_ok: bool,
)
    requires
        writes_pieces_in_order(before, after, pieces, ok),
        writes_pieces_in_order(other_before, other_after, pieces, other_ok),
        after.skip(before.len() as int) == other_after.skip(other_before.len() as int),
    ensures
        ok == other_ok,
{
}

} // verus!
