use crate::report_text::{
    errored_errors, formats_errors_in_order, formatted_texts, join_lines, joined, line_texts,
    piece_views, report_lines, report_pieces, ErrorTextFormatter,
    report_pieces_of, report_text_lines, write_pieces, writes_pieces_in_order, ReportPiece,
    ReportWriter,
};
use crate::service_shutdown_outcome::ServiceShutdownOutcomeWithServiceName;
use vstd::prelude::*;

verus! {

/// The failed outcomes of a shutdown, each with its service's name, as a
/// value that renders the shutdown report.
#[derive(Debug)]
pub struct FailedServiceOutcomes {
    outcomes: Vec<ServiceShutdownOutcomeWithServiceName>,
}

impl View for FailedServiceOutcomes {
    type V = Seq<ServiceShutdownOutcomeWithServiceName>;

    closed spec fn view(&self) -> Seq<ServiceShutdownOutcomeWithServiceName> {
        self.outcomes@
    }
}

impl FailedServiceOutcomes {
    pub fn new(outcomes: Vec<ServiceShutdownOutcomeWithServiceName>) -> (failed: Self)
        ensures
            failed@ == outcomes@,
    {
        Self { outcomes }
    }

    pub fn as_slice(&self) -> (failed: &[ServiceShutdownOutcomeWithServiceName])
        ensures
            failed@ == self@,
    {
        self.outcomes.as_slice()
    }

    /// The lines of the report's text: the header, then one line for each
    /// outcome that is not `Completed`, in order. The errors of errored
    /// services are formatted through `formatter`, in order, until one fails;
    /// the result is `Err` exactly when one failed.
    pub fn display_lines(&self, formatter: &mut ErrorTextFormatter) -> (result: Result<
        Vec<String>,
        core::fmt::Error,
    >)
        ensures
            formats_errors_in_order(
                old(formatter).log(),
                final(formatter).log(),
                errored_errors(self@),
                result is Ok,
            ),
            result matches Ok(lines) ==> line_texts(lines@) == report_text_lines(
                self@,
                formatted_texts(final(formatter).log().skip(old(formatter).log().len() as int)),
            ),
    {
        report_lines(self.outcomes.as_slice(), formatter)
    }

    /// The report's text: its lines, joined; `Err` exactly when formatting an
    /// errored service's error through `formatter` failed.
    pub fn to_display_string(&self, formatter: &mut ErrorTextFormatter) -> (result: Result<
        String,
        core::fmt::Error,
    >)
        ensures
            formats_errors_in_order(
                old(formatter).log(),
                final(formatter).log(),
                errored_errors(self@),
                result is Ok,
            ),
            result matches Ok(text) ==> text@ == joined(
                report_text_lines(
                    self@,
                    formatted_texts(final(formatter).log().skip(old(formatter).log().len() as int)),
                ),
            ),
    {
        match self.display_lines(formatter) {
            Ok(lines) => Ok(join_lines(&lines)),
            Err(error) => Err(error),
        }
    }

    /// The pieces in which `write_to` hands the report's text to a writer.
    pub fn display_pieces(&self) -> (pieces: Vec<ReportPiece<'_>>)
        ensures
            piece_views(pieces@) == report_pieces_of(self@),
    {
        report_pieces(self.outcomes.as_slice())
    }

    /// Writes the report's text to `writer`, piece by piece (`display_pieces`)
    /// as `Display` does: the pieces are handed over in order, one write each,
    /// and writing stops at the first write that fails, whose error is
    /// returned; `Ok` when every write succeeded.
    pub fn write_to<W: core::fmt::Write>(&self, writer: &mut ReportWriter<W>) -> (result: Result<
        (),
        core::fmt::Error,
    >)
        ensures
            writes_pieces_in_order(
                old(writer).log(),
                final(writer).log(),
                report_pieces_of(self@),
                result is Ok,
            ),
    {
        let pieces = self.display_pieces();
        write_pieces(&pieces, writer)
    }
}

} // verus!
