use std::fmt;

use trzcina::report_text::after_write;
use trzcina::report_text::errored_line;
use trzcina::report_text::ErrorTextFormatter;
use trzcina::report_text::ReportWriter;
use trzcina::report_text::WriteStep;
use trzcina::FailedServiceOutcomes;
use trzcina::ServiceShutdownError;
use trzcina::ServiceShutdownOutcome;
use trzcina::ServiceShutdownOutcomeWithServiceName;

struct AlwaysFailingWriter;

impl fmt::Write for AlwaysFailingWriter {
    fn write_str(&mut self, _written: &str) -> fmt::Result {
        Err(fmt::Error)
    }
}

struct WriterThatFailsOnSecondWrite {
    has_been_called: bool,
}

impl fmt::Write for WriterThatFailsOnSecondWrite {
    fn write_str(&mut self, _written: &str) -> fmt::Result {
        if self.has_been_called {
            return Err(fmt::Error);
        }

        self.has_been_called = true;

        Ok(())
    }
}

struct WriterThatFailsAfterFirstLine {
    saw_newline: bool,
}

impl fmt::Write for WriterThatFailsAfterFirstLine {
    fn write_str(&mut self, written: &str) -> fmt::Result {
        if self.saw_newline {
            return Err(fmt::Error);
        }

        if written.contains('\n') {
            self.saw_newline = true;
        }

        Ok(())
    }
}

fn all_variants() -> Vec<ServiceShutdownOutcomeWithServiceName> {
    vec![
        ServiceShutdownOutcomeWithServiceName {
            name: "completed_service",
            outcome: ServiceShutdownOutcome::Completed,
        },
        ServiceShutdownOutcomeWithServiceName {
            name: "errored_service",
            outcome: ServiceShutdownOutcome::Errored(anyhow::Error::msg("service failed")),
        },
        ServiceShutdownOutcomeWithServiceName {
            name: "panicked_service",
            outcome: ServiceShutdownOutcome::Panicked("service panicked".to_owned()),
        },
        ServiceShutdownOutcomeWithServiceName {
            name: "aborted_service",
            outcome: ServiceShutdownOutcome::AbortedByShutdownDeadline,
        },
        ServiceShutdownOutcomeWithServiceName {
            name: "leaked_service",
            outcome: ServiceShutdownOutcome::LeakedBeyondShutdownDeadline,
        },
    ]
}

#[test]
fn display_formats_all_failure_variants() {
    let outcomes = all_variants();

    let error = ServiceShutdownError::new(outcomes);
    let formatted = error.to_display_string(&mut ErrorTextFormatter::new()).unwrap();

    assert!(!formatted.is_empty());
    assert_eq!(error.failed_outcomes().len(), 5);
}

#[test]
fn service_shutdown_error_display_propagates_writer_error_from_header_line() {
    let shutdown_error = ServiceShutdownError::new(vec![ServiceShutdownOutcomeWithServiceName {
        name: "test_service",
        outcome: ServiceShutdownOutcome::AbortedByShutdownDeadline,
    }]);

    let mut writer = AlwaysFailingWriter;
    let write_result = shutdown_error.write_to(&mut ReportWriter::new(&mut writer));

    assert!(write_result.is_err());
}

#[test]
fn service_shutdown_error_display_propagates_writer_error_from_outcome_line() {
    let shutdown_error = ServiceShutdownError::new(vec![ServiceShutdownOutcomeWithServiceName {
        name: "test_service",
        outcome: ServiceShutdownOutcome::AbortedByShutdownDeadline,
    }]);

    let mut writer = WriterThatFailsOnSecondWrite {
        has_been_called: false,
    };
    let write_result = shutdown_error.write_to(&mut ReportWriter::new(&mut writer));

    assert!(write_result.is_err());
}

#[test]
fn service_shutdown_error_display_propagates_header_writer_error_display_propagates_writer_error_from_header_line(
) {
    let shutdown_error = ServiceShutdownError::new(vec![ServiceShutdownOutcomeWithServiceName {
        name: "test_service",
        outcome: ServiceShutdownOutcome::AbortedByShutdownDeadline,
    }]);

    let mut writer = AlwaysFailingWriter;
    let write_result = shutdown_error.write_to(&mut ReportWriter::new(&mut writer));

    assert!(write_result.is_err());
}

#[test]
fn service_shutdown_error_display_propagates_outcome_writer_error_display_propagates_writer_error_from_outcome_line(
) {
    let shutdown_error = ServiceShutdownError::new(vec![ServiceShutdownOutcomeWithServiceName {
        name: "test_service",
        outcome: ServiceShutdownOutcome::AbortedByShutdownDeadline,
    }]);

    let mut writer = WriterThatFailsAfterFirstLine { saw_newline: false };
    let write_result = shutdown_error.write_to(&mut ReportWriter::new(&mut writer));

    assert!(write_result.is_err());
}

#[test]
fn display_text_lists_each_failure_on_its_own_line() {
    let error = ServiceShutdownError::new(all_variants());
    assert_eq!(
        error.to_display_string(&mut ErrorTextFormatter::new()).unwrap(),
        "service shutdown failed:\n\
         \x20 service \"errored_service\" errored: service failed\n\
         \x20 service \"panicked_service\" panicked: service panicked\n\
         \x20 service \"aborted_service\" aborted after shutdown deadline\n\
         \x20 service \"leaked_service\" leaked beyond shutdown deadline\n"
    );
    assert_eq!(error.display_lines(&mut ErrorTextFormatter::new()).unwrap().len(), 5);
}

#[test]
fn display_text_of_error_chain_joins_causes() {
    let error = ServiceShutdownError::new(vec![ServiceShutdownOutcomeWithServiceName {
        name: "db",
        outcome: ServiceShutdownOutcome::Errored(
            anyhow::Error::msg("connection refused").context("connecting to database"),
        ),
    }]);
    assert_eq!(
        error.to_display_string(&mut ErrorTextFormatter::new()).unwrap(),
        "service shutdown failed:\n  service \"db\" errored: connecting to database: connection refused\n"
    );
}

#[test]
fn display_quotes_and_escapes_service_name() {
    let error = ServiceShutdownError::new(vec![ServiceShutdownOutcomeWithServiceName {
        name: "odd \"name\"",
        outcome: ServiceShutdownOutcome::AbortedByShutdownDeadline,
    }]);
    assert_eq!(
        error.display_lines(&mut ErrorTextFormatter::new()).unwrap()[1],
        "  service \"odd \\\"name\\\"\" aborted after shutdown deadline\n"
    );
}

#[test]
fn display_of_only_completed_outcomes_is_header_alone() {
    let error = ServiceShutdownError::new(vec![ServiceShutdownOutcomeWithServiceName {
        name: "fine",
        outcome: ServiceShutdownOutcome::Completed,
    }]);
    assert_eq!(error.to_display_string(&mut ErrorTextFormatter::new()).unwrap(), "service shutdown failed:\n");
}

#[test]
fn write_to_writes_every_line_in_order() {
    let error = ServiceShutdownError::new(all_variants());
    let mut written = String::new();
    error.write_to(&mut ReportWriter::new(&mut written)).unwrap();
    assert_eq!(written, error.to_display_string(&mut ErrorTextFormatter::new()).unwrap());
}

#[test]
fn failed_service_outcomes_render_the_same_report() {
    let failed = FailedServiceOutcomes::new(all_variants());
    let error = ServiceShutdownError::new(all_variants());
    assert_eq!(failed.as_slice().len(), 5);
    assert_eq!(failed.to_display_string(&mut ErrorTextFormatter::new()).unwrap(), error.to_display_string(&mut ErrorTextFormatter::new()).unwrap());
    let mut writer = AlwaysFailingWriter;
    assert!(failed.write_to(&mut ReportWriter::new(&mut writer)).is_err());
}

#[derive(Debug)]
struct UnprintableError;

impl fmt::Display for UnprintableError {
    fn fmt(&self, _formatter: &mut fmt::Formatter<'_>) -> fmt::Result {
        Err(fmt::Error)
    }
}

impl std::error::Error for UnprintableError {}

struct WriterThatFailsOnThirdWrite {
    calls: usize,
}

impl fmt::Write for WriterThatFailsOnThirdWrite {
    fn write_str(&mut self, _written: &str) -> fmt::Result {
        self.calls += 1;
        if self.calls == 3 {
            return Err(fmt::Error);
        }
        Ok(())
    }
}

#[test]
fn error_whose_display_fails_gives_err_not_panic() {
    let error = ServiceShutdownError::new(vec![ServiceShutdownOutcomeWithServiceName {
        name: "broken",
        outcome: ServiceShutdownOutcome::Errored(anyhow::Error::new(UnprintableError)),
    }]);
    assert!(error.to_display_string(&mut ErrorTextFormatter::new()).is_err());
    assert!(error.display_lines(&mut ErrorTextFormatter::new()).is_err());
    let mut written = String::new();
    assert!(error.write_to(&mut ReportWriter::new(&mut written)).is_err());
}

#[test]
fn writer_failing_on_the_quoted_name_gets_err() {
    let error = ServiceShutdownError::new(vec![ServiceShutdownOutcomeWithServiceName {
        name: "test_service",
        outcome: ServiceShutdownOutcome::AbortedByShutdownDeadline,
    }]);
    let mut writer = WriterThatFailsOnThirdWrite { calls: 0 };
    assert!(error.write_to(&mut ReportWriter::new(&mut writer)).is_err());
    assert_eq!(writer.calls, 3);
}

#[test]
fn errored_line_holds_name_and_error_text() {
    assert_eq!(
        errored_line("\"db\"", "connection refused"),
        "  service \"db\" errored: connection refused\n"
    );
}

#[test]
fn after_write_continues_on_ok_and_stops_on_err() {
    assert!(matches!(after_write(Ok(())), WriteStep::Continue));
    assert!(matches!(after_write(Err(fmt::Error)), WriteStep::Stop(fmt::Error)));
}

#[test]
fn display_pieces_follow_the_report() {
    let error = ServiceShutdownError::new(all_variants());
    let failed = FailedServiceOutcomes::new(all_variants());
    assert_eq!(error.display_pieces().len(), 1 + 5 + 5 + 3 + 3);
    assert_eq!(failed.display_pieces().len(), error.display_pieces().len());
}
