use tokio::sync::oneshot;

use trzcina::classify_service_outcome;
use trzcina::panic_payload_to_string;
use trzcina::running_service::collect_outcomes;
use trzcina::running_service::settle_outcome;
use trzcina::running_service::OutcomeReceipt;
use trzcina::running_service::RunningService;
use trzcina::PanicPayload;
use trzcina::ServiceShutdownOutcome;
use trzcina::ServiceShutdownOutcomeCollection;
use trzcina::ServiceShutdownOutcomeWithServiceName;

fn named(name: &'static str, outcome: ServiceShutdownOutcome) -> ServiceShutdownOutcomeWithServiceName {
    ServiceShutdownOutcomeWithServiceName { name, outcome }
}

#[test]
fn string_literal_panic_payload_is_kept() {
    let message = panic_payload_to_string(PanicPayload::StaticText(
        "deliberately panicking with a string literal",
    ));
    assert_eq!(message, "deliberately panicking with a string literal");
}

#[test]
fn records_owned_string_panic_payload() {
    let message = panic_payload_to_string(PanicPayload::OwnedText(format!("{}", "formatted panic")));
    assert_eq!(message, "formatted panic");
}

#[test]
fn non_string_panic_payload_gets_generic_message() {
    assert_eq!(panic_payload_to_string(PanicPayload::Opaque), "non-string panic payload");
    let outcome = classify_service_outcome(Err(PanicPayload::Opaque));
    assert!(matches!(outcome, ServiceShutdownOutcome::Panicked(ref m) if m == "non-string panic payload"));
}

#[test]
fn classifies_completed_errored_and_panicked_runs() {
    assert!(matches!(classify_service_outcome(Ok(Ok(()))), ServiceShutdownOutcome::Completed));
    match classify_service_outcome(Ok(Err(anyhow::Error::msg("erroring service deliberately failed")))) {
        ServiceShutdownOutcome::Errored(error) => {
            assert_eq!(error.to_string(), "erroring service deliberately failed")
        }
        other => panic!("expected Errored, got {other:?}"),
    }
    match classify_service_outcome(Err(PanicPayload::StaticText("deliberately panicking for cascade test"))) {
        ServiceShutdownOutcome::Panicked(message) => {
            assert!(message.contains("deliberately panicking for cascade test"))
        }
        other => panic!("expected Panicked, got {other:?}"),
    }
}

#[test]
fn settles_receipts_into_outcomes() {
    let delivered = settle_outcome("a", OutcomeReceipt::Delivered(ServiceShutdownOutcome::Completed));
    assert_eq!(delivered.name, "a");
    assert!(matches!(delivered.outcome, ServiceShutdownOutcome::Completed));
    let aborted = settle_outcome("b", OutcomeReceipt::SenderDropped);
    assert!(matches!(aborted.outcome, ServiceShutdownOutcome::AbortedByShutdownDeadline));
    let leaked = settle_outcome("c", OutcomeReceipt::NothingSentYet);
    assert!(matches!(leaked.outcome, ServiceShutdownOutcome::LeakedBeyondShutdownDeadline));
}

#[test]
fn channels_settle_into_completed_aborted_and_leaked_outcomes() {
    let (finished_sender, finished_receiver) = oneshot::channel::<ServiceShutdownOutcome>();
    let (hung_sender, hung_receiver) = oneshot::channel::<ServiceShutdownOutcome>();
    let (leaked_sender, leaked_receiver) = oneshot::channel::<ServiceShutdownOutcome>();
    finished_sender.send(ServiceShutdownOutcome::Completed).unwrap();
    drop(hung_sender);

    let running = vec![
        RunningService::new("finished", finished_receiver),
        RunningService::new("hung", hung_receiver),
        RunningService::new("leaked", leaked_receiver),
    ];
    assert_eq!(running[1].name(), "hung");
    let mut running = running;
    let report = collect_outcomes(&mut running);
    assert_eq!(running.len(), 3);
    assert_eq!(running[2].name(), "leaked");
    drop(leaked_sender);

    assert_eq!(report.outcomes().len(), 3);
    assert_eq!(report.outcomes()[0].name, "finished");
    assert_eq!(report.outcomes()[1].name, "hung");
    assert_eq!(report.outcomes()[2].name, "leaked");
    assert!(matches!(report.outcomes()[0].outcome, ServiceShutdownOutcome::Completed));
    assert!(matches!(
        report.outcomes()[1].outcome,
        ServiceShutdownOutcome::AbortedByShutdownDeadline
    ));
    assert!(matches!(
        report.outcomes()[2].outcome,
        ServiceShutdownOutcome::LeakedBeyondShutdownDeadline
    ));
    assert!(report.into_result().is_err());
}

#[test]
fn into_result_keeps_every_errored_outcome() {
    let mut outcomes = Vec::new();
    for _ in 0..3 {
        outcomes.push(named(
            "erroring",
            ServiceShutdownOutcome::Errored(anyhow::Error::msg("erroring service deliberately failed")),
        ));
    }
    for _ in 0..2 {
        outcomes.push(named("observer", ServiceShutdownOutcome::Completed));
    }
    let report = ServiceShutdownOutcomeCollection::new(outcomes);
    assert_eq!(report.outcomes().len(), 5);
    let errored_count = report
        .outcomes()
        .iter()
        .filter(|named_outcome| matches!(named_outcome.outcome, ServiceShutdownOutcome::Errored(_)))
        .count();
    assert_eq!(errored_count, 3);
    let error = report.into_result().unwrap_err();
    assert_eq!(error.failed_outcomes().len(), 3);
    for failed in error.failed_outcomes() {
        assert_eq!(failed.name, "erroring");
    }
}

#[test]
fn into_result_keeps_failures_in_order() {
    let report = ServiceShutdownOutcomeCollection::new(vec![
        named("first", ServiceShutdownOutcome::Panicked("boom".to_owned())),
        named("second", ServiceShutdownOutcome::Completed),
        named("third", ServiceShutdownOutcome::LeakedBeyondShutdownDeadline),
        named("fourth", ServiceShutdownOutcome::Completed),
        named("fifth", ServiceShutdownOutcome::AbortedByShutdownDeadline),
    ]);
    let error = report.into_result().unwrap_err();
    let names: Vec<&str> = error.failed_outcomes().iter().map(|o| o.name).collect();
    assert_eq!(names, vec!["first", "third", "fifth"]);
}

#[test]
fn no_running_services_give_an_empty_ok_report() {
    let report = collect_outcomes(&mut Vec::new());
    assert!(report.outcomes().is_empty());
    report.into_result().unwrap();
}

#[test]
fn all_completed_outcomes_give_ok() {
    let report = ServiceShutdownOutcomeCollection::new(vec![
        named("one", ServiceShutdownOutcome::Completed),
        named("two", ServiceShutdownOutcome::Completed),
    ]);
    assert!(report.into_result().is_ok());
}

#[test]
fn is_completed_tells_completed_from_failures() {
    assert!(ServiceShutdownOutcome::Completed.is_completed());
    assert!(!ServiceShutdownOutcome::AbortedByShutdownDeadline.is_completed());
    assert!(!ServiceShutdownOutcome::Panicked(String::new()).is_completed());
}

#[test]
fn registry_keeps_registration_order() {
    let mut registry = trzcina::registry::ServiceRegistry::new();
    registry.register("first", 1_u8);
    registry.register("second", 2_u8);
    registry.register("third", 3_u8);
    assert_eq!(registry.len(), 3);
    let names: Vec<&str> = registry.into_services().iter().map(|r| r.name).collect();
    assert_eq!(names, vec!["first", "second", "third"]);
}
