use vstd::prelude::*;

verus! {

/// The error type that a service's run returns.
#[verifier::external_type_specification]
#[verifier::external_body]
pub struct ExAnyhowError(anyhow::Error);

/// How one service ended.
#[derive(Debug)]
pub enum ServiceShutdownOutcome {
    /// The service returned `Ok`.
    Completed,
    /// The service returned an error.
    Errored(anyhow::Error),
    /// The service panicked; the panic message.
    Panicked(String),
    /// The service did not stop within the cooperative deadline and was aborted.
    AbortedByShutdownDeadline,
    /// The service ignored the abort as well and outlived the abort deadline.
    LeakedBeyondShutdownDeadline,
}

impl ServiceShutdownOutcome {
    /// Every outcome but `Completed` is a failure.
    pub open spec fn is_failure(&self) -> bool {
        !(self is Completed)
    }

    pub fn is_completed(&self) -> (completed: bool)
        ensures
            completed == !self.is_failure(),
    {
        match self {
            ServiceShutdownOutcome::Completed => true,
            _ => false,
        }
    }
}

/// The outcome of one service, with the name it was registered under.
#[derive(Debug)]
pub struct ServiceShutdownOutcomeWithServiceName {
    pub name: &'static str,
    pub outcome: ServiceShutdownOutcome,
}

/// Whether a named outcome is a failure.
pub open spec fn named_is_failure(named: ServiceShutdownOutcomeWithServiceName) -> bool {
    named.outcome.is_failure()
}

/// The failed outcomes of `outcomes`, in their order.
pub open spec fn failures_of(
    outcomes: Seq<ServiceShutdownOutcomeWithServiceName>,
) -> Seq<ServiceShutdownOutcomeWithServiceName> {
    outcomes.filter(|named: ServiceShutdownOutcomeWithServiceName| named_is_failure(named))
}

/// Extending a sequence by one outcome extends its failures by that outcome
/// exactly when it is a failure.
pub proof fn lemma_failures_of_push(
    outcomes: Seq<ServiceShutdownOutcomeWithServiceName>,
    named: ServiceShutdownOutcomeWithServiceName,
)
    ensures
        failures_of(outcomes.push(named)) == (if named_is_failure(named) {
            failures_of(outcomes).push(named)
        } else {
            failures_of(outcomes)
        }),
{
    reveal(Seq::filter);
    assert(outcomes.push(named).drop_last() =~= outcomes);
}

/// Failures of a prefix one element longer.
pub proof fn lemma_failures_of_take_next(
    outcomes: Seq<ServiceShutdownOutcomeWithServiceName>,
    i: int,
)
    requires
        0 <= i < outcomes.len(),
    ensures
        failures_of(outcomes.take(i + 1)) == (if named_is_failure(outcomes[i]) {
            failures_of(outcomes.take(i)).push(outcomes[i])
        } else {
            failures_of(outcomes.take(i))
        }),
{
    assert(outcomes.take(i + 1) =~= outcomes.take(i).push(outcomes[i]));
    lemma_failures_of_push(outcomes.take(i), outcomes[i]);
}

/// A shutdown has no failures exactly when every service completed, and every
/// outcome that is kept as a failure is one.
pub proof fn lemma_no_failures_iff_all_completed(outcomes: Seq<ServiceShutdownOutcomeWithServiceName>)
    ensures
        failures_of(outcomes).len() == 0 <==> forall|i: int|
            0 <= i < outcomes.len() ==> #[trigger] outcomes[i].outcome is Completed,
        forall|i: int|
            0 <= i < failures_of(outcomes).len() ==> #[trigger] failures_of(outcomes)[i].outcome.is_failure(),
{
    let pred = |named: ServiceShutdownOutcomeWithServiceName| named_is_failure(named);
    assert forall|i: int| 0 <= i < failures_of(outcomes).len() implies #[trigger] failures_of(
        outcomes,
    )[i].outcome.is_failure() by {
        outcomes.lemma_filter_pred(pred, i);
    }
    if failures_of(outcomes).len() == 0 {
        assert forall|i: int| 0 <= i < outcomes.len() implies #[trigger] outcomes[i].outcome is Completed by {
            if !(outcomes[i].outcome is Completed) {
                outcomes.lemma_filter_contains(pred, i);
            }
        }
    } else {
        let first = failures_of(outcomes)[0];
        outcomes.lemma_filter_pred(pred, 0);
        outcomes.lemma_filter_contains_rev(pred, first);
        let k: int = choose|k: int| 0 <= k < outcomes.len() && outcomes[k] == first;
        assert(!(outcomes[k].outcome is Completed));
    }
}

/// What a caught panic carried, as far as it can be read.
#[derive(Debug)]
pub enum PanicPayload {
    /// The payload was a `&'static str`.
    StaticText(&'static str),
    /// The payload was a `String`.
    OwnedText(String),
    /// The payload was of any other type.
    Opaque,
}

/// The message recorded for a non-text panic payload.
pub open spec fn opaque_panic_message() -> Seq<char> {
    "non-string panic payload"@
}

/// The panic message for a payload: its text, or a fixed message when it holds none.
pub open spec fn panic_message_of(payload: PanicPayload) -> Seq<char> {
    match payload {
        PanicPayload::StaticText(text) => text@,
        PanicPayload::OwnedText(text) => text@,
        PanicPayload::Opaque => opaque_panic_message(),
    }
}

/// Turns a panic payload into the message that `Panicked` records.
pub fn panic_payload_to_string(panic_payload: PanicPayload) -> (message: String)
    ensures
        message@ == panic_message_of(panic_payload),
        panic_payload matches PanicPayload::StaticText(text) ==> message@ == text@,
        panic_payload matches PanicPayload::OwnedText(text) ==> message@ == text@,
        panic_payload is Opaque ==> message@ == "non-string panic payload"@,
{
    match panic_payload {
        PanicPayload::StaticText(text) => text.to_owned(),
        PanicPayload::OwnedText(text) => text,
        PanicPayload::Opaque => "non-string panic payload".to_owned(),
    }
}

/// What running a service came to: `Ok` with what `run` returned, or `Err`
/// with the payload of the panic that ended it.
pub type ServiceRunResult = Result<Result<(), anyhow::Error>, PanicPayload>;

/// How a finished run is classified.
pub open spec fn classifies_run(run: ServiceRunResult, outcome: ServiceShutdownOutcome) -> bool {
    match run {
        Ok(Ok(())) => outcome is Completed,
        Ok(Err(error)) => outcome == ServiceShutdownOutcome::Errored(error),
        Err(payload) => outcome matches ServiceShutdownOutcome::Panicked(message) && message@
            == panic_message_of(payload),
    }
}

/// Classifies how a service's run ended.
pub fn classify_service_outcome(run: ServiceRunResult) -> (outcome: ServiceShutdownOutcome)
    ensures
        classifies_run(run, outcome),
        run is Ok && run->Ok_0 is Ok ==> outcome is Completed,
        run matches Ok(Err(error)) ==> outcome == ServiceShutdownOutcome::Errored(error),
        run matches Err(PanicPayload::StaticText(text)) ==> outcome matches ServiceShutdownOutcome::Panicked(
            message,
        ) && message@ == text@,
        run matches Err(PanicPayload::OwnedText(text)) ==> outcome matches ServiceShutdownOutcome::Panicked(
            message,
        ) && message@ == text@,
        run matches Err(PanicPayload::Opaque) ==> outcome matches ServiceShutdownOutcome::Panicked(
            message,
        ) && message@ == "non-string panic payload"@,
{
    match run {
        Ok(Ok(())) => ServiceShutdownOutcome::Completed,
        Ok(Err(service_error)) => ServiceShutdownOutcome::Errored(service_error),
        Err(panic_payload) => ServiceShutdownOutcome::Panicked(
            panic_payload_to_string(panic_payload),
        ),
    }
}

/// A panic that carried text is recorded with exactly that text, whether the
/// text was a `&'static str` or a `String`; only a payload without text gets
/// the fixed message.
pub proof fn lemma_panic_message_is_payload_text(text: &'static str, owned: String)
    ensures
        panic_message_of(PanicPayload::StaticText(text)) == text@,
        panic_message_of(PanicPayload::OwnedText(owned)) == owned@,
        panic_message_of(PanicPayload::Opaque) == "non-string panic payload"@,
{
}

/// How every run is classified, in terms of the run alone: a run that
/// returned `Ok` completed; one that returned an error is `Errored` with that
/// very error; one that panicked with text is `Panicked` with exactly that
/// text, whether a `&'static str` or a `String`; one that panicked with
/// anything else is `Panicked` with the fixed message.
pub proof fn lemma_classification_keeps_what_the_run_gave(
    run: ServiceRunResult,
    outcome: ServiceShutdownOutcome,
)
    requires
        classifies_run(run, outcome),
    ensures
        run is Ok && run->Ok_0 is Ok ==> outcome is Completed,
        run matches Ok(Err(error)) ==> outcome == ServiceShutdownOutcome::Errored(error),
        run matches Err(PanicPayload::StaticText(text)) ==> outcome matches ServiceShutdownOutcome::Panicked(
            message,
        ) && message@ == text@,
        run matches Err(PanicPayload::OwnedText(text)) ==> outcome matches ServiceShutdownOutcome::Panicked(
            message,
        ) && message@ == text@,
        run matches Err(PanicPayload::Opaque) ==> outcome matches ServiceShutdownOutcome::Panicked(
            message,
        ) && message@ == "non-string panic payload"@,
        run is Err ==> outcome is Panicked,
        run is Ok ==> !(outcome is Panicked),
{
}

} // verus!
