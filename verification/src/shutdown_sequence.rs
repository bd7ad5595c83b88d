use crate::service_shutdown_options::ServiceShutdownOptions;
use std::time::Duration;
use vstd::prelude::*;

verus! {

/// Where a shutdown stands.
#[derive(Debug, Clone, Copy, PartialEq, Eq)]
pub enum ShutdownPhase {
    /// Services are running; the shutdown waits for the cancellation token.
    AwaitingCancellation,
    /// The token has fired; services have the cooperative deadline to stop.
    Draining,
    /// The cooperative deadline elapsed; the remaining services were aborted
    /// and the abort has the abort deadline to take effect.
    Aborting,
    /// Every task is accounted for, or given up on (`leaked`): the outcomes can
    /// be collected.
    Settled { leaked: bool },
}

/// What happened while the last action ran.
#[derive(Debug, Clone, Copy, PartialEq, Eq)]
pub enum ShutdownEvent {
    /// The cancellation token fired.
    Cancelled,
    /// Every task finished.
    Drained,
    /// The deadline of the drain elapsed before every task finished.
    DeadlineElapsed,
}

/// What the runner does next.
#[derive(Debug, Clone, Copy)]
pub enum ShutdownAction {
    /// Wait until the cancellation token fires.
    WaitForCancellation,
    /// Wait for every task to finish, for at most the given time.
    DrainWithin(Duration),
    /// Abort every remaining task, then wait for them to finish, for at most
    /// the given time.
    AbortAllAndDrainWithin(Duration),
    /// Collect the outcome of every service.
    CollectOutcomes,
}

/// The action that a phase asks for.
pub open spec fn pending_action(phase: ShutdownPhase, options: ServiceShutdownOptions) -> ShutdownAction {
    match phase {
        ShutdownPhase::AwaitingCancellation => ShutdownAction::WaitForCancellation,
        ShutdownPhase::Draining => ShutdownAction::DrainWithin(options.cooperative_deadline),
        ShutdownPhase::Aborting => ShutdownAction::AbortAllAndDrainWithin(options.abort_deadline),
        ShutdownPhase::Settled { .. } => ShutdownAction::CollectOutcomes,
    }
}

/// The phase that a shutdown starts in.
pub open spec fn initial_phase(has_running_services: bool) -> ShutdownPhase {
    if has_running_services {
        ShutdownPhase::AwaitingCancellation
    } else {
        ShutdownPhase::Draining
    }
}

/// The phase after `event`. An event that the phase does not wait for changes
/// nothing.
pub open spec fn next_phase(phase: ShutdownPhase, event: ShutdownEvent) -> ShutdownPhase {
    match (phase, event) {
        (ShutdownPhase::AwaitingCancellation, ShutdownEvent::Cancelled) => ShutdownPhase::Draining,
        (ShutdownPhase::Draining, ShutdownEvent::Drained) => ShutdownPhase::Settled { leaked: false },
        (ShutdownPhase::Draining, ShutdownEvent::DeadlineElapsed) => ShutdownPhase::Aborting,
        (ShutdownPhase::Aborting, ShutdownEvent::Drained) => ShutdownPhase::Settled { leaked: false },
        (ShutdownPhase::Aborting, ShutdownEvent::DeadlineElapsed) => ShutdownPhase::Settled {
            leaked: true,
        },
        _ => phase,
    }
}

/// How many phase changes, at most, lie between a phase and `Settled`.
pub open spec fn phases_left(phase: ShutdownPhase) -> nat {
    match phase {
        ShutdownPhase::AwaitingCancellation => 3,
        ShutdownPhase::Draining => 2,
        ShutdownPhase::Aborting => 1,
        ShutdownPhase::Settled { .. } => 0,
    }
}

/// The decisions of a shutdown: which phase it is in and what to do next,
/// given what happened. The runner performs each action and reports back the
/// event it led to.
pub struct ShutdownSequence {
    phase: ShutdownPhase,
    options: ServiceShutdownOptions,
}

impl ShutdownSequence {
    pub closed spec fn spec_phase(&self) -> ShutdownPhase {
        self.phase
    }

    pub closed spec fn spec_options(&self) -> ServiceShutdownOptions {
        self.options
    }

    /// Starts a shutdown. With services running it first waits for the
    /// cancellation token; with none it drains at once.
    pub fn begin(has_running_services: bool, options: ServiceShutdownOptions) -> (started: (
        ShutdownSequence,
        ShutdownAction,
    ))
        ensures
            started.0.spec_phase() == initial_phase(has_running_services),
            started.0.spec_options() == options,
            started.1 == pending_action(initial_phase(has_running_services), options),
    {
        let phase = if has_running_services {
            ShutdownPhase::AwaitingCancellation
        } else {
            ShutdownPhase::Draining
        };
        let sequence = ShutdownSequence { phase, options };
        let action = sequence.action();
        (sequence, action)
    }

    pub fn phase(&self) -> (phase: ShutdownPhase)
        ensures
            phase == self.spec_phase(),
    {
        self.phase
    }

    /// The action that the current phase asks for.
    pub fn action(&self) -> (action: ShutdownAction)
        ensures
            action == pending_action(self.spec_phase(), self.spec_options()),
    {
        match self.phase {
            ShutdownPhase::AwaitingCancellation => ShutdownAction::WaitForCancellation,
            ShutdownPhase::Draining => ShutdownAction::DrainWithin(self.options.cooperative_deadline),
            ShutdownPhase::Aborting => ShutdownAction::AbortAllAndDrainWithin(
                self.options.abort_deadline,
            ),
            ShutdownPhase::Settled { .. } => ShutdownAction::CollectOutcomes,
        }
    }

    /// Moves to the phase that `event` leads to and returns its action.
    pub fn advance(&mut self, event: ShutdownEvent) -> (action: ShutdownAction)
        ensures
            final(self).spec_phase() == next_phase(old(self).spec_phase(), event),
            final(self).spec_options() == old(self).spec_options(),
            action == pending_action(final(self).spec_phase(), final(self).spec_options()),
    {
        let next = match (self.phase, event) {
            (ShutdownPhase::AwaitingCancellation, ShutdownEvent::Cancelled) => ShutdownPhase::Draining,
            (ShutdownPhase::Draining, ShutdownEvent::Drained) => ShutdownPhase::Settled {
                leaked: false,
            },
            (ShutdownPhase::Draining, ShutdownEvent::DeadlineElapsed) => ShutdownPhase::Aborting,
            (ShutdownPhase::Aborting, ShutdownEvent::Drained) => ShutdownPhase::Settled {
                leaked: false,
            },
            (ShutdownPhase::Aborting, ShutdownEvent::DeadlineElapsed) => ShutdownPhase::Settled {
                leaked: true,
            },
            (phase, _) => phase,
        };
        self.phase = next;
        self.action()
    }
}


/// The phase that `events` lead to, one after the other.
pub open spec fn phase_after(phase: ShutdownPhase, events: Seq<ShutdownEvent>) -> ShutdownPhase
    decreases events.len(),
{
    if events.len() == 0 {
        phase
    } else {
        phase_after(next_phase(phase, events[0]), events.drop_first())
    }
}

/// How many of `events` change the phase, one after the other.
pub open spec fn phase_changes(phase: ShutdownPhase, events: Seq<ShutdownEvent>) -> nat
    decreases events.len(),
{
    if events.len() == 0 {
        0
    } else {
        let next = next_phase(phase, events[0]);
        let rest: nat = phase_changes(next, events.drop_first());
        if next == phase {
            rest
        } else {
            rest + 1
        }
    }
}

/// Every event leaves the phase as it is or moves it closer to `Settled`, and
/// a settled shutdown stays settled.
pub proof fn lemma_shutdown_step_progresses(phase: ShutdownPhase, event: ShutdownEvent)
    ensures
        next_phase(phase, event) == phase || phases_left(next_phase(phase, event)) < phases_left(
            phase,
        ),
        phase is Settled ==> next_phase(phase, event) == phase,
{
}

/// Along any run, the phase changes at most as often as there are phases left.
pub proof fn lemma_phase_changes_bounded(phase: ShutdownPhase, events: Seq<ShutdownEvent>)
    ensures
        phase_changes(phase, events) <= phases_left(phase),
    decreases events.len(),
{
    if events.len() > 0 {
        let next = next_phase(phase, events[0]);
        lemma_shutdown_step_progresses(phase, events[0]);
        lemma_phase_changes_bounded(next, events.drop_first());
    }
}

/// A shutdown changes phase at most three times, whatever happens: it waits
/// for the cancellation at most once, drains at most once within each
/// deadline, and then stays settled.
pub proof fn lemma_shutdown_changes_phase_at_most_three_times(
    has_running_services: bool,
    events: Seq<ShutdownEvent>,
)
    ensures
        phase_changes(initial_phase(has_running_services), events) <= 3,
{
    lemma_phase_changes_bounded(initial_phase(has_running_services), events);
}

/// Once settled, a shutdown stays settled whatever happens after.
pub proof fn lemma_settled_is_final(leaked: bool, events: Seq<ShutdownEvent>)
    ensures
        phase_after(ShutdownPhase::Settled { leaked }, events) == (ShutdownPhase::Settled { leaked }),
    decreases events.len(),
{
    if events.len() > 0 {
        lemma_settled_is_final(leaked, events.drop_first());
    }
}

/// While services run, nothing is drained or aborted before the cancellation
/// token fires: the only way out of waiting is the cancellation.
pub proof fn lemma_drain_waits_for_cancellation(event: ShutdownEvent)
    ensures
        next_phase(ShutdownPhase::AwaitingCancellation, event) != ShutdownPhase::AwaitingCancellation
            <==> event is Cancelled,
        event is Cancelled ==> next_phase(ShutdownPhase::AwaitingCancellation, event)
            is Draining,
{
}

/// Services are aborted only after the cooperative deadline elapsed while
/// draining.
pub proof fn lemma_abort_only_after_cooperative_deadline(phase: ShutdownPhase, event: ShutdownEvent)
    requires
        next_phase(phase, event) is Aborting,
        !(phase is Aborting),
    ensures
        phase is Draining,
        event is DeadlineElapsed,
{
}

/// Services are given up as leaked only when the abort deadline elapsed as
/// well; a drain that finishes in either phase leaks nothing.
pub proof fn lemma_leak_only_after_abort_deadline(phase: ShutdownPhase, event: ShutdownEvent)
    requires
        next_phase(phase, event) == (ShutdownPhase::Settled { leaked: true }),
        !(phase is Settled),
    ensures
        phase is Aborting,
        event is DeadlineElapsed,
{
}

/// The two deadlines apply independently: a drain always waits for the
/// cooperative deadline, and the drain after the abort for the abort deadline.
pub proof fn lemma_deadlines_apply_independently(
    phase: ShutdownPhase,
    options: ServiceShutdownOptions,
)
    ensures
        pending_action(phase, options) matches ShutdownAction::DrainWithin(deadline) ==> deadline
            == options.cooperative_deadline,
        pending_action(phase, options) matches ShutdownAction::AbortAllAndDrainWithin(deadline)
            ==> deadline == options.abort_deadline,
{
}

/// Outcomes are collected exactly when the shutdown has settled.
pub proof fn lemma_collect_only_when_settled(phase: ShutdownPhase, options: ServiceShutdownOptions)
    ensures
        pending_action(phase, options) is CollectOutcomes <==> phase is Settled,
{
}

} // verus!
