use std::time::Duration;

use trzcina::shutdown_sequence::ShutdownAction;
use trzcina::shutdown_sequence::ShutdownEvent;
use trzcina::shutdown_sequence::ShutdownPhase;
use trzcina::shutdown_sequence::ShutdownSequence;
use trzcina::ServiceShutdownOptions;

fn options() -> ServiceShutdownOptions {
    ServiceShutdownOptions {
        cooperative_deadline: Duration::from_millis(50),
        abort_deadline: Duration::from_millis(2000),
    }
}

#[test]
fn no_services_drains_without_waiting_for_cancellation() {
    let (sequence, action) = ShutdownSequence::begin(false, options());
    assert_eq!(sequence.phase(), ShutdownPhase::Draining);
    assert!(matches!(action, ShutdownAction::DrainWithin(d) if d == Duration::from_millis(50)));
}

#[test]
fn running_services_wait_for_cancellation_first() {
    let (sequence, action) = ShutdownSequence::begin(true, options());
    assert_eq!(sequence.phase(), ShutdownPhase::AwaitingCancellation);
    assert!(matches!(action, ShutdownAction::WaitForCancellation));
}

#[test]
fn cooperative_drain_settles_without_abort() {
    let (mut sequence, _) = ShutdownSequence::begin(true, options());
    let action = sequence.advance(ShutdownEvent::Cancelled);
    assert!(matches!(action, ShutdownAction::DrainWithin(d) if d == Duration::from_millis(50)));
    let action = sequence.advance(ShutdownEvent::Drained);
    assert!(matches!(action, ShutdownAction::CollectOutcomes));
    assert_eq!(sequence.phase(), ShutdownPhase::Settled { leaked: false });
}

#[test]
fn abort_drain_uses_abort_deadline_after_cooperative_one() {
    let (mut sequence, _) = ShutdownSequence::begin(true, options());
    sequence.advance(ShutdownEvent::Cancelled);
    let action = sequence.advance(ShutdownEvent::DeadlineElapsed);
    assert!(matches!(
        action,
        ShutdownAction::AbortAllAndDrainWithin(d) if d == Duration::from_millis(2000)
    ));
    let action = sequence.advance(ShutdownEvent::Drained);
    assert!(matches!(action, ShutdownAction::CollectOutcomes));
    assert_eq!(sequence.phase(), ShutdownPhase::Settled { leaked: false });
}

#[test]
fn services_ignoring_the_abort_are_leaked() {
    let (mut sequence, _) = ShutdownSequence::begin(true, options());
    sequence.advance(ShutdownEvent::Cancelled);
    sequence.advance(ShutdownEvent::DeadlineElapsed);
    let action = sequence.advance(ShutdownEvent::DeadlineElapsed);
    assert!(matches!(action, ShutdownAction::CollectOutcomes));
    assert_eq!(sequence.phase(), ShutdownPhase::Settled { leaked: true });
}

#[test]
fn events_a_phase_does_not_wait_for_change_nothing() {
    let (mut sequence, _) = ShutdownSequence::begin(true, options());
    let action = sequence.advance(ShutdownEvent::Drained);
    assert!(matches!(action, ShutdownAction::WaitForCancellation));
    assert_eq!(sequence.phase(), ShutdownPhase::AwaitingCancellation);
    sequence.advance(ShutdownEvent::Cancelled);
    sequence.advance(ShutdownEvent::Drained);
    for event in [ShutdownEvent::Cancelled, ShutdownEvent::Drained, ShutdownEvent::DeadlineElapsed] {
        let action = sequence.advance(event);
        assert!(matches!(action, ShutdownAction::CollectOutcomes));
        assert_eq!(sequence.phase(), ShutdownPhase::Settled { leaked: false });
    }
}
