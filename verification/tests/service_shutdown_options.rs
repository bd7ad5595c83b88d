use std::time::Duration;

use trzcina::ServiceShutdownOptions;

#[test]
fn can_be_cloned() {
    let original = ServiceShutdownOptions {
        cooperative_deadline: Duration::from_millis(7),
        abort_deadline: Duration::from_millis(11),
    };
    let cloned = original.clone();
    assert_eq!(original.cooperative_deadline, cloned.cooperative_deadline);
    assert_eq!(original.abort_deadline, cloned.abort_deadline);
}

#[test]
fn default_uses_ten_second_deadlines_for_both_phases() {
    let ServiceShutdownOptions {
        cooperative_deadline,
        abort_deadline,
    } = ServiceShutdownOptions::default();

    assert_eq!(cooperative_deadline, Duration::from_secs(10));
    assert_eq!(abort_deadline, Duration::from_secs(10));
}

#[test]
fn default_deadlines_are_equal_and_not_zero() {
    let options = ServiceShutdownOptions::default();
    assert_eq!(options.cooperative_deadline, options.abort_deadline);
    assert_ne!(options.cooperative_deadline, Duration::ZERO);
}
