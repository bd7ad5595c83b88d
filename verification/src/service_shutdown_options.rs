use crate::duration::{duration_of, make_duration};
use std::time::Duration;
use vstd::prelude::*;

verus! {

/// The two deadlines of a shutdown, both counted from the moment the shutdown
/// begins its phase: how long services have to stop on their own, and how long
/// the abort of the remaining ones has to take effect.
#[derive(Clone, Copy)]
pub struct ServiceShutdownOptions {
    pub cooperative_deadline: Duration,
    pub abort_deadline: Duration,
}

/// Ten seconds, the default of both deadlines.
pub open spec fn default_deadline() -> Duration {
    duration_of(10, 0)
}

impl Default for ServiceShutdownOptions {
    fn default() -> (options: Self)
        ensures
            options.cooperative_deadline == default_deadline(),
            options.abort_deadline == default_deadline(),
    {
        Self { cooperative_deadline: make_duration(10, 0), abort_deadline: make_duration(10, 0) }
    }
}

} // verus!
