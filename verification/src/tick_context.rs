use crate::duration::{duration_of, make_duration, NANOS_PER_SECOND};
use std::time::Duration;
use vstd::prelude::*;

verus! {

/// When a periodic service's first tick fires.
#[derive(Clone, Copy, Debug, PartialEq, Eq)]
pub enum FirstTickTiming {
    /// At once, when the service starts.
    Immediate,
    /// One tick interval after the service starts.
    AfterInterval,
}

/// How long after the start the first tick fires: nothing for `Immediate`,
/// one interval for `AfterInterval`.
pub fn first_tick_delay(timing: FirstTickTiming, tick_interval: Duration) -> (delay: Duration)
    ensures
        timing is Immediate ==> delay == duration_of(0, 0),
        timing is AfterInterval ==> delay == tick_interval,
{
    match timing {
        FirstTickTiming::Immediate => make_duration(0, 0),
        FirstTickTiming::AfterInterval => tick_interval,
    }
}

/// What a periodic service learns about the tick it handles.
#[derive(Clone, Copy, Debug, Eq, PartialEq)]
pub struct TickContext {
    /// Time from the service's start to this tick.
    pub elapsed_since_start: Duration,
    /// How many ticks fired before this one.
    pub ticks_since_start: u64,
    /// Time from the previous tick (or from the start, for the first) to this one.
    pub since_last_tick: Duration,
}

/// A time given as whole seconds and nanoseconds, in nanoseconds.
pub open spec fn total_nanos(secs: u64, nanos: u32) -> nat {
    (secs as nat) * (NANOS_PER_SECOND as nat) + (nanos as nat)
}

/// The `Duration` of a number of nanoseconds.
pub open spec fn duration_of_nanos(nanos: nat) -> Duration {
    duration_of(
        (nanos / (NANOS_PER_SECOND as nat)) as u64,
        (nanos % (NANOS_PER_SECOND as nat)) as u32,
    )
}

/// The time from `previous` to `now`, or nothing if `now` is not later.
pub open spec fn nanos_between(previous: nat, now: nat) -> nat {
    if previous <= now {
        (now - previous) as nat
    } else {
        0
    }
}

/// The largest time, in nanoseconds, that a `Duration` can hold.
pub open spec fn max_duration_nanos() -> nat {
    total_nanos(u64::MAX, (NANOS_PER_SECOND - 1) as u32)
}

/// Splitting a time into seconds and nanoseconds and back gives the same `Duration`.
pub proof fn lemma_duration_of_total_nanos(secs: u64, nanos: u32)
    requires
        nanos < NANOS_PER_SECOND,
    ensures
        duration_of_nanos(total_nanos(secs, nanos)) == duration_of(secs, nanos),
{
    let n: nat = total_nanos(secs, nanos);
    let b: nat = NANOS_PER_SECOND as nat;
    assert(n / b == secs as nat && n % b == nanos as nat) by (nonlinear_arith)
        requires
            n == (secs as nat) * b + (nanos as nat),
            (nanos as nat) < b,
            b == 1_000_000_000,
    {
        vstd::arithmetic::div_mod::lemma_fundamental_div_mod_converse(
            n as int,
            b as int,
            secs as int,
            nanos as int,
        );
    }
}

/// One recorded tick, from the clock `before` to the clock `after`: the
/// context counts the earlier ticks, gives the time since the start, and the
/// time since the previous tick (none if the clock went backwards); the clock
/// counts one more tick, fired at the given time.
pub open spec fn records_tick(
    before: TickClock,
    elapsed_secs: u64,
    elapsed_subsec_nanos: u32,
    context: TickContext,
    after: TickClock,
) -> bool {
    let now = total_nanos(elapsed_secs, elapsed_subsec_nanos);
    &&& context.ticks_since_start == before.spec_ticks()
    &&& context.elapsed_since_start == duration_of(elapsed_secs, elapsed_subsec_nanos)
    &&& context.since_last_tick == duration_of_nanos(nanos_between(before.spec_last_tick_nanos(), now))
    &&& after.spec_ticks() == before.spec_ticks() + 1
    &&& after.spec_last_tick_nanos() == now
}

/// The tick bookkeeping of a periodic service: how many ticks fired and when
/// the last one fired, counted from the service's start.
pub struct TickClock {
    ticks_since_start: u64,
    last_tick_nanos: u128,
}

impl TickClock {
    pub closed spec fn spec_ticks(&self) -> nat {
        self.ticks_since_start as nat
    }

    /// When the last tick fired, in nanoseconds after the start; the start
    /// itself before the first tick.
    pub closed spec fn spec_last_tick_nanos(&self) -> nat {
        self.last_tick_nanos as nat
    }

    pub closed spec fn wf(&self) -> bool {
        self.last_tick_nanos <= max_duration_nanos()
    }

    /// A clock at the start of a service: no tick yet.
    pub fn new() -> (clock: Self)
        ensures
            clock.wf(),
            clock.spec_ticks() == 0,
            clock.spec_last_tick_nanos() == 0,
    {
        TickClock { ticks_since_start: 0, last_tick_nanos: 0 }
    }

    pub fn ticks_recorded(&self) -> (ticks: u64)
        ensures
            ticks == self.spec_ticks(),
    {
        self.ticks_since_start
    }

    /// Records a tick that fired `elapsed_secs` seconds and
    /// `elapsed_subsec_nanos` nanoseconds after the start, and returns its
    /// context: the time since the start, the number of earlier ticks, and the
    /// time since the previous tick (none if the clock went backwards).
    pub fn record_tick(&mut self, elapsed_secs: u64, elapsed_subsec_nanos: u32) -> (context:
        TickContext)
        requires
            old(self).wf(),
            old(self).spec_ticks() < u64::MAX,
            elapsed_subsec_nanos < NANOS_PER_SECOND,
        ensures
            final(self).wf(),
            records_tick(*old(self), elapsed_secs, elapsed_subsec_nanos, context, *final(self)),
    {
        proof {
            assert((elapsed_secs as nat) * 1_000_000_000nat <= (u64::MAX as nat)
                * 1_000_000_000nat) by (nonlinear_arith)
                requires
                    elapsed_secs <= u64::MAX,
            ;
        }
        let now: u128 = (elapsed_secs as u128) * 1_000_000_000u128 + (elapsed_subsec_nanos as u128);
        let since: u128 = if self.last_tick_nanos <= now {
            now - self.last_tick_nanos
        } else {
            0
        };
        proof {
            let b: nat = 1_000_000_000nat;
            assert((since as nat) / b <= u64::MAX) by (nonlinear_arith)
                requires
                    (since as nat) <= (u64::MAX as nat) * b + (b - 1),
                    b == 1_000_000_000nat,
            ;
            assert((since as nat) % b < b) by (nonlinear_arith)
                requires
                    b == 1_000_000_000nat,
            ;
        }
        let since_secs: u64 = (since / 1_000_000_000u128) as u64;
        let since_nanos: u32 = (since % 1_000_000_000u128) as u32;
        let context = TickContext {
            elapsed_since_start: make_duration(elapsed_secs, elapsed_subsec_nanos),
            ticks_since_start: self.ticks_since_start,
            since_last_tick: make_duration(since_secs, since_nanos),
        };
        self.last_tick_nanos = now;
        self.ticks_since_start = self.ticks_since_start + 1;
        context
    }
}

/// The first tick of a service measures from the start: its time since the
/// last tick is its time since the start.
pub proof fn lemma_first_tick_interval_is_elapsed(elapsed_secs: u64, elapsed_subsec_nanos: u32)
    requires
        elapsed_subsec_nanos < NANOS_PER_SECOND,
    ensures
        duration_of_nanos(nanos_between(0, total_nanos(elapsed_secs, elapsed_subsec_nanos)))
            == duration_of(elapsed_secs, elapsed_subsec_nanos),
{
    lemma_duration_of_total_nanos(elapsed_secs, elapsed_subsec_nanos);
}

/// The times between consecutive ticks, starting from `previous`, summed.
pub open spec fn summed_intervals(previous: nat, ticks: Seq<nat>) -> nat
    decreases ticks.len(),
{
    if ticks.len() == 0 {
        0
    } else {
        nanos_between(previous, ticks[0]) + summed_intervals(ticks[0], ticks.drop_first())
    }
}

/// Whether the ticks come no earlier than `previous` and in order.
pub open spec fn ticks_in_order(previous: nat, ticks: Seq<nat>) -> bool {
    &&& forall|i: int| 0 <= i < ticks.len() ==> previous <= #[trigger] ticks[i]
    &&& forall|i: int, j: int| 0 <= i <= j < ticks.len() ==> ticks[i] <= ticks[j]
}

/// When ticks fire in order, the times between them add up to the time from
/// the start to the last tick: no time is lost or counted twice.
pub proof fn lemma_tick_intervals_add_up(previous: nat, ticks: Seq<nat>)
    requires
        ticks.len() > 0,
        ticks_in_order(previous, ticks),
    ensures
        summed_intervals(previous, ticks) == ticks.last() - previous,
    decreases ticks.len(),
{
    if ticks.len() > 1 {
        let rest = ticks.drop_first();
        assert(ticks_in_order(ticks[0], rest)) by {
            assert forall|i: int| 0 <= i < rest.len() implies ticks[0] <= #[trigger] rest[i] by {
                assert(rest[i] == ticks[i + 1]);
            }
            assert forall|i: int, j: int| 0 <= i <= j < rest.len() implies rest[i] <= rest[j] by {
                assert(rest[i] == ticks[i + 1] && rest[j] == ticks[j + 1]);
            }
        }
        lemma_tick_intervals_add_up(ticks[0], rest);
        assert(rest.last() == ticks.last());
        assert(previous <= ticks[0]);
        assert(summed_intervals(previous, ticks) == nanos_between(previous, ticks[0])
            + summed_intervals(ticks[0], rest));
    } else {
        assert(previous <= ticks[0]);
        assert(summed_intervals(ticks[0], ticks.drop_first()) == 0);
        assert(ticks.last() == ticks[0]);
    }
}

/// When the `k`-th tick of a run fired, in nanoseconds after the start.
pub open spec fn tick_nanos(ticks: Seq<(u64, u32)>, k: int) -> nat {
    total_nanos(ticks[k].0, ticks[k].1)
}

/// When the tick before the `k`-th fired; the start, for the first.
pub open spec fn previous_tick_nanos(ticks: Seq<(u64, u32)>, k: int) -> nat {
    if k == 0 {
        0
    } else {
        tick_nanos(ticks, k - 1)
    }
}

/// Whether `clocks` and `contexts` are what recording the ticks `ticks` (each
/// as seconds and nanoseconds after the start) one after the other gives,
/// from a new clock.
pub open spec fn is_tick_run(
    clocks: Seq<TickClock>,
    ticks: Seq<(u64, u32)>,
    contexts: Seq<TickContext>,
) -> bool {
    &&& clocks.len() == ticks.len() + 1
    &&& contexts.len() == ticks.len()
    &&& clocks[0].spec_ticks() == 0
    &&& clocks[0].spec_last_tick_nanos() == 0
    &&& forall|k: int|
        0 <= k < ticks.len() ==> #[trigger] records_tick(
            clocks[k],
            ticks[k].0,
            ticks[k].1,
            contexts[k],
            clocks[k + 1],
        )
}

/// The clock of a run after `k` ticks.
proof fn lemma_tick_run_clock(
    clocks: Seq<TickClock>,
    ticks: Seq<(u64, u32)>,
    contexts: Seq<TickContext>,
    k: int,
)
    requires
        is_tick_run(clocks, ticks, contexts),
        0 <= k <= ticks.len(),
    ensures
        clocks[k].spec_ticks() == k,
        clocks[k].spec_last_tick_nanos() == previous_tick_nanos(ticks, k),
    decreases k,
{
    if k > 0 {
        lemma_tick_run_clock(clocks, ticks, contexts, k - 1);
        let j: int = k - 1;
        assert(records_tick(clocks[j], ticks[j].0, ticks[j].1, contexts[j], clocks[j + 1]));
    }
}

/// Over a whole run of a periodic service, the `k`-th tick's context counts
/// `k` earlier ticks, gives the tick's time since the start, and the time
/// since the tick before it (since the start, for the first).
pub proof fn lemma_tick_run_contexts(
    clocks: Seq<TickClock>,
    ticks: Seq<(u64, u32)>,
    contexts: Seq<TickContext>,
)
    requires
        is_tick_run(clocks, ticks, contexts),
    ensures
        clocks.last().spec_ticks() == ticks.len(),
        forall|k: int|
            0 <= k < ticks.len() ==> (#[trigger] contexts[k]).ticks_since_start == k
                && contexts[k].elapsed_since_start == duration_of(ticks[k].0, ticks[k].1)
                && contexts[k].since_last_tick == duration_of_nanos(
                nanos_between(previous_tick_nanos(ticks, k), tick_nanos(ticks, k)),
            ),
{
    lemma_tick_run_clock(clocks, ticks, contexts, ticks.len() as int);
    assert forall|k: int| 0 <= k < ticks.len() implies (#[trigger] contexts[k]).ticks_since_start
        == k && contexts[k].elapsed_since_start == duration_of(ticks[k].0, ticks[k].1)
        && contexts[k].since_last_tick == duration_of_nanos(
        nanos_between(previous_tick_nanos(ticks, k), tick_nanos(ticks, k)),
    ) by {
        lemma_tick_run_clock(clocks, ticks, contexts, k);
        assert(records_tick(clocks[k], ticks[k].0, ticks[k].1, contexts[k], clocks[k + 1]));
    }
}

/// When the ticks of a run fire in order (the runtime's clock does not go
/// back), the `k`-th context's time since the last tick is exactly its time
/// since the start less that of the tick before (less nothing, for the first).
pub proof fn lemma_ordered_tick_run_contexts(
    clocks: Seq<TickClock>,
    ticks: Seq<(u64, u32)>,
    contexts: Seq<TickContext>,
)
    requires
        is_tick_run(clocks, ticks, contexts),
        forall|k: int| 0 < k < ticks.len() ==> tick_nanos(ticks, k - 1) <= #[trigger] tick_nanos(ticks, k),
    ensures
        forall|k: int|
            0 <= k < ticks.len() ==> (#[trigger] contexts[k]).since_last_tick == duration_of_nanos(
                (tick_nanos(ticks, k) - previous_tick_nanos(ticks, k)) as nat,
            ),
{
    lemma_tick_run_contexts(clocks, ticks, contexts);
    assert forall|k: int| 0 <= k < ticks.len() implies (#[trigger] contexts[k]).since_last_tick
        == duration_of_nanos((tick_nanos(ticks, k) - previous_tick_nanos(ticks, k)) as nat) by {
        if k > 0 {
            assert(tick_nanos(ticks, k - 1) <= tick_nanos(ticks, k));
        }
    }
}

/// When the ticks of a run fire on a regular schedule, `first` after the start
/// and then every `interval`, the `k`-th context gives `first + k * interval`
/// since the start, and `first` (for the first tick) or `interval` since the
/// tick before.
pub proof fn lemma_regular_tick_contexts(
    clocks: Seq<TickClock>,
    ticks: Seq<(u64, u32)>,
    contexts: Seq<TickContext>,
    first: nat,
    interval: nat,
)
    requires
        is_tick_run(clocks, ticks, contexts),
        forall|k: int| 0 <= k < ticks.len() ==> (#[trigger] ticks[k]).1 < NANOS_PER_SECOND,
        forall|k: int| 0 <= k < ticks.len() ==> #[trigger] tick_nanos(ticks, k) == first + k * interval,
    ensures
        forall|k: int|
            0 <= k < ticks.len() ==> (#[trigger] contexts[k]).ticks_since_start == k
                && contexts[k].elapsed_since_start == duration_of_nanos((first + k * interval) as nat)
                && contexts[k].since_last_tick == duration_of_nanos(
                if k == 0 {
                    first
                } else {
                    interval
                },
            ),
{
    lemma_tick_run_contexts(clocks, ticks, contexts);
    assert forall|k: int| 0 <= k < ticks.len() implies (#[trigger] contexts[k]).ticks_since_start
        == k && contexts[k].elapsed_since_start == duration_of_nanos((first + k * interval) as nat)
        && contexts[k].since_last_tick == duration_of_nanos(
        if k == 0 {
            first
        } else {
            interval
        },
    ) by {
        assert(ticks[k].1 < NANOS_PER_SECOND);
        lemma_duration_of_total_nanos(ticks[k].0, ticks[k].1);
        assert(tick_nanos(ticks, k) == first + k * interval);
        if k > 0 {
            assert(tick_nanos(ticks, k - 1) == first + (k - 1) * interval);
            assert(first + k * interval - (first + (k - 1) * interval) == interval) by (nonlinear_arith);
            assert(first + (k - 1) * interval <= first + k * interval) by (nonlinear_arith)
                requires
                    k > 0,
            ;
        }
    }
}

/// What happened in one round of a periodic service.
pub enum TickerEvent {
    /// The cancellation token fired while waiting for the next tick.
    Cancelled,
    /// The tick's handler returned.
    TickHandled(Result<(), anyhow::Error>),
    /// The tick's handler ran past the tick time limit and was dropped.
    TickTimedOut,
}

/// What a periodic service does after a round.
pub enum TickerStep {
    /// Wait for the next tick.
    AwaitNextTick,
    /// Stop, returning this result from the service's run.
    Stop(Result<(), anyhow::Error>),
}

/// The step that a round leads to.
pub open spec fn ticker_step_for(event: TickerEvent) -> TickerStep {
    match event {
        TickerEvent::Cancelled => TickerStep::Stop(Ok(())),
        TickerEvent::TickHandled(Ok(())) => TickerStep::AwaitNextTick,
        TickerEvent::TickHandled(Err(error)) => TickerStep::Stop(Err(error)),
        TickerEvent::TickTimedOut => TickerStep::AwaitNextTick,
    }
}

/// Decides how a periodic service goes on: cancellation ends it with `Ok`, a
/// handler error ends it with that error, and a handled or timed-out tick
/// leads to the next tick.
pub fn ticker_step(event: TickerEvent) -> (step: TickerStep)
    ensures
        step == ticker_step_for(event),
{
    match event {
        TickerEvent::Cancelled => TickerStep::Stop(Ok(())),
        TickerEvent::TickHandled(Ok(())) => TickerStep::AwaitNextTick,
        TickerEvent::TickHandled(Err(error)) => TickerStep::Stop(Err(error)),
        TickerEvent::TickTimedOut => TickerStep::AwaitNextTick,
    }
}

} // verus!
