use std::time::Duration;

use trzcina::tick_context::first_tick_delay;
use trzcina::tick_context::ticker_step;
use trzcina::tick_context::FirstTickTiming;
use trzcina::tick_context::TickClock;
use trzcina::tick_context::TickContext;
use trzcina::tick_context::TickerEvent;
use trzcina::tick_context::TickerStep;

fn record(clock: &mut TickClock, elapsed: Duration) -> TickContext {
    clock.record_tick(elapsed.as_secs(), elapsed.subsec_nanos())
}

#[test]
fn clock_gives_contexts_for_ticks_one_interval_apart() {
    let tick_interval = Duration::from_secs(1);
    let mut clock = TickClock::new();
    let delay = first_tick_delay(FirstTickTiming::Immediate, tick_interval);

    let first_tick_context = record(&mut clock, delay);
    let second_tick_context = record(&mut clock, delay + tick_interval);
    let third_tick_context = record(&mut clock, delay + tick_interval * 2);
    assert!(matches!(ticker_step(TickerEvent::Cancelled), TickerStep::Stop(Ok(()))));

    assert_eq!(
        first_tick_context,
        TickContext {
            elapsed_since_start: Duration::ZERO,
            ticks_since_start: 0,
            since_last_tick: Duration::ZERO,
        }
    );
    assert_eq!(
        second_tick_context,
        TickContext {
            elapsed_since_start: tick_interval,
            ticks_since_start: 1,
            since_last_tick: tick_interval,
        }
    );
    assert_eq!(
        third_tick_context,
        TickContext {
            elapsed_since_start: tick_interval * 2,
            ticks_since_start: 2,
            since_last_tick: tick_interval,
        }
    );
}

#[test]
fn first_tick_after_interval_is_delayed_by_one_interval() {
    let tick_interval = Duration::from_secs(1);
    let mut clock = TickClock::new();
    let delay = first_tick_delay(FirstTickTiming::AfterInterval, tick_interval);
    assert_eq!(delay, tick_interval);

    let first_tick_context = record(&mut clock, delay);

    assert_eq!(
        first_tick_context,
        TickContext {
            elapsed_since_start: tick_interval,
            ticks_since_start: 0,
            since_last_tick: tick_interval,
        }
    );
}

#[test]
fn ticker_step_stops_with_handler_error() {
    let step = ticker_step(TickerEvent::TickHandled(Err(anyhow::Error::msg("handle_tick failed"))));
    match step {
        TickerStep::Stop(Err(error)) => assert_eq!(error.to_string(), "handle_tick failed"),
        _ => panic!("a handler error must stop the ticker with that error"),
    }
}

#[test]
fn ticker_step_skips_timed_out_tick() {
    let mut clock = TickClock::new();
    let first = record(&mut clock, Duration::ZERO);
    assert_eq!(first.ticks_since_start, 0);
    assert!(matches!(ticker_step(TickerEvent::TickTimedOut), TickerStep::AwaitNextTick));
    let first_recorded_tick = record(&mut clock, Duration::from_millis(10));
    assert_eq!(first_recorded_tick.ticks_since_start, 1);
}

#[test]
fn handled_tick_leads_to_next_tick() {
    assert!(matches!(ticker_step(TickerEvent::TickHandled(Ok(()))), TickerStep::AwaitNextTick));
}

#[test]
fn intervals_between_uneven_ticks_add_up_to_elapsed() {
    let mut clock = TickClock::new();
    let offsets = [
        Duration::from_millis(3),
        Duration::new(1, 999_999_999),
        Duration::new(2, 1),
        Duration::from_secs(7),
    ];
    let mut total = Duration::ZERO;
    for offset in offsets {
        let context = record(&mut clock, offset);
        assert_eq!(context.elapsed_since_start, offset);
        total += context.since_last_tick;
    }
    assert_eq!(total, Duration::from_secs(7));
    assert_eq!(clock.ticks_recorded(), 4);
}

#[test]
fn tick_earlier_than_the_last_has_no_interval() {
    let mut clock = TickClock::new();
    record(&mut clock, Duration::from_secs(5));
    let context = record(&mut clock, Duration::from_secs(4));
    assert_eq!(context.since_last_tick, Duration::ZERO);
    assert_eq!(context.elapsed_since_start, Duration::from_secs(4));
}

#[test]
fn largest_elapsed_time_is_recorded() {
    let mut clock = TickClock::new();
    let context = record(&mut clock, Duration::MAX);
    assert_eq!(context.elapsed_since_start, Duration::MAX);
    assert_eq!(context.since_last_tick, Duration::MAX);
}
