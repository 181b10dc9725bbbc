use std::time::Duration;

use apex_windows::{EventStream, MissedTicks, PlayerEvent};
use tokio::runtime::{Builder, Runtime};
use tokio::time::{interval, sleep, Instant, Interval, MissedTickBehavior};

/// A runtime whose clock stands still while a task runs and jumps to the next
/// deadline when every task waits.
fn runtime() -> Runtime {
    Builder::new_current_thread().enable_time().start_paused(true).build().unwrap()
}

fn timer_of(stream: &EventStream) -> Interval {
    let plan = stream.plan();
    let mut timer = interval(Duration::from_millis(plan.period_millis));
    timer.set_missed_tick_behavior(match plan.missed_ticks {
        MissedTicks::Burst => MissedTickBehavior::Burst,
        MissedTicks::Delay => MissedTickBehavior::Delay,
        MissedTicks::Skip => MissedTickBehavior::Skip,
    });
    timer
}

#[test]
fn a_second_of_waiting_gives_ten_timer_events() {
    runtime().block_on(async {
        let stream = EventStream::new();
        let mut timer = timer_of(&stream);
        let start = Instant::now();
        let mut events = Vec::new();
        loop {
            timer.tick().await;
            if start.elapsed() >= Duration::from_secs(1) {
                break;
            }
            events.push(stream.on_tick());
        }
        assert_eq!(events, vec![PlayerEvent::Timer; 10]);
    });
}

#[test]
fn the_events_come_a_tenth_of_a_second_apart() {
    runtime().block_on(async {
        let stream = EventStream::new();
        let mut timer = timer_of(&stream);
        let start = Instant::now();
        for tick in 0..5u64 {
            timer.tick().await;
            assert_eq!(stream.on_tick(), PlayerEvent::Timer);
            assert_eq!(start.elapsed(), Duration::from_millis(100 * tick));
        }
    });
}

#[test]
fn a_slow_consumer_meets_no_backlog() {
    runtime().block_on(async {
        let stream = EventStream::new();
        let mut timer = timer_of(&stream);
        let start = Instant::now();
        timer.tick().await;
        assert_eq!(start.elapsed(), Duration::from_millis(0));
        // Three ticks come due while the consumer is busy.
        sleep(Duration::from_millis(350)).await;
        timer.tick().await;
        assert_eq!(start.elapsed(), Duration::from_millis(350));
        // The ticks that were missed are gone: the next one waits for the
        // next boundary of the schedule.
        timer.tick().await;
        assert_eq!(start.elapsed(), Duration::from_millis(400));
        timer.tick().await;
        assert_eq!(start.elapsed(), Duration::from_millis(500));
    });
}

#[test]
fn a_slow_consumer_gets_one_event_for_each_time_it_wakes() {
    runtime().block_on(async {
        let stream = EventStream::new();
        let mut timer = timer_of(&stream);
        let start = Instant::now();
        let mut events = 0;
        while start.elapsed() < Duration::from_secs(1) {
            timer.tick().await;
            assert_eq!(stream.on_tick(), PlayerEvent::Timer);
            events += 1;
            sleep(Duration::from_millis(250)).await;
        }
        // Woken at 0, 250, 500 and 750 ms; ten ticks were scheduled.
        assert_eq!(events, 4);
    });
}
