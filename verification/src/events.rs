//! The tick events that tell a consumer when to query again.
//!
//! The backend does not watch the platform for changes. It asks the host for
//! a timer of a fixed period and turns each wake-up of that timer into one
//! event, which says nothing about what changed, if anything did.

use vstd::prelude::*;

verus! {

/// The time between two ticks, in milliseconds.
pub const TICK_PERIOD_MILLIS: u64 = 100;

/// An event of the player.
#[derive(Clone, Copy, Debug, PartialEq, Eq, Structural)]
pub enum PlayerEvent {
    /// The timer ticked: the state of the player may have changed.
    Timer,
}

/// What a timer does about ticks that came due while nobody was waiting.
#[derive(Clone, Copy, Debug, PartialEq, Eq, Structural)]
pub enum MissedTicks {
    /// Fire the missed ticks one right after the other until caught up.
    Burst,
    /// Fire once and count the period anew from then on.
    Delay,
    /// Drop the missed ticks and fire next at the next boundary of the
    /// schedule.
    Skip,
}

/// The timer that the host is to set up for an event stream.
#[derive(Clone, Copy, Debug, PartialEq, Eq, Structural)]
pub struct TimerPlan {
    pub period_millis: u64,
    pub missed_ticks: MissedTicks,
}

/// The timer of every event stream: a tick each tenth of a second, late
/// ticks dropped, so that a slow consumer never meets a backlog.
pub open spec fn tick_plan() -> TimerPlan {
    TimerPlan { period_millis: TICK_PERIOD_MILLIS, missed_ticks: MissedTicks::Skip }
}

/// An endless stream of tick events, driven by the wake-ups of the host's
/// timer. It ends when the consumer stops asking; nothing else stops it.
#[derive(Clone, Copy, Debug, PartialEq, Eq, Structural)]
pub struct EventStream {
    plan: TimerPlan,
}

impl EventStream {
    /// The timer that drives the stream.
    pub closed spec fn timer(self) -> TimerPlan {
        self.plan
    }

    /// A stream that has not yet yielded anything.
    pub fn new() -> (stream: EventStream)
        ensures
            stream.timer() == tick_plan(),
    {
        EventStream {
            plan: TimerPlan { period_millis: TICK_PERIOD_MILLIS, missed_ticks: MissedTicks::Skip },
        }
    }

    /// The timer that the host is to set up.
    pub fn plan(&self) -> (plan: TimerPlan)
        ensures
            plan == self.timer(),
    {
        self.plan
    }

    /// The event for one wake-up of the timer: always exactly one, however
    /// many ticks were due since the wake-up before.
    pub fn on_tick(&self) -> (event: PlayerEvent)
        ensures
            event == PlayerEvent::Timer,
    {
        PlayerEvent::Timer
    }
}

} // verus!
