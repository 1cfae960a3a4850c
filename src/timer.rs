//! A repeating timer that sets the pace of the greetings.
use vstd::prelude::*;
use bevy::time::{Timer, TimerMode};
use std::time::Duration;

verus! {

/// The time a repeating timer of period `period`, holding `elapsed`, holds
/// after it advances by `delta`: whole periods are taken out once the period
/// is reached, and a zero period keeps nothing.
pub open spec fn repeating_timer_elapsed(period: int, elapsed: int, delta: int) -> int {
    if elapsed + delta < period {
        elapsed + delta
    } else if period == 0 {
        0
    } else {
        (elapsed + delta) % period
    }
}

/// The time a greeting timer holds after it advances by `delta`: the sum,
/// or nothing once the sum reaches the period and the timer fires.
pub open spec fn tick_elapsed(period: int, elapsed: int, delta: int) -> int {
    if elapsed + delta < period {
        elapsed + delta
    } else {
        0
    }
}

/// Relies on bevy's `Timer::tick`, on a repeating timer of period
/// `period_ns` (`Timer::new`) that holds `elapsed_ns` (`Timer::set_elapsed`):
/// after a tick of `delta_ns` it is finished (`Timer::finished`) exactly when
/// the sum reaches the period, and then keeps (`Timer::elapsed`) the
/// remainder of the sum by the period, nothing for a zero period. A new timer
/// is not paused, and the sum stays far below what a `Duration` can hold.
#[verifier::external_body]
fn repeating_tick(period_ns: u64, elapsed_ns: u64, delta_ns: u64) -> (r: (u64, bool))
    ensures
        r.1 == (elapsed_ns + delta_ns >= period_ns),
        r.0 == repeating_timer_elapsed(period_ns as int, elapsed_ns as int, delta_ns as int),
{
    let mut timer = Timer::new(Duration::from_nanos(period_ns), TimerMode::Repeating);
    timer.set_elapsed(Duration::from_nanos(elapsed_ns));
    timer.tick(Duration::from_nanos(delta_ns));
    (timer.elapsed().as_nanos() as u64, timer.finished())
}

/// A repeating timer, in nanoseconds: it fires each time the time fed to it
/// reaches its period, and never stops.
pub struct GreetTimer {
    period_ns: u64,
    elapsed_ns: u64,
}

impl GreetTimer {
    pub closed spec fn period(&self) -> nat {
        self.period_ns as nat
    }

    pub closed spec fn elapsed(&self) -> nat {
        self.elapsed_ns as nat
    }

    /// A timer of period `period_ns` that has accumulated nothing.
    pub fn new(period_ns: u64) -> (r: GreetTimer)
        ensures
            r.period() == period_ns,
            r.elapsed() == 0,
    {
        GreetTimer { period_ns, elapsed_ns: 0 }
    }

    /// The period.
    pub fn period_ns(&self) -> (r: u64)
        ensures
            r == self.period(),
    {
        self.period_ns
    }

    /// The time accumulated since the timer last fired.
    pub fn elapsed_ns(&self) -> (r: u64)
        ensures
            r == self.elapsed(),
    {
        self.elapsed_ns
    }

    /// Adds `delta_ns` to the accumulated time and tells whether that reached
    /// the period; when it did, the accumulated time is reset to nothing.
    pub fn tick(&mut self, delta_ns: u64) -> (fired: bool)
        ensures
            fired == (old(self).elapsed() + delta_ns >= old(self).period()),
            final(self).period() == old(self).period(),
            final(self).elapsed() == tick_elapsed(
                old(self).period() as int,
                old(self).elapsed() as int,
                delta_ns as int,
            ),
    {
        let (elapsed_ns, fired) = repeating_tick(self.period_ns, self.elapsed_ns, delta_ns);
        self.elapsed_ns = if fired {
            0
        } else {
            elapsed_ns
        };
        fired
    }
}

} // verus!
