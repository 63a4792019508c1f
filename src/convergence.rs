use vstd::prelude::*;

verus! {

pub const INITIAL_DELAY_MS: u64 = 20;

pub const MAX_DELAY_MS: u64 = 200;

/// The retry delay of the convergence loop: it starts at 20 ms, doubles
/// after every round trip that delivered no event, and never exceeds
/// 200 ms. It is never reset.
#[derive(Clone, Copy, Debug, PartialEq, Eq, Structural)]
pub struct Backoff {
    pub delay_ms: u64,
    pub round_trips: u64,
}

/// What the loop does next.
#[derive(Clone, Copy, Debug, PartialEq, Eq, Structural)]
pub enum Action {
    /// Every needed class is complete: stop.
    Finish,
    /// Run one blocking round trip and report how many events it dispatched.
    RoundTrip,
}

pub open spec fn next_delay(delay: u64, events: u64) -> u64 {
    if events > 0 {
        delay
    } else if 2 * delay <= MAX_DELAY_MS {
        (2 * delay) as u64
    } else {
        MAX_DELAY_MS
    }
}

impl Backoff {
    pub open spec fn wf(&self) -> bool {
        INITIAL_DELAY_MS <= self.delay_ms <= MAX_DELAY_MS
    }

    pub fn new() -> (r: Backoff)
        ensures
            r.delay_ms == INITIAL_DELAY_MS,
            r.round_trips == 0,
            r.wf(),
    {
        Backoff { delay_ms: INITIAL_DELAY_MS, round_trips: 0 }
    }

    /// Decides the next step from whether the store is ready.
    pub fn decide(&self, ready: bool) -> (r: Action)
        ensures
            r == (if ready { Action::Finish } else { Action::RoundTrip }),
    {
        if ready {
            Action::Finish
        } else {
            Action::RoundTrip
        }
    }

    /// Records a round trip that dispatched `events` events. Returns how long
    /// to sleep before the next one: the current delay when nothing arrived,
    /// none otherwise.
    pub fn after_round_trip(&mut self, events: u64) -> (sleep_ms: Option<u64>)
        requires
            old(self).wf(),
        ensures
            final(self).wf(),
            final(self).delay_ms == next_delay(old(self).delay_ms, events),
            old(self).delay_ms <= final(self).delay_ms,
            final(self).round_trips == (if old(self).round_trips < u64::MAX {
                old(self).round_trips + 1
            } else {
                old(self).round_trips as int
            }),
            sleep_ms == (if events == 0 { Some(old(self).delay_ms) } else { None }),
    {
        if self.round_trips < u64::MAX {
            self.round_trips = self.round_trips + 1;
        }
        if events == 0 {
            let slept = self.delay_ms;
            self.delay_ms = if self.delay_ms <= MAX_DELAY_MS / 2 {
                2 * self.delay_ms
            } else {
                MAX_DELAY_MS
            };
            Some(slept)
        } else {
            None
        }
    }
}

} // verus!
