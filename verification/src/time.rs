//! Frame timing. Instants and durations are counted in nanoseconds; the
//! caller reads the clock.

use vstd::prelude::*;

verus! {

/// How long the last frame took.
#[derive(Clone, Copy, Debug)]
pub struct Time {
    startup: u64,
    first_update: Option<u64>,
    last_update: Option<u64>,
    delta: u64,
    raw_delta: u64,
}

/// What a [`Time`] holds.
pub struct TimeView {
    /// When the clock was set up.
    pub startup: u64,
    /// When the first update came, if one has.
    pub first_update: Option<u64>,
    /// When the latest update came, if one has.
    pub last_update: Option<u64>,
    /// The time between the latest two updates, as the scene is to see it.
    pub delta: u64,
    /// The time between the latest two updates, as it was.
    pub raw_delta: u64,
}

/// The time that passed from `earlier` to `now`; none where the clock went
/// backwards.
pub open spec fn elapsed(earlier: u64, now: u64) -> u64 {
    if now >= earlier {
        (now - earlier) as u64
    } else {
        0
    }
}

/// The clock after an update at `now`. The first update only marks the
/// time; every later one measures the time since the one before.
pub open spec fn ticked(time: TimeView, now: u64) -> TimeView {
    match time.last_update {
        Some(last) => TimeView {
            last_update: Some(now),
            delta: elapsed(last, now),
            raw_delta: elapsed(last, now),
            ..time
        },
        None => TimeView { first_update: Some(now), last_update: Some(now), ..time },
    }
}

impl View for Time {
    type V = TimeView;

    closed spec fn view(&self) -> TimeView {
        TimeView {
            startup: self.startup,
            first_update: self.first_update,
            last_update: self.last_update,
            delta: self.delta,
            raw_delta: self.raw_delta,
        }
    }
}

impl Time {
    /// A clock set up at `now` that has seen no update.
    pub fn new(now: u64) -> (time: Time)
        ensures
            time@ == (TimeView {
                startup: now,
                first_update: None,
                last_update: None,
                delta: 0,
                raw_delta: 0,
            }),
    {
        Time { startup: now, first_update: None, last_update: None, delta: 0, raw_delta: 0 }
    }

    /// Records that a frame starts at `now`.
    pub fn update(&mut self, now: u64)
        ensures
            final(self)@ == ticked(old(self)@, now),
    {
        match self.last_update {
            Some(last) => {
                let raw_delta = if now >= last {
                    now - last
                } else {
                    0
                };
                self.delta = raw_delta;
                self.raw_delta = raw_delta;
            },
            None => {
                self.first_update = Some(now);
            },
        }
        self.last_update = Some(now);
    }

    /// The time between the latest two updates, as the scene is to see it.
    pub fn delta(&self) -> (delta: u64)
        ensures
            delta == self@.delta,
    {
        self.delta
    }

    /// The time between the latest two updates, as it was.
    pub fn raw_delta(&self) -> (delta: u64)
        ensures
            delta == self@.raw_delta,
    {
        self.raw_delta
    }

    /// When the clock was set up.
    pub fn startup(&self) -> (startup: u64)
        ensures
            startup == self@.startup,
    {
        self.startup
    }

    /// When the first update came, if one has.
    pub fn first_update(&self) -> (first: Option<u64>)
        ensures
            first == self@.first_update,
    {
        self.first_update
    }

    /// When the latest update came, if one has.
    pub fn last_update(&self) -> (last: Option<u64>)
        ensures
            last == self@.last_update,
    {
        self.last_update
    }
}

/// The nanoseconds in a second.
pub const SECOND: u64 = 1_000_000_000;

/// The time a frame may take at `swap_interval` frames a second. A negative
/// rate leaves no time at all.
pub open spec fn frame_budget(swap_interval: i32) -> u64 {
    if swap_interval > 0 {
        (SECOND / (swap_interval as u64)) as u64
    } else {
        0
    }
}

/// How long to wait at the end of a frame that took `spent`: what is left
/// of the frame's budget, and nothing where the frame overran it.
pub open spec fn frame_rest(swap_interval: i32, spent: u64) -> u64 {
    if frame_budget(swap_interval) > spent {
        (frame_budget(swap_interval) - spent) as u64
    } else {
        0
    }
}

/// How many nanoseconds to sleep at the end of a frame that took `spent`
/// nanoseconds, to hold `swap_interval` frames a second.
pub fn frame_sleep(swap_interval: i32, spent: u64) -> (rest: u64)
    requires
        swap_interval != 0,
    ensures
        rest == frame_rest(swap_interval, spent),
{
    let budget: u64 = if swap_interval > 0 {
        SECOND / (swap_interval as u64)
    } else {
        0
    };
    if budget > spent {
        budget - spent
    } else {
        0
    }
}

} // verus!
