use vstd::prelude::*;

verus! {

/// Milliseconds from `start` to `now`; zero when `now` is earlier.
pub open spec fn elapsed_ms(start: u64, now: u64) -> nat {
    if now >= start {
        (now - start) as nat
    } else {
        0
    }
}

pub fn elapsed_since(start: u64, now: u64) -> (r: u64)
    ensures
        r == elapsed_ms(start, now),
{
    if now >= start {
        now - start
    } else {
        0
    }
}

/// A span of `duration` milliseconds that starts at a given time.
#[derive(Debug, Clone, Copy)]
pub struct TimingWindow {
    start_time: u64,
    duration: u64,
}

impl TimingWindow {
    pub closed spec fn start(&self) -> u64 {
        self.start_time
    }

    pub closed spec fn length(&self) -> u64 {
        self.duration
    }

    /// A window of `duration_ms` milliseconds that starts at `now`.
    pub fn new(duration_ms: u64, now: u64) -> (r: TimingWindow)
        ensures
            r.start() == now,
            r.length() == duration_ms,
    {
        TimingWindow { start_time: now, duration: duration_ms }
    }

    /// Starts the window again at `now`.
    pub fn reset(&mut self, now: u64)
        ensures
            final(self).start() == now,
            final(self).length() == old(self).length(),
    {
        self.start_time = now;
    }

    /// More than the window's length has passed since its start.
    pub fn is_expired(&self, now: u64) -> (r: bool)
        ensures
            r == (elapsed_ms(self.start(), now) > self.length()),
    {
        elapsed_since(self.start_time, now) > self.duration
    }

    /// What is left of the window at `now`, in milliseconds; zero once it
    /// has expired.
    pub fn remaining_ms(&self, now: u64) -> (r: u64)
        ensures
            r == (if elapsed_ms(self.start(), now) > self.length() {
                0
            } else {
                self.length() - elapsed_ms(self.start(), now)
            }),
    {
        let elapsed = elapsed_since(self.start_time, now);
        if elapsed > self.duration {
            return 0;
        }
        self.duration - elapsed
    }
}

} // verus!
