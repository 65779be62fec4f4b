//! The fixed-window packet counter kept for each sender.

use vstd::prelude::*;

verus! {

/// Length of one observation window, in nanoseconds.
pub const WINDOW: u64 = 1_000_000_000;

/// Packets a sender may deliver within one window before it is blocked.
pub const THRESHOLD: u32 = 500;

/// The two numbers that fix a deployment's rate limit.
#[derive(Clone, Copy, Debug, PartialEq, Eq, Structural)]
pub struct Policy {
    /// Window length in nanoseconds.
    pub window: u64,
    /// Highest packet count per window that does not block the sender.
    pub threshold: u32,
}

impl Policy {
    /// The policy of the stock deployment: one second, five hundred packets.
    pub fn standard() -> (p: Policy)
        ensures
            p == (Policy { window: WINDOW, threshold: THRESHOLD }),
    {
        Policy { window: WINDOW, threshold: THRESHOLD }
    }
}

/// What a tracker table stores for one sender.
#[derive(Clone, Copy, Debug, PartialEq, Eq, Structural)]
pub struct RateLimit {
    /// Monotonic time, in nanoseconds, at which the current window opened.
    pub last_update: u64,
    /// Packets seen since the window opened.
    pub packet_count: u32,
}

/// What one observation did to a sender's counter.
#[derive(Clone, Copy, Debug, PartialEq, Eq, Structural)]
pub struct Observation {
    /// The counter to store for the sender.
    pub entry: RateLimit,
    /// Whether the sender has now exceeded the threshold and is to be blocked.
    pub block: bool,
}

impl RateLimit {
    /// The counter of a sender first seen at `now`.
    pub fn new(now: u64) -> (r: RateLimit)
        ensures
            r == (RateLimit { last_update: now, packet_count: 1 }),
    {
        RateLimit { last_update: now, packet_count: 1 }
    }

    /// Whether `now` still falls into the window that opened at `last_update`.
    /// A clock reading older than `last_update` counts as outside.
    pub open spec fn in_window(self, now: u64, window: u64) -> bool {
        self.last_update <= now && now - self.last_update < window
    }

    /// The count after one more packet; it stops at the largest `u32`.
    pub open spec fn bumped(self) -> u32 {
        if self.packet_count < u32::MAX {
            (self.packet_count + 1) as u32
        } else {
            self.packet_count
        }
    }

    /// The counter after a packet observed at `now`.
    pub open spec fn after(self, now: u64, policy: Policy) -> RateLimit {
        if self.in_window(now, policy.window) {
            RateLimit { last_update: self.last_update, packet_count: self.bumped() }
        } else {
            RateLimit { last_update: now, packet_count: 1 }
        }
    }

    /// Whether a packet observed at `now` takes the sender over the threshold.
    pub open spec fn exceeds(self, now: u64, policy: Policy) -> bool {
        self.in_window(now, policy.window) && self.bumped() > policy.threshold
    }

    /// Counts one packet at `now`: inside the window the count goes up by one,
    /// and the sender is to be blocked once the new count is above the
    /// threshold; outside it the window reopens at `now` with a count of one.
    pub fn observe(self, now: u64, policy: Policy) -> (o: Observation)
        ensures
            o.entry == self.after(now, policy),
            o.block == self.exceeds(now, policy),
    {
        if self.last_update <= now && now - self.last_update < policy.window {
            let count: u32 = if self.packet_count < u32::MAX {
                self.packet_count + 1
            } else {
                self.packet_count
            };
            Observation {
                entry: RateLimit { last_update: self.last_update, packet_count: count },
                block: count > policy.threshold,
            }
        } else {
            Observation { entry: RateLimit::new(now), block: false }
        }
    }
}

/// The counter to store after a packet at `now`, given what the table held.
pub open spec fn counted(entry: Option<RateLimit>, now: u64, policy: Policy) -> RateLimit {
    match entry {
        Some(e) => e.after(now, policy),
        None => RateLimit { last_update: now, packet_count: 1 },
    }
}

/// Whether a packet at `now` blocks its sender, given what the table held.
pub open spec fn blocked_by(entry: Option<RateLimit>, now: u64, policy: Policy) -> bool {
    match entry {
        Some(e) => e.exceeds(now, policy),
        None => false,
    }
}

/// One step of the rate limiter for a sender whose stored counter is `entry`.
pub fn rate_limit_step(entry: Option<RateLimit>, now: u64, policy: Policy) -> (o: Observation)
    ensures
        o.entry == counted(entry, now, policy),
        o.block == blocked_by(entry, now, policy),
{
    match entry {
        Some(e) => e.observe(now, policy),
        None => Observation { entry: RateLimit::new(now), block: false },
    }
}

} // verus!
