use vstd::prelude::*;

verus! {

/// Time elapsed from `from` to `to`, in milliseconds; zero when `to` is earlier.
pub open spec fn since(to: u64, from: u64) -> int {
    if to >= from {
        to - from
    } else {
        0
    }
}

/// `a + b`, saturating at the largest `u64`.
pub open spec fn sat_add(a: u64, b: int) -> u64 {
    if a + b > u64::MAX {
        u64::MAX
    } else {
        (a + b) as u64
    }
}

/// Splits active typing into sessions separated by silences longer than a
/// timeout, and accumulates the time spent inside sessions.
///
/// All instants are milliseconds on one monotonic clock.
#[derive(Clone, Copy, Debug, PartialEq, Eq, Structural)]
pub struct TypingTracker {
    /// Longest silence, in seconds, that still belongs to a session.
    pub timeout_seconds: u64,
    /// Time folded into the total so far, in milliseconds.
    pub accumulated_ms: u64,
    /// Start of the open session, if any.
    pub session_start: Option<u64>,
    /// Instant of the latest edit.
    pub last_activity: u64,
}

impl TypingTracker {
    /// Whether a silence of `gap_ms` milliseconds outlasts the timeout.
    pub open spec fn spec_exceeds(&self, gap_ms: int) -> bool {
        gap_ms > self.timeout_seconds * 1000
    }

    /// The tracker after an edit at `now`.
    pub open spec fn after_edit(self, now: u64) -> TypingTracker {
        let opens = self.session_start.is_none() || self.spec_exceeds(since(now, self.last_activity));
        TypingTracker {
            session_start: if opens { Some(now) } else { self.session_start },
            last_activity: now,
            ..self
        }
    }

    /// The tracker after a periodic fold at `now`: a session still within the
    /// timeout moves its elapsed time into the total; one past it is dropped.
    pub open spec fn folded(self, now: u64) -> TypingTracker {
        match self.session_start {
            None => self,
            Some(start) => if self.spec_exceeds(since(now, self.last_activity)) {
                TypingTracker { session_start: None, ..self }
            } else {
                TypingTracker {
                    accumulated_ms: sat_add(self.accumulated_ms, since(self.last_activity, start)),
                    session_start: Some(self.last_activity),
                    ..self
                }
            },
        }
    }

    /// Total typing time at `now`: the folded time plus the time from the
    /// open session's start to `now`, while that session is still within
    /// the timeout.
    pub open spec fn total_at(self, now: u64) -> u64 {
        match self.session_start {
            Some(start) if !self.spec_exceeds(since(now, self.last_activity)) =>
                sat_add(self.accumulated_ms, since(now, start)),
            _ => self.accumulated_ms,
        }
    }

    /// A tracker with no open session and `accumulated_ms` already counted.
    pub fn new(timeout_seconds: u64, accumulated_ms: u64, now: u64) -> (r: TypingTracker)
        ensures
            r.timeout_seconds == timeout_seconds,
            r.accumulated_ms == accumulated_ms,
            r.session_start.is_none(),
            r.last_activity == now,
    {
        TypingTracker { timeout_seconds, accumulated_ms, session_start: None, last_activity: now }
    }

    fn exceeds(&self, gap_ms: u64) -> (r: bool)
        ensures
            r == self.spec_exceeds(gap_ms as int),
    {
        if self.timeout_seconds > u64::MAX / 1000 {
            false
        } else {
            gap_ms > self.timeout_seconds * 1000
        }
    }

    fn elapsed(to: u64, from: u64) -> (r: u64)
        ensures
            r == since(to, from),
    {
        if to >= from {
            to - from
        } else {
            0
        }
    }

    fn add_saturating(a: u64, b: u64) -> (r: u64)
        ensures
            r == sat_add(a, b as int),
    {
        if a > u64::MAX - b {
            u64::MAX
        } else {
            a + b
        }
    }

    /// Records an edit at `now`, opening a session when none is open or the
    /// silence since the last edit outlasted the timeout.
    pub fn track(&mut self, now: u64)
        ensures
            *final(self) == old(self).after_edit(now),
    {
        if self.session_start.is_none() || self.exceeds(Self::elapsed(now, self.last_activity)) {
            self.session_start = Some(now);
        }
        self.last_activity = now;
    }

    /// Periodic fold at `now` (see `folded`).
    pub fn fold(&mut self, now: u64)
        ensures
            *final(self) == old(self).folded(now),
    {
        if let Some(start) = self.session_start {
            if self.exceeds(Self::elapsed(now, self.last_activity)) {
                self.session_start = None;
            } else {
                self.accumulated_ms = Self::add_saturating(
                    self.accumulated_ms,
                    Self::elapsed(self.last_activity, start),
                );
                self.session_start = Some(self.last_activity);
            }
        }
    }

    /// Total typing time at `now`, in milliseconds.
    pub fn total(&self, now: u64) -> (r: u64)
        ensures
            r == self.total_at(now),
    {
        match self.session_start {
            Some(start) => {
                if self.exceeds(Self::elapsed(now, self.last_activity)) {
                    self.accumulated_ms
                } else {
                    Self::add_saturating(self.accumulated_ms, Self::elapsed(now, start))
                }
            },
            None => self.accumulated_ms,
        }
    }
}

} // verus!
