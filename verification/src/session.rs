//! The focus session record and its lifecycle.
//!
//! A session is a time-boxed commitment: it starts at `started_at` and lasts
//! `duration_secs` seconds. There is no background timer; whether a session is
//! still running is recomputed on demand from a caller-supplied clock reading.
//! A session that has run out is "expired" but is never deleted automatically:
//! it stays in the registry until overwritten or explicitly removed.

use vstd::prelude::*;

verus! {

/// One user's active commitment. Timestamps and durations are whole seconds;
/// `started_at` counts seconds of the process clock (for the application,
/// seconds since the Unix epoch). The descriptive task label a user gives when
/// starting a session is display-only and is not part of the record.
#[derive(Clone, Copy, PartialEq, Eq, Structural, Debug)]
pub struct FocusSession {
    /// Stable identifier of the user who committed to focus.
    pub owner: u64,
    /// Clock reading captured when the session was created.
    pub started_at: u64,
    /// Requested focus length, strictly positive.
    pub duration_secs: u64,
}

impl FocusSession {
    /// Well-formedness: the duration is strictly positive and the finish
    /// instant fits the clock's range.
    pub open spec fn wf(self) -> bool {
        &&& self.duration_secs > 0
        &&& self.started_at + self.duration_secs <= u64::MAX
    }

    /// A session is active at `now` exactly when less than its duration has
    /// elapsed since it started. A clock reading before the start counts as
    /// active: nothing has elapsed yet.
    pub open spec fn is_active_spec(self, now: u64) -> bool {
        now - self.started_at < self.duration_secs
    }

    /// Seconds still to run at `now`: the distance from `now` to the finish
    /// instant while the session is active, and zero from the moment it
    /// expires.
    pub open spec fn remaining_spec(self, now: u64) -> int {
        if self.is_active_spec(now) {
            self.started_at + self.duration_secs - now
        } else {
            0
        }
    }

    /// Whether the owner posting a message at `now` would violate this
    /// session. True exactly while the session is active; false exactly at
    /// and after the instant `started_at + duration_secs`.
    pub fn is_active_violation(&self, now: u64) -> (r: bool)
        ensures
            r == self.is_active_spec(now),
    {
        if now < self.started_at {
            true
        } else {
            now - self.started_at < self.duration_secs
        }
    }

    /// Seconds still to run at `now`; zero once the session has expired.
    pub fn remaining_as_of(&self, now: u64) -> (r: u64)
        requires
            self.wf(),
        ensures
            r == self.remaining_spec(now),
    {
        if self.is_active_violation(now) {
            if now < self.started_at {
                // Nothing has elapsed yet: the whole window plus the gap
                // until the start is still ahead.
                self.started_at - now + self.duration_secs
            } else {
                self.duration_secs - (now - self.started_at)
            }
        } else {
            0
        }
    }

    /// The instant at which the session expires.
    pub fn finish_time(&self) -> (t: u64)
        requires
            self.wf(),
        ensures
            t == self.started_at + self.duration_secs,
    {
        self.started_at + self.duration_secs
    }
}

} // verus!
