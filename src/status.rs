use vstd::prelude::*;

verus! {

/// Nanoseconds between two clock readings; zero when the clock did not move forward.
pub open spec fn span(from: u64, to: u64) -> nat {
    if to >= from {
        (to - from) as nat
    } else {
        0
    }
}

/// Elapsed play time after `before` nanoseconds of earlier playing and a run
/// that started at `started`, read at `now` (saturating at `u64::MAX`).
pub open spec fn played(before: u64, started: u64, now: u64) -> u64 {
    let t = before + span(started, now);
    if t > u64::MAX {
        u64::MAX
    } else {
        t as u64
    }
}

/// Where a queued track stands: not started yet, playing since a clock
/// reading with some time already played before it, or paused with the time
/// played so far frozen.
#[derive(Clone, Copy, Debug, PartialEq, Eq, PartialOrd, Ord, Structural)]
pub enum PlayStatus {
    Waiting,
    /// Clock reading of the start of this run, and time played before it.
    Playing(u64, u64),
    /// Time played so far.
    Stopped(u64),
}

impl PlayStatus {
    /// Time played as of clock reading `now`.
    pub open spec fn elapsed_at(self, now: u64) -> u64 {
        match self {
            PlayStatus::Waiting => 0,
            PlayStatus::Playing(started, before) => played(before, started, now),
            PlayStatus::Stopped(e) => e,
        }
    }

    /// The status after output starts or resumes at `now`.
    pub open spec fn resumed(self, now: u64) -> PlayStatus {
        match self {
            PlayStatus::Waiting => PlayStatus::Playing(now, 0),
            PlayStatus::Playing(started, before) => self,
            PlayStatus::Stopped(e) => PlayStatus::Playing(now, e),
        }
    }

    /// The status after output pauses at `now`.
    pub open spec fn paused(self, now: u64) -> PlayStatus {
        match self {
            PlayStatus::Playing(started, before) => PlayStatus::Stopped(played(before, started, now)),
            _ => self,
        }
    }

    /// The status after a resume at `now` that only leaves a paused state.
    pub open spec fn unpaused(self, now: u64) -> PlayStatus {
        match self {
            PlayStatus::Stopped(e) => PlayStatus::Playing(now, e),
            _ => self,
        }
    }

    /// Time played as of clock reading `now`.
    pub fn elapsed(&self, now: u64) -> (r: u64)
        ensures
            r == self.elapsed_at(now),
    {
        match *self {
            PlayStatus::Waiting => 0,
            PlayStatus::Playing(started, before) => before.saturating_add(now.saturating_sub(started)),
            PlayStatus::Stopped(e) => e,
        }
    }
}

} // verus!
