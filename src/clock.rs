//! Elapsed-position tracking from wall-clock readings taken at transitions.
//!
//! Time is given by the caller as milliseconds on a monotonic clock, so the
//! state machine itself never reads a clock and can be reasoned about purely.
use vstd::prelude::*;

verus! {

/// The position tracker: stopped, playing from a committed position since a
/// wall-clock instant, or paused at a committed position.
#[derive(Clone, Copy, Debug, PartialEq, Eq, Structural)]
pub enum PlaybackClock {
    Stopped,
    Playing { position_ms: u64, since_ms: u64 },
    Paused { position_ms: u64 },
}

/// Milliseconds elapsed from `since` to `now`; a reading earlier than `since`
/// counts as no time at all.
pub open spec fn elapsed(since: u64, now: u64) -> nat {
    if now >= since {
        (now - since) as nat
    } else {
        0
    }
}

/// `n` when it fits in a `u64`, else the largest `u64`.
pub open spec fn clamp_u64(n: nat) -> u64 {
    if n <= u64::MAX {
        n as u64
    } else {
        u64::MAX
    }
}

impl PlaybackClock {
    /// Exact elapsed position at wall-clock instant `now`.
    pub open spec fn position_at(self, now: u64) -> nat {
        match self {
            PlaybackClock::Stopped => 0,
            PlaybackClock::Paused { position_ms } => position_ms as nat,
            PlaybackClock::Playing { position_ms, since_ms } => (position_ms + elapsed(since_ms, now)) as nat,
        }
    }

    /// The position reported at `now`, saturated to the range of `u64`.
    pub open spec fn reported_at(self, now: u64) -> u64 {
        clamp_u64(self.position_at(now))
    }

    /// State after `Play`: playing from the start since `now`.
    pub open spec fn started(now: u64) -> PlaybackClock {
        PlaybackClock::Playing { position_ms: 0, since_ms: now }
    }

    /// State after `Pause` at `now`: a playing clock commits its position;
    /// any other state is left as it is.
    pub open spec fn paused(self, now: u64) -> PlaybackClock {
        match self {
            PlaybackClock::Playing { .. } => PlaybackClock::Paused { position_ms: self.reported_at(now) },
            _ => self,
        }
    }

    /// State after `Resume` at `now`: a paused clock runs again from its
    /// committed position; any other state is left as it is.
    pub open spec fn resumed(self, now: u64) -> PlaybackClock {
        match self {
            PlaybackClock::Paused { position_ms } => PlaybackClock::Playing { position_ms, since_ms: now },
            _ => self,
        }
    }

    /// State after a seek to `target_ms` at `now`.
    pub open spec fn seeked(target_ms: u64, now: u64) -> PlaybackClock {
        PlaybackClock::Playing { position_ms: target_ms, since_ms: now }
    }

    pub open spec fn is_playing_spec(self) -> bool {
        self is Playing
    }

    pub open spec fn is_paused_spec(self) -> bool {
        self is Paused
    }

    pub open spec fn is_stopped_spec(self) -> bool {
        self is Stopped
    }

    /// A clock that has not started.
    pub fn new() -> (r: PlaybackClock)
        ensures
            r == PlaybackClock::Stopped,
    {
        PlaybackClock::Stopped
    }

    /// Starts playback from position zero at `now`.
    pub fn start(&mut self, now: u64)
        ensures
            *final(self) == PlaybackClock::started(now),
    {
        *self = PlaybackClock::Playing { position_ms: 0, since_ms: now };
    }

    /// Commits the running position and stops it advancing; a no-op unless
    /// the clock is playing.
    pub fn pause(&mut self, now: u64)
        ensures
            *final(self) == old(self).paused(now),
    {
        if let PlaybackClock::Playing { .. } = *self {
            let p = self.current_position(now);
            *self = PlaybackClock::Paused { position_ms: p };
        }
    }

    /// Lets a paused clock advance again from `now`; a no-op unless the clock
    /// is paused.
    pub fn resume(&mut self, now: u64)
        ensures
            *final(self) == old(self).resumed(now),
    {
        if let PlaybackClock::Paused { position_ms } = *self {
            *self = PlaybackClock::Playing { position_ms, since_ms: now };
        }
    }

    /// Overwrites the position with `target_ms` and runs from `now`.
    pub fn seek_to(&mut self, target_ms: u64, now: u64)
        ensures
            *final(self) == PlaybackClock::seeked(target_ms, now),
    {
        *self = PlaybackClock::Playing { position_ms: target_ms, since_ms: now };
    }

    /// Forgets the position.
    pub fn stop(&mut self)
        ensures
            *final(self) == PlaybackClock::Stopped,
    {
        *self = PlaybackClock::Stopped;
    }

    /// The elapsed position at `now`: the committed position plus the time
    /// run since the last transition while playing, saturated to `u64`.
    pub fn current_position(&self, now: u64) -> (r: u64)
        ensures
            r == self.reported_at(now),
            r as nat == self.position_at(now) || (r == u64::MAX && self.position_at(now) > u64::MAX),
    {
        match *self {
            PlaybackClock::Stopped => 0,
            PlaybackClock::Paused { position_ms } => position_ms,
            PlaybackClock::Playing { position_ms, since_ms } => {
                position_ms.saturating_add(now.saturating_sub(since_ms))
            },
        }
    }

    pub fn is_playing(&self) -> (r: bool)
        ensures
            r == self.is_playing_spec(),
    {
        matches!(*self, PlaybackClock::Playing { .. })
    }

    pub fn is_paused(&self) -> (r: bool)
        ensures
            r == self.is_paused_spec(),
    {
        matches!(*self, PlaybackClock::Paused { .. })
    }

    pub fn is_stopped(&self) -> (r: bool)
        ensures
            r == self.is_stopped_spec(),
    {
        matches!(*self, PlaybackClock::Stopped)
    }
}

/// Pausing and then resuming, with no seek in between, hands back at the
/// resume instant exactly the position reported at the pause instant, however
/// long the pause lasted; unless stopped, the clock is playing again.
pub proof fn lemma_pause_resume_keeps_position(c: PlaybackClock, pause_at: u64, resume_at: u64)
    ensures
        c.paused(pause_at).resumed(resume_at).reported_at(resume_at) == c.reported_at(pause_at),
        !(c is Stopped) ==> c.paused(pause_at).resumed(resume_at) is Playing,
{
}

/// While playing with no transition, the position never decreases as time
/// goes on; while paused it does not move at all.
pub proof fn lemma_position_monotonic(c: PlaybackClock, t1: u64, t2: u64)
    requires
        t1 <= t2,
    ensures
        c is Playing ==> c.position_at(t1) <= c.position_at(t2),
        c is Playing ==> c.reported_at(t1) <= c.reported_at(t2),
        c is Paused ==> c.reported_at(t1) == c.reported_at(t2),
        c is Stopped ==> c.reported_at(t1) == 0 && c.reported_at(t2) == 0,
{
}

/// Right after a seek to `target_ms`, the clock is playing and reports
/// exactly `target_ms`.
pub proof fn lemma_seek_reports_target(target_ms: u64, now: u64)
    ensures
        PlaybackClock::seeked(target_ms, now) is Playing,
        PlaybackClock::seeked(target_ms, now).reported_at(now) == target_ms,
{
}

} // verus!
