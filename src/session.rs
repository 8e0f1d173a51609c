//! The playback controller's decisions: which track is loaded, how the clock
//! follows each command, and how a seek or relative skip is planned.
//!
//! Work that touches the decoder or the output device is done by the caller
//! between the steps: `begin_seek` says whether to re-decode, and only after
//! the re-decode has succeeded does `seek_done` move the clock, so a failed
//! decode leaves the session as it was.
use vstd::prelude::*;
use crate::clock::{clamp_u64, PlaybackClock};
use crate::decode::{PlayerError, TrackInfo};

verus! {

/// Current track and position of the single session of an output device.
#[derive(Debug)]
pub struct PlayerSession {
    /// Locator of the loaded track; kept across `stop` so that a seek can
    /// re-open the same source.
    pub locator: Option<String>,
    /// Total length of the loaded track, when known.
    pub duration_ms: Option<u64>,
    pub clock: PlaybackClock,
}

/// How a seek proceeds.
#[derive(Debug, PartialEq, Eq)]
pub enum SeekPlan {
    /// The target lies at or past the end of the track: playback has been
    /// stopped, which completes the seek.
    PastEnd,
    /// Re-decode `locator`, discard its first `offset_ms` of audio, play the
    /// rest, then call `seek_done`.
    Redecode { locator: String, offset_ms: u64 },
}

/// Target of a relative skip by `delta_ms` from position `position`: never
/// below zero.
pub open spec fn skip_target(position: nat, delta_ms: int) -> nat {
    if position + delta_ms < 0 {
        0
    } else {
        (position + delta_ms) as nat
    }
}

impl PlayerSession {
    /// Whether a seek to `target_ms` lies at or past the known end.
    pub open spec fn past_end(self, target_ms: u64) -> bool {
        match self.duration_ms {
            Some(d) => target_ms >= d,
            None => false,
        }
    }

    /// The clock once a seek to `target_ms` issued at `now` has completed
    /// (the re-decode having succeeded where one is needed).
    pub open spec fn clock_after_seek(self, target_ms: u64, now: u64) -> PlaybackClock {
        if self.past_end(target_ms) {
            PlaybackClock::Stopped
        } else {
            PlaybackClock::seeked(target_ms, now)
        }
    }

    /// Target of a relative skip by `delta_ms` issued at `now`.
    pub open spec fn advance_target_spec(self, delta_ms: i64, now: u64) -> u64 {
        clamp_u64(skip_target(self.clock.reported_at(now) as nat, delta_ms as int))
    }

    /// A session with nothing loaded.
    pub fn new() -> (r: PlayerSession)
        ensures
            r.locator is None,
            r.duration_ms is None,
            r.clock == PlaybackClock::Stopped,
    {
        PlayerSession { locator: None, duration_ms: None, clock: PlaybackClock::new() }
    }

    /// Records a track that has been decoded and handed to the output at
    /// `now`: it becomes the loaded track, playing from the start.
    pub fn loaded(&mut self, info: &TrackInfo, now: u64)
        ensures
            final(self).locator matches Some(l) && l@ == info.path@,
            final(self).duration_ms == info.duration_ms,
            final(self).clock == PlaybackClock::started(now),
    {
        self.locator = Some(info.path.clone());
        self.duration_ms = info.duration_ms;
        self.clock.start(now);
    }

    /// Applies the result of a load attempted at `now`: a decoded track
    /// becomes the loaded one, playing from the start; a failure leaves the
    /// session as it was.
    pub fn finish_load(&mut self, result: &Result<TrackInfo, PlayerError>, now: u64)
        ensures
            result is Err ==> *final(self) == *old(self),
            result matches Ok(info) ==> (final(self).locator matches Some(l) && l@ == info.path@),
            result matches Ok(info) ==> final(self).duration_ms == info.duration_ms,
            result is Ok ==> final(self).clock == PlaybackClock::started(now),
    {
        if let Ok(info) = result {
            self.loaded(info, now);
        }
    }

    /// Pauses the clock at `now` (a no-op unless playing).
    pub fn pause(&mut self, now: u64)
        ensures
            final(self).clock == old(self).clock.paused(now),
            final(self).locator == old(self).locator,
            final(self).duration_ms == old(self).duration_ms,
    {
        self.clock.pause(now);
    }

    /// Resumes the clock at `now` (a no-op unless paused).
    pub fn resume(&mut self, now: u64)
        ensures
            final(self).clock == old(self).clock.resumed(now),
            final(self).locator == old(self).locator,
            final(self).duration_ms == old(self).duration_ms,
    {
        self.clock.resume(now);
    }

    /// Stops playback; the track stays loaded.
    pub fn stop(&mut self)
        ensures
            final(self).clock == PlaybackClock::Stopped,
            final(self).locator == old(self).locator,
            final(self).duration_ms == old(self).duration_ms,
    {
        self.clock.stop();
    }

    /// Elapsed position at `now`.
    pub fn current_position(&self, now: u64) -> (r: u64)
        ensures
            r == self.clock.reported_at(now),
    {
        self.clock.current_position(now)
    }

    /// First half of a seek to `target_ms`. With nothing loaded it fails and
    /// changes nothing. At or past the known end it stops playback, which
    /// completes the seek. Otherwise it asks for the loaded track to be
    /// re-decoded from `target_ms` and changes nothing yet.
    pub fn begin_seek(&mut self, target_ms: u64) -> (r: Result<SeekPlan, PlayerError>)
        ensures
            final(self).locator == old(self).locator,
            final(self).duration_ms == old(self).duration_ms,
            old(self).locator is None ==> r == Err::<SeekPlan, PlayerError>(PlayerError::NothingLoaded)
                && final(self).clock == old(self).clock,
            old(self).locator is Some && old(self).past_end(target_ms) ==> r == Ok::<SeekPlan, PlayerError>(SeekPlan::PastEnd)
                && final(self).clock == PlaybackClock::Stopped
                && (forall|now: u64| final(self).clock == #[trigger] old(self).clock_after_seek(target_ms, now)),
            old(self).locator is Some && !old(self).past_end(target_ms) ==> (final(self).clock == old(self).clock
                && (r matches Ok(SeekPlan::Redecode { locator, offset_ms })
                && locator@ == old(self).locator->0@ && offset_ms == target_ms)),
    {
        match &self.locator {
            None => Err(PlayerError::NothingLoaded),
            Some(l) => {
                let beyond = match self.duration_ms {
                    Some(d) => target_ms >= d,
                    None => false,
                };
                if beyond {
                    self.clock.stop();
                    Ok(SeekPlan::PastEnd)
                } else {
                    Ok(SeekPlan::Redecode { locator: l.clone(), offset_ms: target_ms })
                }
            },
        }
    }

    /// Second half of a seek whose re-decode succeeded and started playing
    /// at `now`: the clock runs from `target_ms`.
    pub fn seek_done(&mut self, target_ms: u64, now: u64)
        ensures
            final(self).clock == PlaybackClock::seeked(target_ms, now),
            !old(self).past_end(target_ms) ==> final(self).clock == old(self).clock_after_seek(target_ms, now),
            final(self).locator == old(self).locator,
            final(self).duration_ms == old(self).duration_ms,
    {
        self.clock.seek_to(target_ms, now);
    }

    /// Target of a relative skip by `delta_ms` at `now`: the current position
    /// plus `delta_ms`, never below zero (and saturated to `u64`).
    pub fn advance_target(&self, delta_ms: i64, now: u64) -> (r: u64)
        ensures
            r == self.advance_target_spec(delta_ms, now),
    {
        let pos = self.clock.current_position(now);
        if delta_ms < 0 {
            let back: u64 = if delta_ms == i64::MIN {
                (i64::MAX as u64) + 1
            } else {
                (-delta_ms) as u64
            };
            if back >= pos {
                0
            } else {
                pos - back
            }
        } else {
            pos.saturating_add(delta_ms as u64)
        }
    }

    /// First half of a relative skip by `delta_ms` at `now`: a seek to
    /// `advance_target(delta_ms, now)`.
    pub fn begin_advance(&mut self, delta_ms: i64, now: u64) -> (r: (u64, Result<SeekPlan, PlayerError>))
        ensures
            r.0 == old(self).advance_target_spec(delta_ms, now),
            final(self).locator == old(self).locator,
            final(self).duration_ms == old(self).duration_ms,
            old(self).locator is None ==> r.1 == Err::<SeekPlan, PlayerError>(PlayerError::NothingLoaded)
                && final(self).clock == old(self).clock,
            old(self).locator is Some && old(self).past_end(r.0) ==> r.1 == Ok::<SeekPlan, PlayerError>(SeekPlan::PastEnd)
                && final(self).clock == PlaybackClock::Stopped,
            old(self).locator is Some && !old(self).past_end(r.0) ==> (final(self).clock == old(self).clock
                && (r.1 matches Ok(SeekPlan::Redecode { locator, offset_ms })
                && locator@ == old(self).locator->0@ && offset_ms == r.0)),
    {
        let target = self.advance_target(delta_ms, now);
        let plan = self.begin_seek(target);
        (target, plan)
    }
}

/// A seek at or past the known end of the track leaves the session stopped,
/// reporting position zero.
pub proof fn lemma_seek_past_end_stops(s: PlayerSession, target_ms: u64, now: u64)
    requires
        s.duration_ms matches Some(d) && target_ms >= d,
    ensures
        s.clock_after_seek(target_ms, now) is Stopped,
        s.clock_after_seek(target_ms, now).reported_at(now) == 0,
{
}

/// A seek before the end of the track (or on a track of unknown length)
/// leaves the session playing and reporting exactly the target right after.
pub proof fn lemma_seek_within_track_plays_from_target(s: PlayerSession, target_ms: u64, now: u64)
    requires
        match s.duration_ms {
            Some(d) => target_ms < d,
            None => true,
        },
    ensures
        s.clock_after_seek(target_ms, now) is Playing,
        s.clock_after_seek(target_ms, now).reported_at(now) == target_ms,
{
}

/// Skipping back by more than the current position seeks to zero, never to
/// a negative or wrapped-around position.
pub proof fn lemma_rewind_past_start_clamps_to_zero(s: PlayerSession, delta_ms: i64, now: u64)
    requires
        delta_ms < 0,
        -(delta_ms as int) > s.clock.reported_at(now) as int,
    ensures
        s.advance_target_spec(delta_ms, now) == 0,
{
}

} // verus!
