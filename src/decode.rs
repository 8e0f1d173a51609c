//! Decisions of the decoder selector: the track descriptor each path yields,
//! the duration derived from a decoded sample count, the sample offset that
//! an approximate seek discards, and the per-packet policy of the fallback
//! demux-and-decode path.
use vstd::prelude::*;
use vstd::string::StringExecFns;
use crate::clock::clamp_u64;

verus! {

/// Immutable descriptor of a loaded track.
#[derive(Clone, Debug, PartialEq, Eq)]
pub struct TrackInfo {
    pub path: String,
    /// Total length, absent when it cannot be determined (never zero for
    /// "unknown").
    pub duration_ms: Option<u64>,
}

/// Failures reported to the caller of a single command.
#[derive(Clone, Debug, PartialEq, Eq)]
pub enum PlayerError {
    /// No output device when the session starts.
    DeviceUnavailable(String),
    /// Neither decoding path could decode the source.
    DecodeFailed(String),
    /// The source could not be read.
    IoFailed(String),
    /// A shell argument that could not be understood.
    InvalidCommandArgument(String),
    /// A seek or skip with no track loaded.
    NothingLoaded,
}

impl PlayerError {
    /// The text shown to a user for this error.
    pub open spec fn message_spec(self) -> Seq<char> {
        match self {
            PlayerError::DeviceUnavailable(m) => "No default output device available: "@ + m@,
            PlayerError::DecodeFailed(m) => "Decode failed: "@ + m@,
            PlayerError::IoFailed(m) => "Failed to read source: "@ + m@,
            PlayerError::InvalidCommandArgument(m) => m@,
            PlayerError::NothingLoaded => "No track loaded"@,
        }
    }

    /// The text shown to a user for this error.
    pub fn message(&self) -> (r: String)
        ensures
            r@ == self.message_spec(),
    {
        match self {
            PlayerError::DeviceUnavailable(m) => {
                let mut r = "No default output device available: ".to_string();
                r.append(m.as_str());
                r
            },
            PlayerError::DecodeFailed(m) => {
                let mut r = "Decode failed: ".to_string();
                r.append(m.as_str());
                r
            },
            PlayerError::IoFailed(m) => {
                let mut r = "Failed to read source: ".to_string();
                r.append(m.as_str());
                r
            },
            PlayerError::InvalidCommandArgument(m) => m.clone(),
            PlayerError::NothingLoaded => "No track loaded".to_string(),
        }
    }
}

/// Duration in milliseconds of `total_samples` interleaved samples, when the
/// rate and channel count are both positive.
pub open spec fn derived_duration(total_samples: nat, sample_rate: nat, channels: nat) -> Option<nat> {
    if sample_rate > 0 && channels > 0 {
        Some((total_samples * 1000) / (sample_rate * channels))
    } else {
        None
    }
}

/// Number of interleaved samples that cover the first `offset_ms` of audio,
/// rounded down to whole frames.
pub open spec fn samples_in(offset_ms: nat, sample_rate: nat, channels: nat) -> nat {
    ((offset_ms * sample_rate) / 1000) * channels
}

proof fn lemma_mul_le(a: nat, b: nat, x: nat, y: nat)
    requires
        a <= x,
        b <= y,
    ensures
        a * b <= x * y,
{
    assert(a * b <= x * y) by (nonlinear_arith)
        requires
            a <= x,
            b <= y,
    ;
}

proof fn lemma_quotient_bound(a: nat, b: nat)
    requires
        b > 0,
    ensures
        a / b <= a,
{
    assert(a / b <= a) by (nonlinear_arith)
        requires
            b > 0,
    ;
}

/// Duration derived from a decoded sample count (saturated to `u64`);
/// `None` exactly when the rate or the channel count is zero.
pub fn duration_from_samples(total_samples: u64, sample_rate: u32, channels: u32) -> (r: Option<u64>)
    ensures
        r is None <==> (sample_rate == 0 || channels == 0),
        derived_duration(total_samples as nat, sample_rate as nat, channels as nat) matches Some(d)
            ==> r == Some(clamp_u64(d)),
{
    if sample_rate == 0 || channels == 0 {
        return None;
    }
    proof {
        lemma_mul_le(total_samples as nat, 1000, u64::MAX as nat, 1000);
        lemma_mul_le(sample_rate as nat, channels as nat, u32::MAX as nat, u32::MAX as nat);
    }
    let num: u128 = total_samples as u128 * 1000;
    let den: u128 = sample_rate as u128 * channels as u128;
    assert(den > 0) by (nonlinear_arith)
        requires
            den == sample_rate as u128 * channels as u128,
            sample_rate > 0,
            channels > 0,
    ;
    let q: u128 = num / den;
    if q <= u64::MAX as u128 {
        Some(q as u64)
    } else {
        Some(u64::MAX)
    }
}

/// Interleaved samples to discard so that playback starts `offset_ms` into
/// the audio, in whole frames (saturated to `u64`).
pub fn samples_to_skip(offset_ms: u64, sample_rate: u32, channels: u32) -> (r: u64)
    ensures
        r == clamp_u64(samples_in(offset_ms as nat, sample_rate as nat, channels as nat)),
{
    proof {
        lemma_mul_le(offset_ms as nat, sample_rate as nat, u64::MAX as nat, u32::MAX as nat);
    }
    let prod: u128 = offset_ms as u128 * sample_rate as u128;
    let frames: u128 = prod / 1000;
    proof {
        lemma_quotient_bound(prod as nat, 1000);
    }
    if frames > u64::MAX as u128 {
        if channels == 0 {
            return 0;
        }
        assert(frames * (channels as nat) > u64::MAX) by (nonlinear_arith)
            requires
                frames > u64::MAX,
                channels >= 1,
        ;
        return u64::MAX;
    }
    proof {
        lemma_mul_le(frames as nat, channels as nat, u64::MAX as nat, u32::MAX as nat);
    }
    let total: u128 = frames * channels as u128;
    if total <= u64::MAX as u128 {
        total as u64
    } else {
        u64::MAX
    }
}

/// Descriptor of a track decoded by the fast path, whose container metadata
/// may give the total duration.
pub fn fast_path_info(path: String, total_duration_ms: Option<u64>) -> (r: TrackInfo)
    ensures
        r.path@ == path@,
        r.duration_ms == total_duration_ms,
{
    TrackInfo { path, duration_ms: total_duration_ms }
}

/// The two decoding strategies, tried in this order.
#[derive(Clone, Copy, Debug, PartialEq, Eq, Structural)]
pub enum DecodePath {
    Fast,
    Fallback,
}

/// What the selector does once a decoding attempt has finished.
#[derive(Debug, PartialEq, Eq)]
pub enum SelectStep {
    /// Run the given path next.
    Attempt(DecodePath),
    /// The load is over, with this result for the caller.
    Done(Result<TrackInfo, PlayerError>),
}

/// The failure policy of the selector: a fast-path failure is never
/// surfaced but hands over to the fallback path, whose result is final.
pub fn after_attempt(path: DecodePath, result: Result<TrackInfo, PlayerError>) -> (r: SelectStep)
    ensures
        path == DecodePath::Fast && result is Err ==> r == SelectStep::Attempt(DecodePath::Fallback),
        path == DecodePath::Fast && result is Ok ==> r == SelectStep::Done(result),
        path == DecodePath::Fallback ==> r == SelectStep::Done(result),
{
    match path {
        DecodePath::Fast => match result {
            Ok(info) => SelectStep::Done(Ok(info)),
            Err(_) => SelectStep::Attempt(DecodePath::Fallback),
        },
        DecodePath::Fallback => SelectStep::Done(result),
    }
}

/// What one attempt to read and decode the next packet of the fallback path
/// produced.
#[derive(Clone, Copy, Debug, PartialEq, Eq, Structural)]
pub enum PacketOutcome {
    /// A packet of the selected track decoded into `samples` interleaved
    /// samples at the given rate and channel count.
    Decoded { sample_rate: u32, channels: u32, samples: u64 },
    /// A packet that belongs to another track.
    OtherTrack,
    /// A single packet failed to decode; the stream itself is sound.
    Recovered,
    /// The demuxer asks for the decoder state to be reset.
    ResetRequired,
    /// The stream ended normally.
    EndOfStream,
    /// Any other I/O or format error.
    Fatal,
}

/// What the fallback loop does with a packet outcome.
#[derive(Clone, Copy, Debug, PartialEq, Eq, Structural)]
pub enum PacketAction {
    /// Append the decoded samples to the buffer and go on.
    Append,
    /// Drop the packet and go on.
    Skip,
    /// Reset the decoder and go on.
    ResetDecoder,
    /// Stop reading; the buffer is complete.
    Finish,
    /// Abandon the whole decode.
    Fail,
}

/// Running summary of the fallback path's decoded buffer: how many samples it
/// holds and the most recently observed stream properties (zero where none
/// has been observed or announced).
#[derive(Clone, Copy, Debug, PartialEq, Eq, Structural)]
pub struct FallbackDecode {
    pub total_samples: u64,
    pub sample_rate: u32,
    pub channels: u32,
}

impl FallbackDecode {
    /// The summary and the action after `outcome`.
    pub open spec fn step_spec(self, outcome: PacketOutcome) -> (FallbackDecode, PacketAction) {
        match outcome {
            PacketOutcome::Decoded { sample_rate, channels, samples } => (
                FallbackDecode {
                    total_samples: clamp_u64((self.total_samples + samples) as nat),
                    sample_rate,
                    channels,
                },
                PacketAction::Append,
            ),
            PacketOutcome::OtherTrack => (self, PacketAction::Skip),
            PacketOutcome::Recovered => (self, PacketAction::Skip),
            PacketOutcome::ResetRequired => (self, PacketAction::ResetDecoder),
            PacketOutcome::EndOfStream => (self, PacketAction::Finish),
            PacketOutcome::Fatal => (self, PacketAction::Fail),
        }
    }

    /// The summary once the loop has consumed `outcomes` (or stopped at the
    /// end of the stream); `None` when it failed.
    pub open spec fn run(self, outcomes: Seq<PacketOutcome>) -> Option<FallbackDecode>
        decreases outcomes.len(),
    {
        if outcomes.len() == 0 {
            Some(self)
        } else {
            let (next, action) = self.step_spec(outcomes[0]);
            match action {
                PacketAction::Fail => None,
                PacketAction::Finish => Some(next),
                _ => next.run(outcomes.drop_first()),
            }
        }
    }

    /// Starts a decode with the properties the codec parameters announce.
    /// A property they do not announce stays unknown (zero) until a packet
    /// reports it, so that no duration is derived from a guess.
    pub fn new(sample_rate: Option<u32>, channels: Option<u32>) -> (r: FallbackDecode)
        ensures
            r.total_samples == 0,
            r.sample_rate == (match sample_rate { Some(v) => v, None => 0 }),
            r.channels == (match channels { Some(v) => v, None => 0 }),
    {
        FallbackDecode {
            total_samples: 0,
            sample_rate: match sample_rate {
                Some(v) => v,
                None => 0,
            },
            channels: match channels {
                Some(v) => v,
                None => 0,
            },
        }
    }

    /// Takes one packet outcome into account and says what to do with it:
    /// bad packets are skipped, a reset request resets the decoder, the end
    /// of the stream finishes, and only a stream-level error fails.
    pub fn step(&mut self, outcome: PacketOutcome) -> (a: PacketAction)
        ensures
            (*final(self), a) == old(self).step_spec(outcome),
    {
        match outcome {
            PacketOutcome::Decoded { sample_rate, channels, samples } => {
                self.total_samples = self.total_samples.saturating_add(samples);
                self.sample_rate = sample_rate;
                self.channels = channels;
                PacketAction::Append
            },
            PacketOutcome::OtherTrack => PacketAction::Skip,
            PacketOutcome::Recovered => PacketAction::Skip,
            PacketOutcome::ResetRequired => PacketAction::ResetDecoder,
            PacketOutcome::EndOfStream => PacketAction::Finish,
            PacketOutcome::Fatal => PacketAction::Fail,
        }
    }

    /// Feeds a whole sequence of outcomes through `step`, stopping at the end
    /// of the stream; `None` when a stream-level error aborted the decode.
    pub fn run_all(self, outcomes: &Vec<PacketOutcome>) -> (r: Option<FallbackDecode>)
        ensures
            r == self.run(outcomes@),
    {
        let mut cur = self;
        let mut i: usize = 0;
        assert(outcomes@.subrange(0, outcomes@.len() as int) =~= outcomes@);
        while i < outcomes.len()
            invariant
                0 <= i <= outcomes@.len(),
                self.run(outcomes@) == cur.run(outcomes@.subrange(i as int, outcomes@.len() as int)),
            decreases outcomes@.len() - i,
        {
            proof {
                let rest = outcomes@.subrange(i as int, outcomes@.len() as int);
                assert(rest.drop_first() =~= outcomes@.subrange(i + 1, outcomes@.len() as int));
                assert(rest[0] == outcomes@[i as int]);
            }
            let a = cur.step(outcomes[i]);
            match a {
                PacketAction::Fail => {
                    return None;
                },
                PacketAction::Finish => {
                    return Some(cur);
                },
                _ => {},
            }
            i = i + 1;
        }
        assert(outcomes@.subrange(i as int, outcomes@.len() as int).len() == 0);
        Some(cur)
    }

    /// Duration of the decoded buffer, absent when the last observed rate or
    /// channel count is zero.
    pub fn duration_ms(&self) -> (r: Option<u64>)
        ensures
            r is None <==> (self.sample_rate == 0 || self.channels == 0),
            derived_duration(self.total_samples as nat, self.sample_rate as nat, self.channels as nat)
                matches Some(d) ==> r == Some(clamp_u64(d)),
    {
        duration_from_samples(self.total_samples, self.sample_rate, self.channels)
    }

    /// Descriptor of the track the fallback path decoded from `path`.
    pub fn track_info(&self, path: String) -> (r: TrackInfo)
        ensures
            r.path@ == path@,
            r.duration_ms is None <==> (self.sample_rate == 0 || self.channels == 0),
            derived_duration(self.total_samples as nat, self.sample_rate as nat, self.channels as nat)
                matches Some(d) ==> r.duration_ms == Some(clamp_u64(d)),
    {
        TrackInfo { path, duration_ms: self.duration_ms() }
    }
}

/// Samples carried by the decoded packets of `outcomes` up to the end of the
/// stream.
pub open spec fn decoded_samples(outcomes: Seq<PacketOutcome>) -> nat
    decreases outcomes.len(),
{
    if outcomes.len() == 0 {
        0
    } else {
        match outcomes[0] {
            PacketOutcome::Decoded { samples, .. } => (samples + decoded_samples(outcomes.drop_first())) as nat,
            PacketOutcome::EndOfStream => 0,
            _ => decoded_samples(outcomes.drop_first()),
        }
    }
}

/// Bad packets, packets of other tracks and reset requests never abort the
/// fallback path: unless a stream-level error occurs, the decode succeeds
/// and its buffer holds every sample decoded before and after them (up to the
/// end of the stream, saturated to `u64`).
pub proof fn lemma_recoverable_errors_keep_audio(d: FallbackDecode, outcomes: Seq<PacketOutcome>)
    requires
        forall|i: int| 0 <= i < outcomes.len() ==> outcomes[i] != PacketOutcome::Fatal,
    ensures
        d.run(outcomes) is Some,
        d.run(outcomes)->0.total_samples == clamp_u64((d.total_samples + decoded_samples(outcomes)) as nat),
    decreases outcomes.len(),
{
    if outcomes.len() > 0 {
        let rest = outcomes.drop_first();
        assert forall|i: int| 0 <= i < rest.len() implies rest[i] != PacketOutcome::Fatal by {
            assert(rest[i] == outcomes[i + 1]);
        }
        let (next, action) = d.step_spec(outcomes[0]);
        lemma_recoverable_errors_keep_audio(next, rest);
        assert(outcomes[0] != PacketOutcome::Fatal);
    }
}

} // verus!
