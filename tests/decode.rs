use cadence_core::decode::{
    after_attempt, duration_from_samples, fast_path_info, samples_to_skip, DecodePath,
    FallbackDecode, PacketAction, PacketOutcome, SelectStep,
};
use cadence_core::{PlayerError, TrackInfo};

#[test]
fn duration_from_sample_count() {
    assert_eq!(duration_from_samples(96_000, 48_000, 2), Some(1000));
    assert_eq!(duration_from_samples(132_299, 44_100, 2), Some(1499));
    assert_eq!(duration_from_samples(0, 48_000, 2), Some(0));
    assert_eq!(duration_from_samples(1000, 0, 2), None);
    assert_eq!(duration_from_samples(1000, 48_000, 0), None);
    assert_eq!(duration_from_samples(u64::MAX, 1, 1), Some(u64::MAX));
}

#[test]
fn skip_offset_in_whole_frames() {
    assert_eq!(samples_to_skip(1000, 48_000, 2), 96_000);
    assert_eq!(samples_to_skip(1500, 44_100, 2), 132_300);
    assert_eq!(samples_to_skip(1, 44_100, 2), 88);
    assert_eq!(samples_to_skip(0, 44_100, 2), 0);
    assert_eq!(samples_to_skip(u64::MAX, u32::MAX, u32::MAX), u64::MAX);
    assert_eq!(samples_to_skip(u64::MAX, u32::MAX, 0), 0);
}

#[test]
fn fast_path_success_is_final() {
    let info = fast_path_info("track.wav".to_string(), Some(3000));
    assert_eq!(info, TrackInfo { path: "track.wav".to_string(), duration_ms: Some(3000) });
    assert_eq!(after_attempt(DecodePath::Fast, Ok(info.clone())), SelectStep::Done(Ok(info)));
}

#[test]
fn fast_path_failure_falls_back_and_keeps_unknown_duration() {
    let fast = Err(PlayerError::DecodeFailed("unsupported".to_string()));
    assert_eq!(after_attempt(DecodePath::Fast, fast), SelectStep::Attempt(DecodePath::Fallback));
    let mut d = FallbackDecode::new(None, None);
    assert_eq!(d.step(PacketOutcome::Decoded { sample_rate: 44_100, channels: 0, samples: 0 }), PacketAction::Append);
    assert_eq!(d.step(PacketOutcome::EndOfStream), PacketAction::Finish);
    let info = d.track_info("corrupt.ogg".to_string());
    assert_eq!(info.duration_ms, None);
    assert_eq!(
        after_attempt(DecodePath::Fallback, Ok(info.clone())),
        SelectStep::Done(Ok(TrackInfo { path: "corrupt.ogg".to_string(), duration_ms: None }))
    );
}

#[test]
fn fallback_failure_is_surfaced() {
    let err = Err(PlayerError::DecodeFailed("probe".to_string()));
    assert_eq!(
        after_attempt(DecodePath::Fallback, err),
        SelectStep::Done(Err(PlayerError::DecodeFailed("probe".to_string())))
    );
}

#[test]
fn fallback_starts_from_announced_properties() {
    let d = FallbackDecode::new(None, None);
    assert_eq!(d, FallbackDecode { total_samples: 0, sample_rate: 0, channels: 0 });
    let d = FallbackDecode::new(Some(44_100), Some(1));
    assert_eq!(d, FallbackDecode { total_samples: 0, sample_rate: 44_100, channels: 1 });
}

#[test]
fn bad_packets_do_not_abort_the_fallback_decode() {
    let outcomes = vec![
        PacketOutcome::Decoded { sample_rate: 48_000, channels: 2, samples: 48_000 },
        PacketOutcome::Recovered,
        PacketOutcome::OtherTrack,
        PacketOutcome::ResetRequired,
        PacketOutcome::Recovered,
        PacketOutcome::Decoded { sample_rate: 48_000, channels: 2, samples: 48_000 },
        PacketOutcome::EndOfStream,
        PacketOutcome::Fatal,
    ];
    let d = FallbackDecode::new(None, None).run_all(&outcomes).unwrap();
    assert_eq!(d.total_samples, 96_000);
    assert_eq!(d.duration_ms(), Some(1000));
}

#[test]
fn stream_level_error_aborts_the_fallback_decode() {
    let outcomes = vec![
        PacketOutcome::Decoded { sample_rate: 48_000, channels: 2, samples: 10 },
        PacketOutcome::Fatal,
    ];
    assert_eq!(FallbackDecode::new(None, None).run_all(&outcomes), None);
}

#[test]
fn last_observed_properties_win() {
    let mut d = FallbackDecode::new(Some(48_000), Some(2));
    assert_eq!(d.step(PacketOutcome::Decoded { sample_rate: 22_050, channels: 1, samples: 22_050 }), PacketAction::Append);
    assert_eq!(d.step(PacketOutcome::Recovered), PacketAction::Skip);
    assert_eq!(d.step(PacketOutcome::ResetRequired), PacketAction::ResetDecoder);
    assert_eq!(d.step(PacketOutcome::Fatal), PacketAction::Fail);
    assert_eq!(d, FallbackDecode { total_samples: 22_050, sample_rate: 22_050, channels: 1 });
    assert_eq!(d.track_info("x".to_string()).duration_ms, Some(1000));
}

#[test]
fn sample_count_saturates() {
    let mut d = FallbackDecode::new(None, None);
    d.step(PacketOutcome::Decoded { sample_rate: 1, channels: 1, samples: u64::MAX });
    d.step(PacketOutcome::Decoded { sample_rate: 1, channels: 1, samples: 5 });
    assert_eq!(d.total_samples, u64::MAX);
}

#[test]
fn empty_outcome_list_keeps_summary() {
    let d = FallbackDecode::new(Some(8000), Some(1));
    assert_eq!(d.run_all(&Vec::new()), Some(d));
}

#[test]
fn error_messages() {
    assert_eq!(PlayerError::NothingLoaded.message(), "No track loaded".to_string());
    assert_eq!(
        PlayerError::DecodeFailed("probe format".to_string()).message(),
        "Decode failed: probe format".to_string()
    );
    assert_eq!(
        PlayerError::DeviceUnavailable("none".to_string()).message(),
        "No default output device available: none".to_string()
    );
    assert_eq!(PlayerError::IoFailed("gone".to_string()).message(), "Failed to read source: gone".to_string());
    assert_eq!(
        PlayerError::InvalidCommandArgument("Invalid number: x".to_string()).message(),
        "Invalid number: x".to_string()
    );
}

#[test]
fn fallback_without_any_stream_properties_has_no_duration() {
    let fast = Err(PlayerError::DecodeFailed("unsupported".to_string()));
    assert_eq!(after_attempt(DecodePath::Fast, fast), SelectStep::Attempt(DecodePath::Fallback));
    let outcomes = vec![PacketOutcome::Recovered, PacketOutcome::OtherTrack, PacketOutcome::EndOfStream];
    let d = FallbackDecode::new(None, None).run_all(&outcomes).unwrap();
    assert_eq!(d.duration_ms(), None);
    let info = d.track_info("corrupt.ogg".to_string());
    assert_eq!(
        after_attempt(DecodePath::Fallback, Ok(info)),
        SelectStep::Done(Ok(TrackInfo { path: "corrupt.ogg".to_string(), duration_ms: None }))
    );
}

#[test]
fn fallback_with_announced_properties_but_no_audio_lasts_zero() {
    let d = FallbackDecode::new(Some(44_100), Some(2)).run_all(&vec![PacketOutcome::EndOfStream]).unwrap();
    assert_eq!(d.duration_ms(), Some(0));
}
