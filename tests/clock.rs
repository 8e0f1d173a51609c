use cadence_core::PlaybackClock;

#[test]
fn new_clock_is_stopped_at_zero() {
    let c = PlaybackClock::new();
    assert!(c.is_stopped());
    assert_eq!(c.current_position(12345), 0);
}

#[test]
fn playing_clock_counts_elapsed_time() {
    let mut c = PlaybackClock::new();
    c.start(10_000);
    assert!(c.is_playing());
    assert_eq!(c.current_position(10_000), 0);
    assert_eq!(c.current_position(11_000), 1000);
}

#[test]
fn pause_then_resume_keeps_position() {
    let mut c = PlaybackClock::new();
    c.start(0);
    let before = c.current_position(1000);
    c.pause(1000);
    assert!(c.is_paused());
    assert_eq!(c.current_position(5000), 1000);
    c.resume(5000);
    assert!(c.is_playing());
    assert_eq!(c.current_position(5000), before);
    assert_eq!(c.current_position(5250), 1250);
}

#[test]
fn position_never_decreases_while_playing() {
    let mut c = PlaybackClock::new();
    c.start(100);
    let mut last = 0;
    for t in [100u64, 150, 150, 400, 1000, 99_999] {
        let p = c.current_position(t);
        assert!(p >= last);
        last = p;
    }
}

#[test]
fn reading_before_start_counts_no_time() {
    let mut c = PlaybackClock::new();
    c.start(500);
    assert_eq!(c.current_position(200), 0);
}

#[test]
fn pause_and_resume_are_no_ops_in_other_states() {
    let mut c = PlaybackClock::new();
    c.pause(10);
    assert_eq!(c, PlaybackClock::Stopped);
    c.resume(10);
    assert_eq!(c, PlaybackClock::Stopped);
    c.start(0);
    c.resume(50);
    assert_eq!(c, PlaybackClock::Playing { position_ms: 0, since_ms: 0 });
    c.pause(70);
    c.pause(90);
    assert_eq!(c, PlaybackClock::Paused { position_ms: 70 });
}

#[test]
fn seek_and_stop_overwrite_position() {
    let mut c = PlaybackClock::new();
    c.start(0);
    c.seek_to(2500, 300);
    assert!(c.is_playing());
    assert_eq!(c.current_position(300), 2500);
    assert_eq!(c.current_position(400), 2600);
    c.stop();
    assert!(c.is_stopped());
    assert_eq!(c.current_position(400), 0);
}

#[test]
fn position_saturates_at_u64_max() {
    let mut c = PlaybackClock::new();
    c.seek_to(u64::MAX - 10, 0);
    assert_eq!(c.current_position(100), u64::MAX);
}
