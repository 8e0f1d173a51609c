use cadence_core::{PlayerService, Request};
use std::sync::mpsc;

#[test]
fn simple_requests_reach_the_worker_in_order() {
    let (tx, rx) = mpsc::channel();
    let service = PlayerService::from_sender(tx);
    assert_eq!(service.send_simple(Request::Pause), Ok(()));
    assert_eq!(service.send_simple(Request::Resume), Ok(()));
    assert_eq!(service.send_simple(Request::Stop), Ok(()));
    assert!(matches!(rx.recv().unwrap(), Request::Pause));
    assert!(matches!(rx.recv().unwrap(), Request::Resume));
    assert!(matches!(rx.recv().unwrap(), Request::Stop));
}

#[test]
fn sending_to_a_gone_worker_fails() {
    let (tx, rx) = mpsc::channel();
    drop(rx);
    let service = PlayerService::from_sender(tx);
    assert!(service.send_simple(Request::Pause).is_err());
    assert!(service.play("a.wav".to_string()).is_err());
    assert!(service.position().is_err());
}

#[test]
fn request_constructors_carry_their_arguments() {
    let (tx, rx) = mpsc::channel();
    match Request::play("a.wav".to_string(), tx) {
        Request::Play { path, respond_to } => {
            assert_eq!(path, "a.wav".to_string());
            respond_to.send(Err("x".to_string())).unwrap();
            assert_eq!(rx.recv().unwrap(), Err("x".to_string()));
        }
        _ => panic!("expected a play request"),
    }
    let (tx, _rx) = mpsc::channel();
    assert!(matches!(Request::seek(2500, tx), Request::Seek { target_ms: 2500, .. }));
    let (tx, _rx) = mpsc::channel();
    assert!(matches!(Request::advance(-1000, tx), Request::Advance { delta_ms: -1000, .. }));
    let (tx, rx) = mpsc::channel();
    match Request::position(tx) {
        Request::Position { respond_to } => {
            respond_to.send(42).unwrap();
            assert_eq!(rx.recv().unwrap(), 42);
        }
        _ => panic!("expected a position request"),
    }
}

#[test]
fn matching_reply_keeps_descriptors_of_the_requested_track() {
    let requested = "a.wav".to_string();
    let ok = Ok(cadence_core::TrackInfo { path: "a.wav".to_string(), duration_ms: Some(10) });
    assert_eq!(PlayerService::matching_reply(&requested, ok.clone()), ok);
    let err: Result<cadence_core::TrackInfo, String> = Err("Decode failed: x".to_string());
    assert_eq!(PlayerService::matching_reply(&requested, err.clone()), err);
    let other = Ok(cadence_core::TrackInfo { path: "b.wav".to_string(), duration_ms: None });
    assert!(PlayerService::matching_reply(&requested, other).is_err());
}

#[test]
fn send_simple_passes_any_request_on() {
    let (tx, rx) = mpsc::channel();
    let service = PlayerService::from_sender(tx);
    let (reply_tx, _reply_rx) = mpsc::channel();
    assert_eq!(service.send_simple(Request::seek(700, reply_tx)), Ok(()));
    assert!(matches!(rx.recv().unwrap(), Request::Seek { target_ms: 700, .. }));
}
