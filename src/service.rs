//! The serialized command queue in front of the playback worker.
//!
//! Any number of callers hold a `PlayerService`; each request travels down
//! one channel to the single worker that owns the output device, and
//! requests that produce a result carry their own reply channel.
use vstd::prelude::*;
use std::sync::mpsc::{Receiver, Sender};
use crate::decode::TrackInfo;

verus! {

#[verifier::external_type_specification]
#[verifier::external_body]
#[verifier::reject_recursive_types(T)]
pub struct ExSender<T>(Sender<T>);

#[verifier::external_type_specification]
#[verifier::external_body]
#[verifier::reject_recursive_types(T)]
pub struct ExReceiver<T>(Receiver<T>);

/// Relies on std::sync::mpsc::channel: a fresh connected pair of ends.
#[verifier::external_body]
fn open_channel<T>() -> (Sender<T>, Receiver<T>) {
    std::sync::mpsc::channel()
}

/// Relies on std::sync::mpsc::Sender::send, which fails when the receiving
/// end has been dropped; the error is turned into its message.
#[verifier::external_body]
fn send_on<T>(sender: &Sender<T>, value: T) -> Result<(), String> {
    sender.send(value).map_err(|e| e.to_string())
}

/// Relies on std::sync::mpsc::Receiver::recv, which blocks for the next
/// value and fails when every sender has been dropped; the error is turned
/// into its message.
#[verifier::external_body]
fn receive_on<T>(receiver: &Receiver<T>) -> Result<T, String> {
    receiver.recv().map_err(|e| e.to_string())
}

/// A request to the playback worker, processed strictly in arrival order.
pub enum Request {
    /// Load and play a track; the worker replies with its descriptor.
    Play { path: String, respond_to: Sender<Result<TrackInfo, String>> },
    Pause,
    Resume,
    Stop,
    /// Seek to an absolute position.
    Seek { target_ms: u64, respond_to: Sender<Result<(), String>> },
    /// Skip by a signed number of milliseconds.
    Advance { delta_ms: i64, respond_to: Sender<Result<(), String>> },
    /// Report the current position.
    Position { respond_to: Sender<u64> },
}

impl Request {
    /// A request to load and play `path`, answered on `respond_to`.
    pub fn play(path: String, respond_to: Sender<Result<TrackInfo, String>>) -> (r: Request)
        ensures
            r matches Request::Play { path: p, respond_to: t } && p@ == path@ && t == respond_to,
    {
        Request::Play { path, respond_to }
    }

    /// A request to seek to `target_ms`, answered on `respond_to`.
    pub fn seek(target_ms: u64, respond_to: Sender<Result<(), String>>) -> (r: Request)
        ensures
            r matches Request::Seek { target_ms: m, respond_to: t } && m == target_ms && t == respond_to,
    {
        Request::Seek { target_ms, respond_to }
    }

    /// A request to skip by `delta_ms`, answered on `respond_to`.
    pub fn advance(delta_ms: i64, respond_to: Sender<Result<(), String>>) -> (r: Request)
        ensures
            r matches Request::Advance { delta_ms: d, respond_to: t } && d == delta_ms && t == respond_to,
    {
        Request::Advance { delta_ms, respond_to }
    }

    /// A request for the current position, answered on `respond_to`.
    pub fn position(respond_to: Sender<u64>) -> (r: Request)
        ensures
            r matches Request::Position { respond_to: t } && t == respond_to,
    {
        Request::Position { respond_to }
    }
}

/// Handle through which callers reach the playback worker.
pub struct PlayerService {
    sender: Sender<Request>,
}

impl PlayerService {
    /// The sending end of the worker's queue.
    pub closed spec fn queue(self) -> Sender<Request> {
        self.sender
    }

    /// A handle over the sending end of the worker's queue.
    pub fn from_sender(sender: Sender<Request>) -> (r: PlayerService)
        ensures
            r.queue() == sender,
    {
        PlayerService { sender }
    }

    /// Asks the worker to load and play `path` and waits for its answer: the
    /// worker's own result, or the message of a channel that was closed. A
    /// descriptor always names the requested locator.
    pub fn play(&self, path: String) -> (r: Result<TrackInfo, String>)
        ensures
            r matches Ok(info) ==> info.path@ == path@,
    {
        let requested = path.clone();
        let (reply_tx, reply_rx) = open_channel();
        send_on(&self.sender, Request::play(path, reply_tx))?;
        match receive_on(&reply_rx) {
            Ok(answer) => PlayerService::matching_reply(&requested, answer),
            Err(e) => Err(e),
        }
    }

    /// A worker's answer to a request to play `path`, passed on unchanged
    /// when it is an error or a descriptor of `path`; a descriptor of any
    /// other track is refused.
    pub fn matching_reply(path: &String, answer: Result<TrackInfo, String>) -> (r: Result<TrackInfo, String>)
        ensures
            answer matches Ok(info) && info.path@ == path@ ==> r == answer,
            answer matches Ok(info) && info.path@ != path@ ==> r is Err,
            answer is Err ==> r == answer,
    {
        match answer {
            Ok(info) => {
                if info.path == *path {
                    Ok(info)
                } else {
                    Err("Reply names another track".to_string())
                }
            },
            Err(e) => Err(e),
        }
    }

    /// Asks the worker to seek to `target_ms` and waits for its answer.
    pub fn seek(&self, target_ms: u64) -> (r: Result<(), String>) {
        let (reply_tx, reply_rx) = open_channel();
        send_on(&self.sender, Request::seek(target_ms, reply_tx))?;
        match receive_on(&reply_rx) {
            Ok(answer) => answer,
            Err(e) => Err(e),
        }
    }

    /// Asks the worker to skip by `delta_ms` and waits for its answer.
    pub fn advance(&self, delta_ms: i64) -> (r: Result<(), String>) {
        let (reply_tx, reply_rx) = open_channel();
        send_on(&self.sender, Request::advance(delta_ms, reply_tx))?;
        match receive_on(&reply_rx) {
            Ok(answer) => answer,
            Err(e) => Err(e),
        }
    }

    /// Asks the worker for the current position.
    pub fn position(&self) -> (r: Result<u64, String>) {
        let (reply_tx, reply_rx) = open_channel();
        send_on(&self.sender, Request::position(reply_tx))?;
        receive_on(&reply_rx)
    }

    /// Queues `command` without waiting for the worker; whatever answer it
    /// asks for arrives on its own reply channel.
    pub fn send_simple(&self, command: Request) -> (r: Result<(), String>) {
        send_on(&self.sender, command)
    }
}

} // verus!
