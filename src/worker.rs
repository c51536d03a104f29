//! The shared worker and the decisions of one request against it.
//!
//! A request is driven from outside: the driver holds the lock around the
//! shared `WorkerSlot` for the whole request, performs each `Action` that a
//! `Request` hands out, and reports what happened. The `Request` decides when
//! the worker is started, reused, kept or dropped.

use vstd::prelude::*;
use crate::error::TranscribeError;
use crate::frame::{encode_frame, frame_of, MAX_PAYLOAD};
use crate::reply::{check_handshake, interpret_reply, reading_of, trimmed};

verus! {

/// The single place that holds the shared worker, when one is running.
pub struct WorkerSlot<H> {
    worker: Option<H>,
}

impl<H> WorkerSlot<H> {
    /// The worker that the slot holds.
    pub closed spec fn held(&self) -> Option<H> {
        self.worker
    }

    /// An empty slot: no worker has been started.
    pub fn new() -> (r: WorkerSlot<H>)
        ensures
            r.held() is None,
    {
        WorkerSlot { worker: None }
    }

    /// Whether the slot holds a worker.
    pub fn is_running(&self) -> (r: bool)
        ensures
            r == self.held() is Some,
    {
        self.worker.is_some()
    }

    /// Takes the worker out, to poll or use it; the slot is left empty.
    pub fn take(&mut self) -> (r: Option<H>)
        ensures
            r == old(self).held(),
            final(self).held() is None,
    {
        self.worker.take()
    }

    fn publish(&mut self, worker: H)
        ensures
            final(self).held() == Some(worker),
    {
        self.worker = Some(worker);
    }
}

/// What the driver of a request is asked to do next.
pub enum Action {
    /// Take the worker from the slot, ask without blocking whether its process
    /// has exited, and report with `Request::polled`.
    Poll,
    /// Resolve the script and the runtime, spawn the worker and read its first
    /// line; report with `Request::launched`.
    Launch,
    /// Take the worker, write these bytes to its input and flush, then read one
    /// reply frame; report with `Request::exchanged`.
    Send(Vec<u8>),
    /// The request is over: this goes to the caller.
    Reply(Result<String, TranscribeError>),
}

/// What came of launching a worker.
pub enum Launch<H> {
    /// No worker script was found.
    ScriptMissing,
    /// No runtime answered.
    RuntimeMissing,
    /// Spawning the process failed, for this reason.
    SpawnFailed(String),
    /// The process runs, and wrote this first line.
    Spawned(H, String),
}

/// Takes back a worker that was polled outside any request, with whether its
/// process has exited: a live worker goes back into the slot and `Ok(false)`
/// says that nothing is to be done; an exited one is dropped and `Ok(true)`
/// asks for a launch; a failed poll keeps the worker and reports the failure.
pub fn recheck<H>(slot: &mut WorkerSlot<H>, worker: H, exited: Result<bool, String>) -> (r: Result<bool, TranscribeError>)
    ensures
        exited == Ok::<bool, String>(true) ==> (r == Ok::<bool, TranscribeError>(true)
            && final(slot).held() is None),
        exited == Ok::<bool, String>(false) ==> (r == Ok::<bool, TranscribeError>(false)
            && final(slot).held() == Some(worker)),
        exited matches Err(m) ==> (r == Err::<bool, TranscribeError>(TranscribeError::Io(m))
            && final(slot).held() == Some(worker)),
{
    match exited {
        Ok(true) => {
            let _ = slot.take();
            Ok(true)
        },
        Ok(false) => {
            slot.publish(worker);
            Ok(false)
        },
        Err(m) => {
            slot.publish(worker);
            Err(TranscribeError::Io(m))
        },
    }
}

/// Installs a worker launched ahead of any request: it is published where its
/// first line reads `ready`; any other outcome is its error, the slot left
/// empty.
pub fn install<H>(slot: &mut WorkerSlot<H>, outcome: Launch<H>) -> (r: Result<(), TranscribeError>)
    requires
        old(slot).held() is None,
    ensures
        outcome is ScriptMissing ==> (r == Err::<(), TranscribeError>(
            TranscribeError::ScriptNotFound,
        ) && final(slot).held() is None),
        outcome is RuntimeMissing ==> (r == Err::<(), TranscribeError>(
            TranscribeError::RuntimeNotFound,
        ) && final(slot).held() is None),
        outcome matches Launch::SpawnFailed(m) ==> (r == Err::<(), TranscribeError>(
            TranscribeError::SpawnFailed(m),
        ) && final(slot).held() is None),
        outcome matches Launch::Spawned(w, line) ==> (trimmed(line@) == "ready"@ ==> (r is Ok
            && final(slot).held() == Some(w))),
        outcome matches Launch::Spawned(w, line) ==> (trimmed(line@) != "ready"@ ==> (
        final(slot).held() is None && (r matches Err(TranscribeError::NotReady(t)) && t@
            == trimmed(line@)))),
{
    match outcome {
        Launch::ScriptMissing => Err(TranscribeError::ScriptNotFound),
        Launch::RuntimeMissing => Err(TranscribeError::RuntimeNotFound),
        Launch::SpawnFailed(m) => Err(TranscribeError::SpawnFailed(m)),
        Launch::Spawned(w, line) => {
            match check_handshake(line.as_str()) {
                Ok(()) => {
                    slot.publish(w);
                    Ok(())
                },
                Err(e) => Err(e),
            }
        },
    }
}

/// Where a request stands.
#[derive(Debug, Clone, Copy, PartialEq, Eq, Structural)]
pub enum Stage {
    /// Waiting to learn whether the held worker is still alive.
    Polling,
    /// Waiting for a fresh worker.
    Launching,
    /// Waiting for the reply to the request frame.
    Exchanging,
    /// Over.
    Done,
}

/// The action that sends `audio`: its frame, or `TooLarge` where it does not
/// fit in one.
pub open spec fn sends(r: Action, audio: Seq<u8>) -> bool {
    if audio.len() <= MAX_PAYLOAD {
        r matches Action::Send(f) && f@ == frame_of(audio)
    } else {
        r == Action::Reply(Err(TranscribeError::TooLarge))
    }
}

/// The stage that follows sending `audio`.
pub open spec fn stage_after_send(audio: Seq<u8>) -> Stage {
    if audio.len() <= MAX_PAYLOAD {
        Stage::Exchanging
    } else {
        Stage::Done
    }
}

/// One transcription request against the shared worker.
pub struct Request {
    audio: Vec<u8>,
    stage: Stage,
    launches: u8,
}

impl Request {
    /// The audio that the request carries.
    pub closed spec fn audio(&self) -> Seq<u8> {
        self.audio@
    }

    /// Where the request stands.
    pub closed spec fn stage(&self) -> Stage {
        self.stage
    }

    /// How many workers the request has asked to launch.
    pub closed spec fn launches(&self) -> nat {
        self.launches as nat
    }

    /// A request launches at most one worker, and only before it is launching.
    pub open spec fn wf(&self) -> bool {
        &&& self.launches() <= 1
        &&& self.stage() == Stage::Polling ==> self.launches() == 0
        &&& self.stage() == Stage::Launching ==> self.launches() == 1
    }

    /// Starts a request for `audio`: poll the held worker, or launch one where
    /// the slot is empty.
    pub fn begin<H>(slot: &WorkerSlot<H>, audio: Vec<u8>) -> (r: (Request, Action))
        ensures
            r.0.wf(),
            r.0.audio() == audio@,
            slot.held() is Some ==> (r.1 is Poll && r.0.stage() == Stage::Polling
                && r.0.launches() == 0),
            slot.held() is None ==> (r.1 is Launch && r.0.stage() == Stage::Launching
                && r.0.launches() == 1),
    {
        if slot.is_running() {
            (Request { audio, stage: Stage::Polling, launches: 0 }, Action::Poll)
        } else {
            (Request { audio, stage: Stage::Launching, launches: 1 }, Action::Launch)
        }
    }

    fn send(&mut self) -> (r: Action)
        ensures
            final(self).audio() == old(self).audio(),
            final(self).launches() == old(self).launches(),
            final(self).stage() == stage_after_send(old(self).audio()),
            sends(r, old(self).audio()),
    {
        match encode_frame(self.audio.as_slice()) {
            Ok(frame) => {
                self.stage = Stage::Exchanging;
                Action::Send(frame)
            },
            Err(_) => {
                self.stage = Stage::Done;
                Action::Reply(Err(TranscribeError::TooLarge))
            },
        }
    }

    /// Takes back the worker that was polled, with whether its process has
    /// exited (or why the poll failed). A live worker goes back into the slot
    /// and gets the request; an exited one is dropped and exactly one fresh
    /// worker is asked for; a failed poll ends the request, the worker kept.
    pub fn polled<H>(&mut self, slot: &mut WorkerSlot<H>, worker: H, exited: Result<bool, String>) -> (r: Action)
        requires
            old(self).wf(),
            old(self).stage() == Stage::Polling,
        ensures
            final(self).wf(),
            final(self).audio() == old(self).audio(),
            exited == Ok::<bool, String>(true) ==> (r is Launch && final(slot).held() is None
                && final(self).stage() == Stage::Launching && final(self).launches() == 1),
            exited == Ok::<bool, String>(false) ==> (final(slot).held() == Some(worker) && sends(
                r,
                old(self).audio(),
            ) && final(self).stage() == stage_after_send(old(self).audio())),
            exited matches Err(m) ==> (final(slot).held() == Some(worker) && r == Action::Reply(
                Err(TranscribeError::Io(m)),
            ) && final(self).stage() == Stage::Done),
    {
        match exited {
            Ok(true) => {
                let _ = slot.take();
                self.stage = Stage::Launching;
                self.launches = 1;
                Action::Launch
            },
            Ok(false) => {
                slot.publish(worker);
                self.send()
            },
            Err(m) => {
                slot.publish(worker);
                self.stage = Stage::Done;
                Action::Reply(Err(TranscribeError::Io(m)))
            },
        }
    }

    /// Takes what came of the launch. A worker whose first line reads `ready`
    /// is published in the slot and gets the request; any other outcome ends
    /// the request with its error and leaves the slot empty. No second launch
    /// is ever asked for.
    pub fn launched<H>(&mut self, slot: &mut WorkerSlot<H>, outcome: Launch<H>) -> (r: Action)
        requires
            old(self).wf(),
            old(self).stage() == Stage::Launching,
            old(slot).held() is None,
        ensures
            final(self).wf(),
            final(self).audio() == old(self).audio(),
            final(self).launches() == 1,
            !(r is Launch),
            !(r is Poll),
            outcome is ScriptMissing ==> (r == Action::Reply(Err(TranscribeError::ScriptNotFound))
                && final(slot).held() is None && final(self).stage() == Stage::Done),
            outcome is RuntimeMissing ==> (r == Action::Reply(
                Err(TranscribeError::RuntimeNotFound),
            ) && final(slot).held() is None && final(self).stage() == Stage::Done),
            outcome matches Launch::SpawnFailed(m) ==> (r == Action::Reply(
                Err(TranscribeError::SpawnFailed(m)),
            ) && final(slot).held() is None && final(self).stage() == Stage::Done),
            outcome matches Launch::Spawned(w, line) ==> (trimmed(line@) == "ready"@ ==> (
            final(slot).held() == Some(w) && sends(r, old(self).audio()) && final(self).stage()
                == stage_after_send(old(self).audio()))),
            outcome matches Launch::Spawned(w, line) ==> (trimmed(line@) != "ready"@ ==> (
            final(slot).held() is None && final(self).stage() == Stage::Done && (r matches Action::Reply(
                Err(TranscribeError::NotReady(t)),
            ) && t@ == trimmed(line@)))),
    {
        match outcome {
            Launch::ScriptMissing => {
                self.stage = Stage::Done;
                Action::Reply(Err(TranscribeError::ScriptNotFound))
            },
            Launch::RuntimeMissing => {
                self.stage = Stage::Done;
                Action::Reply(Err(TranscribeError::RuntimeNotFound))
            },
            Launch::SpawnFailed(m) => {
                self.stage = Stage::Done;
                Action::Reply(Err(TranscribeError::SpawnFailed(m)))
            },
            Launch::Spawned(w, line) => {
                match check_handshake(line.as_str()) {
                    Ok(()) => {
                        slot.publish(w);
                        self.send()
                    },
                    Err(e) => {
                        self.stage = Stage::Done;
                        Action::Reply(Err(e))
                    },
                }
            },
        }
    }

    /// Takes back the worker that was sent the request, with the reply payload
    /// or why the pipes failed. After a reply the worker goes back into the
    /// slot, also where the reply reports an error; after a pipe failure it is
    /// dropped, so that the next request launches a fresh one.
    pub fn exchanged<H>(&mut self, slot: &mut WorkerSlot<H>, worker: H, reply: Result<Vec<u8>, String>) -> (r: Action)
        requires
            old(self).wf(),
            old(self).stage() == Stage::Exchanging,
        ensures
            final(self).wf(),
            final(self).audio() == old(self).audio(),
            final(self).launches() == old(self).launches(),
            final(self).stage() == Stage::Done,
            reply matches Err(m) ==> (r == Action::Reply(Err(TranscribeError::Io(m)))
                && final(slot).held() is None),
            reply matches Ok(p) ==> (final(slot).held() == Some(worker) && (r matches Action::Reply(
                x,
            ) && reading_of(p@, x))),
    {
        self.stage = Stage::Done;
        match reply {
            Ok(p) => {
                slot.publish(worker);
                Action::Reply(interpret_reply(p.as_slice()))
            },
            Err(m) => {
                let _ = slot.take();
                Action::Reply(Err(TranscribeError::Io(m)))
            },
        }
    }
}

} // verus!
