//! A call: an event sent to the peer that awaits its response.
//!
//! The decisions of a call are a machine, stepped by what happened to each
//! of its requests. The listener for the response is queued first; then
//! the frame is sent; then the response is awaited for the timeout. When
//! the frame cannot be sent, or no response comes in time, the listener is
//! removed again before the call ends. A response with a value is decoded;
//! one with an error ends the call with that error.

use vstd::prelude::*;
use crate::json::{text, FormatError, JsonValue};
use crate::message::encode_call;
use crate::options::{duration_debug, Timeout};
use crate::status::{AsyncSocketResult, Status, StatusKind};
use crate::uuid::{hyphenated, Uuid};

verus! {

/// Where a call stands.
#[derive(PartialEq, Eq, Structural, Clone, Copy, Debug)]
pub enum CallPhase {
    /// The listener for the response is being queued.
    Queueing,
    /// The frame is being sent.
    Sending,
    /// The response is awaited.
    Waiting,
    /// The frame could not be sent; the listener is being removed.
    RemovingAfterSendFailure,
    /// No response came in time; the listener is being removed.
    RemovingAfterTimeout,
    /// A response with a value came; the value is being decoded.
    Decoding,
    /// The call has ended.
    Done,
}

/// What became of the listener for a call's response.
#[derive(PartialEq, Eq, Structural, Clone, Copy, Debug)]
pub enum ListenerState {
    /// It was not queued.
    NotQueued,
    /// It is queued and awaits the response.
    Queued,
    /// The task that holds the queue took it out: to hand it the response,
    /// or because the task ended.
    Taken,
    /// It was removed from the queue.
    Removed,
    /// Its removal failed: it may stay queued.
    Leaked,
}

/// What happened to the last request of a call.
pub enum CallEvent {
    /// The listener was queued, or the queueing failed with an error text.
    Queued(Result<(), String>),
    /// The frame was sent, or the sending failed with an error text.
    Sent(Result<(), String>),
    /// The listener was removed, or the removal failed.
    Removed(Result<(), String>),
    /// A response came, or receiving it failed with an error text.
    Answered(Result<Status<JsonValue>, String>),
    /// No response came within the timeout.
    TimedOut,
    /// The value of the response was decoded, or decoding failed with an
    /// error text.
    Decoded(Result<(), String>),
}

/// What to do next for a call.
pub enum CallAction {
    /// Queue a listener for the response with this identifier.
    QueueListener(Uuid),
    /// Send this frame.
    SendFrame(JsonValue),
    /// Await the response, for the call's timeout.
    AwaitResponse,
    /// Remove the listener for the response with this identifier.
    RemoveListener(Uuid),
    /// Decode this value of the response.
    Decode(JsonValue),
    /// The call ends: with the decoded value, or with this error.
    Finish(AsyncSocketResult<()>),
    /// The event does not belong to where the call stands; nothing changes.
    Ignore,
}

/// The state of a call.
pub struct CallMachine {
    uuid: Uuid,
    frame: Option<JsonValue>,
    timeout: Timeout,
    phase: CallPhase,
    send_error: String,
    listener: ListenerState,
}

/// The message of a failed removal after a failed send.
pub open spec fn send_failure_removal_text(uuid: u128) -> Seq<char> {
    "Failed to remove message "@ + hyphenated(uuid)
        + " after send message request failed to queue. Warning: this could cause a memory leak."@
}

/// The message of a failed removal after a timeout.
pub open spec fn timeout_removal_text(uuid: u128) -> Seq<char> {
    "Failed to remove message "@ + hyphenated(uuid)
        + " after timeout. Warning: this could cause a memory leak."@
}

/// The message of a call that timed out.
pub open spec fn timeout_text(uuid: u128, timeout: (u64, u32)) -> Seq<char> {
    "Async call "@ + hyphenated(uuid) + " timed out after "@ + duration_debug(timeout.0, timeout.1)
}

/// Whether an event belongs to a phase.
pub open spec fn fits(phase: CallPhase, event: CallEvent) -> bool {
    match event {
        CallEvent::Queued(_) => phase == CallPhase::Queueing,
        CallEvent::Sent(_) => phase == CallPhase::Sending,
        CallEvent::Removed(_) => phase == CallPhase::RemovingAfterSendFailure || phase
            == CallPhase::RemovingAfterTimeout,
        CallEvent::Answered(_) => phase == CallPhase::Waiting,
        CallEvent::TimedOut => phase == CallPhase::Waiting,
        CallEvent::Decoded(_) => phase == CallPhase::Decoding,
    }
}

/// Whether an action ends a call with an error of the given kind and message.
pub open spec fn fails_with(a: CallAction, kind: StatusKind, message: Seq<char>) -> bool {
    a matches CallAction::Finish(Err(s)) && s.kind() == kind && s.message() == message
}

impl CallMachine {
    /// Whether the state is one that a call reaches.
    pub closed spec fn wf(&self) -> bool {
        &&& self.phase == CallPhase::Queueing ==> self.frame is Some && self.listener
            == ListenerState::NotQueued
        &&& (self.phase == CallPhase::Sending || self.phase == CallPhase::Waiting || self.phase
            == CallPhase::RemovingAfterSendFailure || self.phase == CallPhase::RemovingAfterTimeout)
            ==> self.listener == ListenerState::Queued
        &&& self.phase == CallPhase::Decoding ==> self.listener == ListenerState::Taken
        &&& self.phase == CallPhase::Done ==> self.listener != ListenerState::Queued
    }

    /// Where the call stands.
    pub closed spec fn phase(&self) -> CallPhase {
        self.phase
    }

    /// What became of the call's listener.
    pub closed spec fn listener(&self) -> ListenerState {
        self.listener
    }

    /// The identifier of the call.
    pub closed spec fn uuid(&self) -> u128 {
        self.uuid@
    }

    /// How long the call waits for its response.
    pub closed spec fn timeout(&self) -> (u64, u32) {
        self.timeout@
    }

    /// The frame that the call sends, until it is sent.
    pub closed spec fn frame(&self) -> Option<JsonValue> {
        self.frame
    }

    /// The error of the failed send, while the listener is removed after it.
    pub closed spec fn send_error(&self) -> Seq<char> {
        self.send_error@
    }

    /// What became of the call's listener.
    pub fn listener_state(&self) -> (l: ListenerState)
        ensures
            l == self.listener(),
    {
        self.listener
    }

    /// Where the call stands.
    pub fn current_phase(&self) -> (p: CallPhase)
        ensures
            p == self.phase(),
    {
        self.phase
    }

    /// Begins a call with the given identifier, of an event (or the text of
    /// the error that kept it from being written), waiting for its response
    /// for the given time. An event that is not written as an object cannot
    /// be sent as a call: the call ends with `SerializeFailed` and the text
    /// of `FormatError::NotAnObject`.
    pub fn start(uuid: Uuid, event: Result<JsonValue, String>, timeout: Timeout) -> (r: (
        CallMachine,
        CallAction,
    ))
        ensures
            r.0.wf(),
            r.0.uuid() == uuid@,
            r.0.timeout() == timeout@,
            match event {
                Err(e) => r.0.phase() == CallPhase::Done && r.0.listener()
                    == ListenerState::NotQueued && fails_with(
                    r.1,
                    StatusKind::SerializeFailed,
                    e@,
                ),
                Ok(ev) => match ev.deep() {
                    crate::json::Json::Object(entries) => {
                        &&& r.0.phase() == CallPhase::Queueing
                        &&& r.0.listener() == ListenerState::NotQueued
                        &&& r.0.frame() matches Some(f) && f.deep() == crate::message::call_json(
                            uuid@,
                            entries,
                        )
                        &&& r.1 == CallAction::QueueListener(uuid)
                    },
                    _ => r.0.phase() == CallPhase::Done && r.0.listener()
                        == ListenerState::NotQueued && fails_with(
                        r.1,
                        StatusKind::SerializeFailed,
                        FormatError::NotAnObject.spec_text(),
                    ),
                },
            },
    {
        match event {
            Err(e) => {
                let m = CallMachine {
                    uuid,
                    frame: None,
                    timeout,
                    phase: CallPhase::Done,
                    send_error: String::new(),
                    listener: ListenerState::NotQueued,
                };
                (m, CallAction::Finish(Err(Status::SerializeFailed(e))))
            },
            Ok(ev) => match encode_call(&uuid, ev) {
                Ok(frame) => {
                    let m = CallMachine {
                        uuid,
                        frame: Some(frame),
                        timeout,
                        phase: CallPhase::Queueing,
                        send_error: String::new(),
                        listener: ListenerState::NotQueued,
                    };
                    (m, CallAction::QueueListener(uuid))
                },
                Err(x) => {
                    let m = CallMachine {
                        uuid,
                        frame: None,
                        timeout,
                        phase: CallPhase::Done,
                        send_error: String::new(),
                        listener: ListenerState::NotQueued,
                    };
                    (m, CallAction::Finish(Err(Status::SerializeFailed(x.text()))))
                },
            },
        }
    }
}

} // verus!

verus! {

fn removal_failure_message(uuid: &Uuid, after_timeout: bool) -> (s: String)
    ensures
        s@ == if after_timeout {
            timeout_removal_text(uuid@)
        } else {
            send_failure_removal_text(uuid@)
        },
{
    let mut s = text("Failed to remove message ");
    let u = uuid.to_text();
    s.append(u.as_str());
    if after_timeout {
        s.append(" after timeout. Warning: this could cause a memory leak.");
    } else {
        s.append(
            " after send message request failed to queue. Warning: this could cause a memory leak.",
        );
    }
    s
}

fn timeout_message(uuid: &Uuid, timeout: &Timeout) -> (s: String)
    ensures
        s@ == timeout_text(uuid@, timeout@),
{
    let mut s = text("Async call ");
    let u = uuid.to_text();
    s.append(u.as_str());
    s.append(" timed out after ");
    let d = timeout.debug_text();
    s.append(d.as_str());
    s
}

impl CallMachine {
    /// Steps the call by what happened to its last request, and says what
    /// to do next. An event that does not belong to where the call stands
    /// changes nothing.
    pub fn step(&mut self, event: CallEvent) -> (a: CallAction)
        requires
            old(self).wf(),
        ensures
            final(self).wf(),
            final(self).uuid() == old(self).uuid(),
            final(self).timeout() == old(self).timeout(),
            a is Finish ==> final(self).phase() == CallPhase::Done,
            final(self).phase() == CallPhase::Done ==> final(self).listener()
                != ListenerState::Queued,
            !fits(old(self).phase(), event) ==> a is Ignore && final(self).phase() == old(
                self,
            ).phase() && final(self).listener() == old(self).listener(),
            fits(old(self).phase(), event) ==> match event {
                CallEvent::Queued(Err(e)) => final(self).listener() == ListenerState::NotQueued
                    && fails_with(a, StatusKind::MessageQueueError, e@),
                CallEvent::Queued(Ok(())) => {
                    &&& final(self).phase() == CallPhase::Sending
                    &&& final(self).listener() == ListenerState::Queued
                    &&& old(self).frame() matches Some(f) && a == CallAction::SendFrame(f)
                },
                CallEvent::Sent(Ok(())) => final(self).phase() == CallPhase::Waiting
                    && final(self).listener() == old(self).listener() && a is AwaitResponse,
                CallEvent::Sent(Err(e)) => final(self).phase()
                    == CallPhase::RemovingAfterSendFailure && final(self).send_error() == e@
                    && final(self).listener() == old(self).listener() && (a matches CallAction::RemoveListener(u) && u@
                    == old(self).uuid()),
                CallEvent::Removed(Ok(())) => final(self).listener() == ListenerState::Removed
                    && if old(self).phase() == CallPhase::RemovingAfterSendFailure {
                    fails_with(a, StatusKind::MessageQueueError, old(self).send_error())
                } else {
                    fails_with(
                        a,
                        StatusKind::Timeout,
                        timeout_text(old(self).uuid(), old(self).timeout()),
                    )
                },
                CallEvent::Removed(Err(_)) => final(self).listener() == ListenerState::Leaked
                    && fails_with(
                    a,
                    StatusKind::RemoveMessageQueueError,
                    if old(self).phase() == CallPhase::RemovingAfterSendFailure {
                        send_failure_removal_text(old(self).uuid())
                    } else {
                        timeout_removal_text(old(self).uuid())
                    },
                ),
                CallEvent::Answered(Err(e)) => final(self).listener() == ListenerState::Taken
                    && fails_with(a, StatusKind::RecvError, e@),
                CallEvent::Answered(Ok(s)) => final(self).listener() == ListenerState::Taken
                    && match s {
                    Status::Success(v) => final(self).phase() == CallPhase::Decoding && a
                        == CallAction::Decode(v),
                    _ => fails_with(
                        a,
                        if s.kind() == StatusKind::SerializeFailed {
                            StatusKind::DeserializeFailed
                        } else {
                            s.kind()
                        },
                        s.message(),
                    ),
                },
                CallEvent::TimedOut => final(self).phase() == CallPhase::RemovingAfterTimeout
                    && final(self).listener() == old(self).listener() && (a matches CallAction::RemoveListener(u) && u@
                    == old(self).uuid()),
                CallEvent::Decoded(Ok(())) => final(self).listener() == old(self).listener()
                    && a == CallAction::Finish(Ok(())),
                CallEvent::Decoded(Err(e)) => final(self).listener() == old(self).listener()
                    && fails_with(a, StatusKind::DeserializeFailed, e@),
            },
    {
        match event {
            CallEvent::Queued(r) => {
                if self.phase != CallPhase::Queueing {
                    return CallAction::Ignore;
                }
                match r {
                    Err(e) => {
                        self.phase = CallPhase::Done;
                        CallAction::Finish(Err(Status::MessageQueueError(e)))
                    },
                    Ok(()) => {
                        let frame = self.frame.take().unwrap();
                        self.listener = ListenerState::Queued;
                        self.phase = CallPhase::Sending;
                        CallAction::SendFrame(frame)
                    },
                }
            },
            CallEvent::Sent(r) => {
                if self.phase != CallPhase::Sending {
                    return CallAction::Ignore;
                }
                match r {
                    Ok(()) => {
                        self.phase = CallPhase::Waiting;
                        CallAction::AwaitResponse
                    },
                    Err(e) => {
                        self.send_error = e;
                        self.phase = CallPhase::RemovingAfterSendFailure;
                        CallAction::RemoveListener(self.uuid)
                    },
                }
            },
            CallEvent::Removed(r) => {
                let after_timeout = self.phase == CallPhase::RemovingAfterTimeout;
                if !(after_timeout || self.phase == CallPhase::RemovingAfterSendFailure) {
                    return CallAction::Ignore;
                }
                match r {
                    Ok(()) => {
                        self.listener = ListenerState::Removed;
                        self.phase = CallPhase::Done;
                        if after_timeout {
                            let m = timeout_message(&self.uuid, &self.timeout);
                            CallAction::Finish(Err(Status::Timeout(m)))
                        } else {
                            let mut e = String::new();
                            std::mem::swap(&mut e, &mut self.send_error);
                            CallAction::Finish(Err(Status::MessageQueueError(e)))
                        }
                    },
                    Err(_) => {
                        self.listener = ListenerState::Leaked;
                        self.phase = CallPhase::Done;
                        let m = removal_failure_message(&self.uuid, after_timeout);
                        CallAction::Finish(Err(Status::RemoveMessageQueueError(m)))
                    },
                }
            },
            CallEvent::Answered(r) => {
                if self.phase != CallPhase::Waiting {
                    return CallAction::Ignore;
                }
                match r {
                    Err(e) => {
                        self.phase = CallPhase::Done;
                        self.listener = ListenerState::Taken;
                        CallAction::Finish(Err(Status::RecvError(e)))
                    },
                    Ok(s) => {
                        self.listener = ListenerState::Taken;
                        match s {
                            Status::Success(v) => {
                                self.phase = CallPhase::Decoding;
                                CallAction::Decode(v)
                            },
                            other => {
                                self.phase = CallPhase::Done;
                                CallAction::Finish(Err(other.clear_value()))
                            },
                        }
                    },
                }
            },
            CallEvent::TimedOut => {
                if self.phase != CallPhase::Waiting {
                    return CallAction::Ignore;
                }
                self.phase = CallPhase::RemovingAfterTimeout;
                CallAction::RemoveListener(self.uuid)
            },
            CallEvent::Decoded(r) => {
                if self.phase != CallPhase::Decoding {
                    return CallAction::Ignore;
                }
                self.phase = CallPhase::Done;
                match r {
                    Ok(()) => CallAction::Finish(Ok(())),
                    Err(e) => CallAction::Finish(Err(Status::DeserializeFailed(e))),
                }
            },
        }
    }
}

} // verus!
