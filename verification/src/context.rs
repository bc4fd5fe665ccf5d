//! What a handler holds to talk to its peer: the channel to the task that
//! owns the session's socket, and the timeout of calls.

use vstd::prelude::*;
use tokio::sync::mpsc::UnboundedSender;
use crate::call::{
    fails_with, send_failure_removal_text, timeout_removal_text, timeout_text, CallAction,
    CallEvent, CallMachine, CallPhase, ListenerState,
};
use crate::json::{text, FormatError, Json, JsonValue};
use crate::message::{call_json, emit_json, encode_emit};
use crate::options::Timeout;
use crate::registry::ChannelMessage;
use crate::status::{AsyncSocketResult, Status, StatusKind};
use crate::uuid::{is_random_uuid, Uuid};

verus! {

/// The sending half of a `tokio` unbounded channel.
#[verifier::external_type_specification]
#[verifier::external_body]
#[verifier::reject_recursive_types(T)]
pub struct ExUnboundedSender<T>(UnboundedSender<T>);

/// Calls `UnboundedSender::send`. It fails only when the receiving half is
/// closed, which is not known here; its error is shown as `channel closed`.
#[verifier::external_body]
fn channel_send<T>(tx: &UnboundedSender<T>, msg: T) -> (r: Result<(), String>)
    ensures
        r matches Err(e) ==> e@ == "channel closed"@,
{
    tx.send(msg).map_err(|e| e.to_string())
}

/// The message of a response that could not be handed on.
pub open spec fn undelivered_response_text() -> Seq<char> {
    "Failed to send response message over oneshot::channel: channel closed."@
}

/// Whether a message hands the listener `tx` for the call `uuid`.
pub open spec fn is_queue<T>(m: ChannelMessage<JsonValue, T>, uuid: u128, tx: T) -> bool {
    m matches ChannelMessage::QueueResponseListener { uuid: u, tx: l } && u@ == uuid && l == tx
}

/// Whether a message hands a frame whose value is `frame`.
pub open spec fn is_send<T>(m: ChannelMessage<JsonValue, T>, frame: Json) -> bool {
    m matches ChannelMessage::SendMessage(f) && f.deep() == frame
}

/// Whether a message removes the listener for the call `uuid`.
pub open spec fn is_remove<T>(m: ChannelMessage<JsonValue, T>, uuid: u128) -> bool {
    m matches ChannelMessage::RemoveResponseListener { uuid: u } && u@ == uuid
}

/// Provides the interface to emit events to the peer and to call it.
#[verifier::reject_recursive_types(T)]
pub struct AsyncSocketContext<T> {
    tx: UnboundedSender<ChannelMessage<JsonValue, T>>,
    timeout: Timeout,
    handed: Ghost<Seq<ChannelMessage<JsonValue, T>>>,
    accepted: Ghost<Seq<bool>>,
}

impl<T> AsyncSocketContext<T> {
    /// How long a call of this context waits for its response.
    pub closed spec fn timeout(&self) -> (u64, u32) {
        self.timeout@
    }

    /// The messages that this context has handed to the channel, in order,
    /// whether or not the channel took them.
    pub closed spec fn handed(&self) -> Seq<ChannelMessage<JsonValue, T>> {
        self.handed@
    }

    /// For each message handed to the channel, in order, whether the
    /// channel took it.
    pub closed spec fn accepted(&self) -> Seq<bool> {
        self.accepted@
    }

    /// A context that hands its frames and listeners to `tx`, and whose
    /// calls wait for `timeout`.
    pub fn new(tx: UnboundedSender<ChannelMessage<JsonValue, T>>, timeout: Timeout) -> (c:
        AsyncSocketContext<T>)
        ensures
            c.timeout() == timeout@,
            c.handed() == Seq::<ChannelMessage<JsonValue, T>>::empty(),
            c.accepted() == Seq::<bool>::empty(),
    {
        AsyncSocketContext { tx, timeout, handed: Ghost(Seq::empty()), accepted: Ghost(Seq::empty()) }
    }

    /// How long a call of this context waits for its response.
    pub fn call_timeout(&self) -> (t: Timeout)
        ensures
            t@ == self.timeout(),
    {
        self.timeout
    }

    /// Hands a message to the channel.
    fn hand(&mut self, msg: ChannelMessage<JsonValue, T>) -> (r: Result<(), String>)
        ensures
            final(self).timeout() == old(self).timeout(),
            final(self).handed() == old(self).handed().push(msg),
            final(self).accepted() == old(self).accepted().push(r is Ok),
            r matches Err(e) ==> e@ == "channel closed"@,
    {
        self.handed = Ghost(self.handed@.push(msg));
        let r = channel_send(&self.tx, msg);
        self.accepted = Ghost(self.accepted@.push(r is Ok));
        r
    }

    /// Emits an event: one that does not await a single answer. `event` is
    /// the written event, or the text of the error that kept it from being
    /// written. The frame `{"emit": <event>}` is handed to the socket's task.
    pub fn emit(&mut self, event: Result<JsonValue, String>) -> (r: AsyncSocketResult<()>)
        ensures
            final(self).timeout() == old(self).timeout(),
            match event {
                Err(e) => {
                    &&& r matches Err(s) && s.kind() == StatusKind::SerializeFailed && s.message()
                        == e@
                    &&& final(self).handed() == old(self).handed()
                    &&& final(self).accepted() == old(self).accepted()
                },
                Ok(ev) => {
                    &&& r is Ok || (r matches Err(s) && s.kind() == StatusKind::MessageQueueError
                        && s.message() == "channel closed"@)
                    &&& final(self).accepted() == old(self).accepted().push(r is Ok)
                    &&& final(self).handed().len() == old(self).handed().len() + 1
                    &&& final(self).handed().drop_last() == old(self).handed()
                    &&& is_send(final(self).handed().last(), emit_json(ev.deep()))
                },
            },
    {
        match event {
            Err(e) => Err(Status::SerializeFailed(e)),
            Ok(ev) => {
                let frame = encode_emit(ev);
                let r = self.hand(ChannelMessage::SendMessage(frame));
                proof {
                    assert(self.handed().drop_last() =~= old(self).handed());
                }
                match r {
                    Ok(()) => Ok(()),
                    Err(e) => Err(Status::MessageQueueError(e)),
                }
            },
        }
    }

    /// Hands a frame to the socket's task, to be written to the peer.
    pub fn send_frame(&mut self, frame: JsonValue) -> (r: Result<(), String>)
        ensures
            final(self).timeout() == old(self).timeout(),
            final(self).handed() == old(self).handed().push(ChannelMessage::SendMessage(frame)),
            final(self).accepted() == old(self).accepted().push(r is Ok),
            r matches Err(e) ==> e@ == "channel closed"@,
    {
        self.hand(ChannelMessage::SendMessage(frame))
    }

    /// Hands a response from the peer to the socket's task, which passes it
    /// to the call that awaits it.
    pub fn deliver_response(&mut self, uuid: Uuid, status: Status<JsonValue>) -> (r:
        AsyncSocketResult<()>)
        ensures
            final(self).timeout() == old(self).timeout(),
            final(self).handed() == old(self).handed().push(
                ChannelMessage::TriggerResponse { uuid, status },
            ),
            final(self).accepted() == old(self).accepted().push(r is Ok),
            r is Ok || (r matches Err(s) && s.kind() == StatusKind::MessageQueueError
                && s.message() == undelivered_response_text()),
    {
        match self.hand(ChannelMessage::TriggerResponse { uuid, status }) {
            Ok(()) => Ok(()),
            Err(e) => {
                let mut m = text("Failed to send response message over oneshot::channel: ");
                m.append(e.as_str());
                m.append(".");
                proof {
                    reveal_strlit("Failed to send response message over oneshot::channel: ");
                    reveal_strlit("channel closed");
                    reveal_strlit(".");
                    reveal_strlit(
                        "Failed to send response message over oneshot::channel: channel closed.",
                    );
                    assert(m@ =~= undelivered_response_text());
                }
                Err(Status::MessageQueueError(m))
            },
        }
    }

    /// Begins a call of an event: `event` is the written event, or the text
    /// of the error that kept it from being written; `listener` receives the
    /// response. The call gets a new random identifier; its listener is
    /// queued and its frame sent, and where the frame cannot be sent the
    /// listener is removed again. The result is the call, and either
    /// `AwaitResponse`, after which [`AsyncSocketContext::end_call`] takes
    /// what came, or the `Finish` with which the call has already ended.
    pub fn begin_call(&mut self, event: Result<JsonValue, String>, listener: T) -> (r: (
        CallMachine,
        CallAction,
    ))
        ensures
            r.0.wf(),
            is_random_uuid(r.0.uuid()),
            r.0.timeout() == old(self).timeout(),
            final(self).timeout() == old(self).timeout(),
            r.1 is AwaitResponse ==> r.0.phase() == CallPhase::Waiting,
            r.1 is Finish ==> r.0.phase() == CallPhase::Done,
            r.1 is AwaitResponse || r.1 is Finish,
            final(self).handed().len() >= old(self).handed().len(),
            final(self).handed().take(old(self).handed().len() as int) == old(self).handed(),
            final(self).accepted().len() >= old(self).accepted().len(),
            final(self).accepted().take(old(self).accepted().len() as int) == old(self).accepted(),
            ({
                let added = final(self).handed().skip(old(self).handed().len() as int);
                let took = final(self).accepted().skip(old(self).accepted().len() as int);
                match event {
                    Err(e) => {
                        &&& r.0.listener() == ListenerState::NotQueued
                        &&& fails_with(r.1, StatusKind::SerializeFailed, e@)
                        &&& added.len() == 0
                        &&& took.len() == 0
                    },
                    Ok(ev) => match ev.deep() {
                        Json::Object(entries) => {
                            &&& 1 <= added.len() <= 3
                            &&& took.len() == added.len()
                            &&& is_queue(added[0], r.0.uuid(), listener)
                            &&& !took[0] ==> added.len() == 1 && fails_with(
                                r.1,
                                StatusKind::MessageQueueError,
                                "channel closed"@,
                            )
                            &&& took[0] ==> added.len() >= 2 && is_send(
                                added[1],
                                call_json(r.0.uuid(), entries),
                            )
                            &&& took[0] && took[1] ==> added.len() == 2 && r.1 is AwaitResponse
                            &&& took[0] && !took[1] ==> added.len() == 3 && is_remove(
                                added[2],
                                r.0.uuid(),
                            )
                            &&& took[0] && !took[1] && took[2] ==> r.0.listener() == ListenerState::Removed
                                && fails_with(r.1, StatusKind::MessageQueueError, "channel closed"@)
                            &&& took[0] && !took[1] && !took[2] ==> r.0.listener() == ListenerState::Leaked
                                && fails_with(
                                r.1,
                                StatusKind::RemoveMessageQueueError,
                                send_failure_removal_text(r.0.uuid()),
                            )
                        },
                        _ => {
                            &&& fails_with(
                                r.1,
                                StatusKind::SerializeFailed,
                                FormatError::NotAnObject.spec_text(),
                            )
                            &&& added.len() == 0
                            &&& took.len() == 0
                        },
                    },
                }
            }),
    {
        let ghost h0 = self.handed@;
        let ghost t0 = self.accepted@;
        let uuid = Uuid::new_v4();
        let (mut machine, action) = CallMachine::start(uuid, event, self.timeout);
        let a = match action {
            CallAction::QueueListener(u) => {
                let r = self.hand(ChannelMessage::QueueResponseListener { uuid: u, tx: listener });
                match machine.step(CallEvent::Queued(r)) {
                    CallAction::SendFrame(frame) => {
                        let r = self.hand(ChannelMessage::SendMessage(frame));
                        match machine.step(CallEvent::Sent(r)) {
                            CallAction::RemoveListener(u) => {
                                let r = self.hand(ChannelMessage::RemoveResponseListener { uuid: u });
                                machine.step(CallEvent::Removed(r))
                            },
                            other => other,
                        }
                    },
                    other => other,
                }
            },
            other => other,
        };
        proof {
            assert(self.handed@.take(h0.len() as int) =~= h0);
            assert(self.accepted@.take(t0.len() as int) =~= t0);
        }
        (machine, a)
    }

    /// Ends the wait of a call with what came: a response, a failure to
    /// receive one, or the end of the timeout; after a timeout the listener
    /// is removed. The result is `Decode` with the value of a response, or
    /// the `Finish` with which the call has ended.
    pub fn end_call(&mut self, machine: &mut CallMachine, outcome: CallEvent) -> (a: CallAction)
        requires
            old(machine).wf(),
            old(machine).phase() == CallPhase::Waiting,
            outcome is Answered || outcome is TimedOut,
        ensures
            final(machine).wf(),
            final(machine).uuid() == old(machine).uuid(),
            final(self).timeout() == old(self).timeout(),
            a is Decode ==> final(machine).phase() == CallPhase::Decoding,
            a is Finish ==> final(machine).phase() == CallPhase::Done,
            a is Decode || a is Finish,
            match outcome {
                CallEvent::Answered(Err(e)) => fails_with(a, StatusKind::RecvError, e@)
                    && final(self).handed() == old(self).handed() && final(self).accepted() == old(
                    self,
                ).accepted(),
                CallEvent::Answered(Ok(s)) => final(self).handed() == old(self).handed()
                    && final(self).accepted() == old(self).accepted() && match s {
                    Status::Success(v) => a == CallAction::Decode(v),
                    _ => fails_with(
                        a,
                        if s.kind() == StatusKind::SerializeFailed {
                            StatusKind::DeserializeFailed
                        } else {
                            s.kind()
                        },
                        s.message(),
                    ),
                },
                _ => {
                    &&& final(self).accepted().len() == old(self).accepted().len() + 1
                    &&& final(self).accepted().drop_last() == old(self).accepted()
                    &&& final(self).accepted().last() ==> fails_with(
                        a,
                        StatusKind::Timeout,
                        timeout_text(old(machine).uuid(), old(machine).timeout()),
                    )
                    &&& !final(self).accepted().last() ==> fails_with(
                        a,
                        StatusKind::RemoveMessageQueueError,
                        timeout_removal_text(old(machine).uuid()),
                    )
                    &&& final(self).handed().len() == old(self).handed().len() + 1
                    &&& final(self).handed().drop_last() == old(self).handed()
                    &&& is_remove(final(self).handed().last(), old(machine).uuid())
                },
            },
    {
        match machine.step(outcome) {
            CallAction::RemoveListener(u) => {
                let r = self.hand(ChannelMessage::RemoveResponseListener { uuid: u });
                proof {
                    assert(self.handed().drop_last() =~= old(self).handed());
                    assert(self.accepted().drop_last() =~= old(self).accepted());
                }
                machine.step(CallEvent::Removed(r))
            },
            other => other,
        }
    }
}

} // verus!
