//! The decisions of a session with a peer: which received frames are read,
//! what a received message asks for, and what answers a call.

use vstd::prelude::*;
use crate::context::{undelivered_response_text, AsyncSocketContext};
use crate::event::{EventSchema, EventValue};
use crate::json::{deep_items, text, JsonValue};
use crate::registry::ChannelMessage;
use crate::message::{
    decode_message, decode_message_value, encode_response, response_json, status_model,
    MessageModel, SocketMessage,
};
use crate::status::{Status, StatusKind};
use crate::uuid::Uuid;

verus! {

/// What a frame received from the peer is.
#[derive(PartialEq, Eq, Structural, Clone, Copy, Debug)]
pub enum FrameKind {
    /// A text frame.
    Text,
    /// A frame that closes the connection.
    Close,
    /// Any other frame (binary, ping, pong).
    Other,
    /// The frame could not be received.
    Failed,
}

/// What the session does with a received frame.
#[derive(PartialEq, Eq, Structural, Clone, Copy, Debug)]
pub enum FrameDisposition {
    /// Read it as a message.
    Handle,
    /// Pass over it.
    Skip,
    /// End the session.
    Stop,
}

/// What the session does with a received frame: a closing frame ends the
/// session, a text frame is read as a message, and any other frame, or a
/// failure to receive one, is passed over.
pub fn classify_frame(kind: FrameKind) -> (d: FrameDisposition)
    ensures
        d == match kind {
            FrameKind::Close => FrameDisposition::Stop,
            FrameKind::Text => FrameDisposition::Handle,
            _ => FrameDisposition::Skip,
        },
{
    match kind {
        FrameKind::Close => FrameDisposition::Stop,
        FrameKind::Text => FrameDisposition::Handle,
        _ => FrameDisposition::Skip,
    }
}

/// What a received message asks of the session.
pub enum Inbound {
    /// The peer emitted this event.
    Emit(EventValue),
    /// The peer called with this event; the answer carries this identifier.
    Call(Uuid, EventValue),
    /// The peer answered the call with this identifier; the answer has been
    /// handed to the socket's task.
    Delivered(Uuid),
}

/// The message of a received message that could not be read.
pub open spec fn unrecognized_text(reason: Seq<char>) -> Seq<char> {
    "Unrecognized message format: "@ + reason
}

/// Whether `r` is an error of the given kind and message.
pub open spec fn is_error<V>(r: Result<V, Status>, kind: StatusKind, message: Seq<char>) -> bool {
    r matches Err(s) && s.kind() == kind && s.message() == message
}

/// The error of a received message that could not be read, for the given
/// reason.
pub fn unrecognized(reason: String) -> (s: Status)
    ensures
        s.kind() == StatusKind::DeserializeFailed,
        s.message() == unrecognized_text(reason@),
{
    let mut m = text("Unrecognized message format: ");
    m.append(reason.as_str());
    Status::DeserializeFailed(m)
}

/// Takes in a message received from the peer. `parsed` is the message read
/// as JSON, or the text of the error that kept it from being read; `emit`
/// and `call` are the schemas of the events the peer may emit and call. An
/// emitted or called event is handed back to be handled; a response is
/// handed to the socket's task, which passes it to the call that awaits it.
/// A message that cannot be read is answered with the reason that
/// `FormatError::text` gives, a short phrase of this library's own that
/// does not say where in the received text the fault stands.
pub fn handle_message<T>(
    ctx: &mut AsyncSocketContext<T>,
    parsed: Result<JsonValue, String>,
    emit: &EventSchema,
    call: &EventSchema,
) -> (r: Result<Inbound, Status>)
    ensures
        final(ctx).timeout() == old(ctx).timeout(),
        match parsed {
            Err(e) => is_error(r, StatusKind::DeserializeFailed, unrecognized_text(e@))
                && final(ctx).handed() == old(ctx).handed() && final(ctx).accepted() == old(
                ctx,
            ).accepted(),
            Ok(j) => match decode_message(
                j.deep(),
                emit.names(),
                emit.fields(),
                call.names(),
                call.fields(),
            ) {
                Err(x) => is_error(r, StatusKind::DeserializeFailed, unrecognized_text(x.spec_text()))
                    && final(ctx).handed() == old(ctx).handed() && final(ctx).accepted() == old(
                    ctx,
                ).accepted(),
                Ok(MessageModel::Emit(k, a)) => r matches Ok(Inbound::Emit(ev)) && ev.variant == k
                    && deep_items(ev.args@) == a && final(ctx).handed() == old(ctx).handed()
                    && final(ctx).accepted() == old(ctx).accepted(),
                Ok(MessageModel::Call(u, k, a)) => r matches Ok(Inbound::Call(uuid, ev)) && uuid@ == u
                    && ev.variant == k && deep_items(ev.args@) == a && final(ctx).handed() == old(
                    ctx,
                ).handed() && final(ctx).accepted() == old(ctx).accepted(),
                Ok(MessageModel::Response(u, m)) => {
                    &&& (r matches Ok(Inbound::Delivered(uuid)) && uuid@ == u) || is_error(
                        r,
                        StatusKind::MessageQueueError,
                        undelivered_response_text(),
                    )
                    &&& final(ctx).accepted() == old(ctx).accepted().push(r is Ok)
                    &&& final(ctx).handed().len() == old(ctx).handed().len() + 1
                    &&& final(ctx).handed().drop_last() == old(ctx).handed()
                    &&& final(ctx).handed().last() matches ChannelMessage::TriggerResponse {
                        uuid,
                        status,
                    } && uuid@ == u && status_model(status) == m
                },
            },
        },
{
    match parsed {
        Err(e) => Err(unrecognized(e)),
        Ok(j) => match decode_message_value(j, emit, call) {
            Err(x) => Err(unrecognized(x.text())),
            Ok(SocketMessage::Emit(ev)) => Ok(Inbound::Emit(ev)),
            Ok(SocketMessage::Call { uuid, event }) => Ok(Inbound::Call(uuid, event)),
            Ok(SocketMessage::Response { uuid, status }) => {
                let r = ctx.deliver_response(uuid, status);
                proof {
                    assert(ctx.handed().drop_last() =~= old(ctx).handed());
                }
                match r {
                    Ok(()) => Ok(Inbound::Delivered(uuid)),
                    Err(s) => Err(s),
                }
            },
        },
    }
}

/// The frame that answers a call: `status` is the handler's status, its
/// value written, or the text of the error that kept it from being written.
pub fn reply_to_call(uuid: &Uuid, status: Result<Status<JsonValue>, String>) -> (r: Result<
    JsonValue,
    Status,
>)
    ensures
        match status {
            Err(e) => is_error(r, StatusKind::SerializeFailed, e@),
            Ok(s) => r matches Ok(j) && j.deep() == response_json(uuid@, status_model(s)),
        },
{
    match status {
        Err(e) => Err(Status::SerializeFailed(e)),
        Ok(s) => Ok(encode_response(uuid, s)),
    }
}

} // verus!
