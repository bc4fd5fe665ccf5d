use async_sockets::call::CallAction as A;
use async_sockets::message::{decode_message_value, decode_status_value, encode_call, encode_emit, encode_response, encode_status};
use async_sockets::session::{classify_frame, handle_message, reply_to_call};
use async_sockets::event::snake_case_name;
use async_sockets::{
    AsyncSocketContext, AsyncSocketOptions, AsyncSocketSecurity, BindAddr, CallEvent, CallMachine,
    ChannelAction, ChannelMessage, Empty, EventSchema, EventValue, FormatError, FrameDisposition,
    FrameKind, Inbound, JsonValue, ListenerState, ResponseRegistry, SocketMessage, Status, StatusKind,
    Timeout, Uuid, VariantDecl, VariantFields,
};
use serde_json::Value;

fn to_serde(v: &JsonValue) -> Value {
    match v {
        JsonValue::Null => Value::Null,
        JsonValue::Bool(b) => Value::Bool(*b),
        JsonValue::Number(n) => serde_json::from_str(n).unwrap(),
        JsonValue::Str(s) | JsonValue::Escaped(s) => Value::String(s.clone()),
        JsonValue::Array(items) => Value::Array(items.iter().map(to_serde).collect()),
        JsonValue::Object(entries) => {
            let mut m = serde_json::Map::new();
            for (k, v) in entries {
                m.insert(k.clone(), to_serde(v));
            }
            Value::Object(m)
        }
    }
}

fn from_serde(v: Value) -> JsonValue {
    match v {
        Value::Null => JsonValue::Null,
        Value::Bool(b) => JsonValue::Bool(b),
        Value::Number(n) => JsonValue::Number(n.to_string()),
        Value::String(s) => JsonValue::Str(s),
        Value::Array(items) => JsonValue::Array(items.into_iter().map(from_serde).collect()),
        Value::Object(m) => JsonValue::Object(m.into_iter().map(|(k, v)| (k, from_serde(v))).collect()),
    }
}

fn parse(s: &str) -> JsonValue {
    from_serde(serde_json::from_str(s).unwrap())
}

fn text(v: &JsonValue) -> String {
    serde_json::to_string(&to_serde(v)).unwrap()
}

fn schema(variants: &[(&str, &[&str])]) -> EventSchema {
    let decls = variants
        .iter()
        .map(|(name, fields)| VariantDecl {
            name: name.to_string(),
            fields: VariantFields::Named(fields.iter().map(|f| f.to_string()).collect()),
        })
        .collect();
    EventSchema::new(decls).unwrap()
}

const ID: &str = "67e55044-10b1-426f-9247-bb680e5fe0c8";

fn uuid() -> Uuid {
    Uuid::parse(ID).unwrap()
}

fn kind_and_message(s: &Status) -> (StatusKind, String) {
    match s {
        Status::Success(_) => (StatusKind::Success, String::new()),
        Status::SerializeFailed(m) => (StatusKind::SerializeFailed, m.clone()),
        Status::DeserializeFailed(m) => (StatusKind::DeserializeFailed, m.clone()),
        Status::MessageQueueError(m) => (StatusKind::MessageQueueError, m.clone()),
        Status::RemoveMessageQueueError(m) => (StatusKind::RemoveMessageQueueError, m.clone()),
        Status::RecvError(m) => (StatusKind::RecvError, m.clone()),
        Status::Timeout(m) => (StatusKind::Timeout, m.clone()),
        Status::InternalServerError(m) => (StatusKind::InternalServerError, m.clone()),
    }
}

fn finished_with(a: A) -> Result<(), (StatusKind, String)> {
    match a {
        A::Finish(Ok(())) => Ok(()),
        A::Finish(Err(s)) => Err(kind_and_message(&s)),
        _ => panic!("the call did not finish"),
    }
}

// Status

#[test]
fn clear_value_keeps_errors_and_turns_serialize_into_deserialize() {
    let s: Status<u64> = Status::SerializeFailed("bad".to_string());
    assert_eq!(kind_and_message(&s.clear_value()), (StatusKind::DeserializeFailed, "bad".to_string()));
    let s: Status<u64> = Status::Timeout("late".to_string());
    assert_eq!(kind_and_message(&s.clear_value()), (StatusKind::Timeout, "late".to_string()));
    let s: Status<u64> = Status::RecvError("gone".to_string());
    assert_eq!(kind_and_message(&s.clear_value()), (StatusKind::RecvError, "gone".to_string()));
    let s: Status<u64> = Status::Success(7);
    assert!(s.clear_value().is_ok());
}

#[test]
fn status_text() {
    assert_eq!(Status::Success(Empty::default()).to_text(), "Ok(())");
    assert_eq!(Status::<Empty>::Timeout("x".to_string()).to_text(), "Timeout: x");
    assert_eq!(Status::<Empty>::SerializeFailed("e".to_string()).to_text(), "Failed to serialize: e");
    assert_eq!(
        Status::<Empty>::RemoveMessageQueueError("m".to_string()).to_text(),
        "Failed to remove queued message: m"
    );
    assert_eq!(Status::<Empty>::RecvError("r".to_string()).to_text(), "Recv error on channel: r");
    assert_eq!(
        Status::<Empty>::InternalServerError("i".to_string()).to_text(),
        "Internal server error: i"
    );
    assert_eq!(Empty::default().to_text(), "()");
    assert_eq!(Status::Success(5u64).to_text_with("5"), "Ok(5)");
    assert_eq!(Status::<u64>::DeserializeFailed("d".to_string()).to_text_with("5"), "Failed to deserialize: d");
    assert_eq!(Status::<u64>::MessageQueueError("q".to_string()).to_text_with("5"), "Failed to queue message: q");
}

#[test]
fn status_is_written_adjacently_tagged() {
    assert_eq!(text(&encode_status(Status::Success(parse("5")))), r#"{"status":"Ok","payload":5}"#);
    assert_eq!(
        text(&encode_status(Status::Timeout("late".to_string()))),
        r#"{"status":"Timeout","payload":"late"}"#
    );
}

#[test]
fn status_reads_back_and_passes_over_other_entries() {
    let s = decode_status_value(parse(r#"{"payload":{"a":1},"status":"Ok","x":0}"#)).unwrap();
    match s {
        Status::Success(v) => assert_eq!(text(&v), r#"{"a":1}"#),
        _ => panic!(),
    }
    let s = decode_status_value(parse(r#"{"status":"RecvError","payload":"gone"}"#)).unwrap();
    assert!(matches!(s, Status::RecvError(ref m) if m == "gone"));
}

#[test]
fn status_errors() {
    assert_eq!(decode_status_value(parse(r#"{"status":"Ok"}"#)).unwrap_err(), FormatError::MissingField);
    assert_eq!(decode_status_value(parse(r#"{"status":"Nope","payload":1}"#)).unwrap_err(), FormatError::UnknownVariant);
    assert_eq!(decode_status_value(parse(r#"{"status":1,"payload":1}"#)).unwrap_err(), FormatError::InvalidType);
    assert_eq!(decode_status_value(parse(r#"{"status":"Timeout","payload":1}"#)).unwrap_err(), FormatError::InvalidType);
    assert_eq!(decode_status_value(parse(r#"[1]"#)).unwrap_err(), FormatError::NotAnObject);
}

// Uuid

#[test]
fn uuid_text_reads_back() {
    let u = uuid();
    assert_eq!(u.to_text(), ID);
    assert_eq!(Uuid::parse(&u.to_text()).unwrap(), u);
}

#[test]
fn uuid_parse_failure_text() {
    assert_eq!(
        Uuid::parse("not a uuid").unwrap_err(),
        "Failed to parse Uuid from string: failed to parse a UUID"
    );
}

#[test]
fn new_v4_is_random_version_four() {
    let a = Uuid::new_v4();
    let b = Uuid::new_v4();
    assert_ne!(a, b);
    let t = a.to_text();
    assert_eq!(t.len(), 36);
    assert_eq!(&t[14..15], "4");
    assert!("89ab".contains(&t[19..20]));
}

// Events

#[test]
fn snake_case_of_names() {
    assert_eq!(snake_case_name("TestMsg1"), "test_msg1");
    assert_eq!(snake_case_name("MessageOne"), "message_one");
    assert_eq!(snake_case_name("A"), "a");
    assert_eq!(snake_case_name("HTTPServer"), "h_t_t_p_server");
    assert_eq!(snake_case_name("already_snake"), "already_snake");
}

#[test]
fn schema_refuses_unnamed_fields() {
    let decls = vec![
        VariantDecl { name: "A".to_string(), fields: VariantFields::Named(vec![]) },
        VariantDecl { name: "B".to_string(), fields: VariantFields::Unnamed(2) },
    ];
    assert_eq!(
        EventSchema::new(decls).err().unwrap(),
        "Variants of emit messages must be named structs."
    );
    let decls = vec![VariantDecl { name: "C".to_string(), fields: VariantFields::Unit }];
    assert!(EventSchema::new(decls).is_err());
}

#[test]
fn variant_without_fields_is_written_with_null() {
    let s = schema(&[("Ping", &[])]);
    let j = s.encode_event(EventValue { variant: 0, args: vec![] });
    assert_eq!(text(&j), r#"{"event":"ping","args":null}"#);
    let ev = s.decode_event(parse(r#"{"args":null,"event":"ping"}"#)).unwrap();
    assert_eq!(ev.variant, 0);
    assert!(ev.args.is_empty());
}

#[test]
fn variants_with_one_wire_name_read_as_the_first() {
    let s = schema(&[("AB", &[]), ("A_b", &[])]);
    let j = s.encode_event(EventValue { variant: 1, args: vec![] });
    assert_eq!(text(&j), r#"{"event":"a_b","args":null}"#);
    assert_eq!(s.decode_event(j).unwrap().variant, 0);
}

#[test]
fn event_errors() {
    let s = schema(&[("Ping", &[]), ("TestMsg1", &["id"])]);
    assert_eq!(s.decode_event(parse("3")).unwrap_err(), FormatError::NotAnObject);
    assert_eq!(s.decode_event(parse(r#"{"event":"ping","args":null,"x":1}"#)).unwrap_err(), FormatError::UnknownField);
    assert_eq!(s.decode_event(parse(r#"{"event":"ping"}"#)).unwrap_err(), FormatError::MissingField);
    assert_eq!(s.decode_event(parse(r#"{"event":"pong","args":null}"#)).unwrap_err(), FormatError::UnknownVariant);
    assert_eq!(s.decode_event(parse(r#"{"event":"TestMsg1","args":[1]}"#)).unwrap_err(), FormatError::UnknownVariant);
    assert_eq!(s.decode_event(parse(r#"{"event":7,"args":null}"#)).unwrap_err(), FormatError::InvalidType);
    assert_eq!(s.decode_event(parse(r#"{"event":"ping","args":[]}"#)).unwrap_err(), FormatError::InvalidType);
    assert_eq!(s.decode_event(parse(r#"{"event":"test_msg1","args":5}"#)).unwrap_err(), FormatError::InvalidType);
    assert_eq!(s.decode_event(parse(r#"{"event":"test_msg1","args":[1,2]}"#)).unwrap_err(), FormatError::InvalidLength);
    assert_eq!(FormatError::InvalidLength.text(), "invalid length");
}

// Messages

#[test]
fn emit_is_framed_and_read_back() {
    let s = schema(&[("TestMsg1", &["id"])]);
    let empty = schema(&[]);
    let ev = s.encode_event(EventValue { variant: 0, args: vec![parse("45")] });
    let frame = encode_emit(ev);
    assert_eq!(text(&frame), r#"{"emit":{"event":"test_msg1","args":[45]}}"#);
    match decode_message_value(parse(&text(&frame)), &s, &empty).unwrap() {
        SocketMessage::Emit(ev) => {
            assert_eq!(ev.variant, 0);
            assert_eq!(text(&ev.args[0]), "45");
        }
        _ => panic!(),
    }
}

#[test]
fn call_is_framed_and_read_back() {
    let s = schema(&[("Test2", &["id"])]);
    let empty = schema(&[]);
    let ev = s.encode_event(EventValue { variant: 0, args: vec![parse("104")] });
    let frame = encode_call(&uuid(), ev).unwrap();
    assert_eq!(
        text(&frame),
        format!(r#"{{"call":{{"uuid":"{ID}","event":"test2","args":[104]}}}}"#)
    );
    match decode_message_value(parse(&text(&frame)), &empty, &s).unwrap() {
        SocketMessage::Call { uuid: u, event } => {
            assert_eq!(u, uuid());
            assert_eq!(event.variant, 0);
            assert_eq!(text(&event.args[0]), "104");
        }
        _ => panic!(),
    }
    assert_eq!(encode_call(&uuid(), parse("[1]")).unwrap_err(), FormatError::NotAnObject);
}

#[test]
fn response_is_framed_and_read_back() {
    let empty = schema(&[]);
    let frame = encode_response(&uuid(), Status::Success(parse(r#"{"id":105}"#)));
    assert_eq!(
        text(&frame),
        format!(r#"{{"response":{{"uuid":"{ID}","status":{{"status":"Ok","payload":{{"id":105}}}}}}}}"#)
    );
    match decode_message_value(parse(&text(&frame)), &empty, &empty).unwrap() {
        SocketMessage::Response { uuid: u, status: Status::Success(v) } => {
            assert_eq!(u, uuid());
            assert_eq!(text(&v), r#"{"id":105}"#);
        }
        _ => panic!(),
    }
}

#[test]
fn message_errors() {
    let empty = schema(&[]);
    let m = |s: &str| decode_message_value(parse(s), &empty, &empty).err().unwrap();
    assert_eq!(m(r#""emit""#), FormatError::NotAnObject);
    assert_eq!(m(r#"{"emit":{},"call":{}}"#), FormatError::InvalidLength);
    assert_eq!(m(r#"{"shout":{}}"#), FormatError::UnknownVariant);
    assert_eq!(m(r#"{"call":{"event":"x","args":null}}"#), FormatError::MissingField);
    assert_eq!(m(r#"{"call":{"uuid":"nope","event":"x","args":null}}"#), FormatError::InvalidUuid);
    assert_eq!(m(r#"{"call":{"uuid":5}}"#), FormatError::InvalidType);
    assert_eq!(m(&format!(r#"{{"call":{{"uuid":"{ID}","event":"x","args":null}}}}"#)), FormatError::UnknownVariant);
    assert_eq!(m(&format!(r#"{{"response":{{"uuid":"{ID}","status":{{"status":"Ok","payload":1}},"x":1}}}}"#)), FormatError::UnknownField);
    assert_eq!(m(&format!(r#"{{"response":{{"uuid":"{ID}"}}}}"#)), FormatError::MissingField);
    assert_eq!(m(r#"{"response":3}"#), FormatError::NotAnObject);
}

// Registry

#[test]
fn response_reaches_its_listener_once() {
    let mut r: ResponseRegistry<&str> = ResponseRegistry::new();
    let a = r.handle::<u8>(ChannelMessage::QueueResponseListener { uuid: uuid(), tx: "listener" });
    assert!(matches!(a, ChannelAction::Nothing));
    let a = r.handle::<u8>(ChannelMessage::TriggerResponse { uuid: uuid(), status: Status::Success(parse("1")) });
    assert!(matches!(a, ChannelAction::Deliver("listener", Status::Success(_))));
    let a = r.handle::<u8>(ChannelMessage::TriggerResponse { uuid: uuid(), status: Status::Success(parse("2")) });
    assert!(matches!(a, ChannelAction::UnknownResponse(u) if u == uuid()));
}

#[test]
fn response_reaches_its_listener_after_frames() {
    let mut r: ResponseRegistry<&str> = ResponseRegistry::new();
    r.handle::<u8>(ChannelMessage::QueueResponseListener { uuid: uuid(), tx: "listener" });
    assert!(matches!(r.handle(ChannelMessage::SendMessage(1u8)), ChannelAction::Send(1)));
    assert!(matches!(r.handle(ChannelMessage::SendMessage(2u8)), ChannelAction::Send(2)));
    let a = r.handle::<u8>(ChannelMessage::TriggerResponse { uuid: uuid(), status: Status::Timeout("t".to_string()) });
    assert!(matches!(a, ChannelAction::Deliver("listener", Status::Timeout(_))));
}

#[test]
fn removed_listener_is_not_answered() {
    let mut r: ResponseRegistry<&str> = ResponseRegistry::new();
    r.handle::<u8>(ChannelMessage::QueueResponseListener { uuid: uuid(), tx: "listener" });
    r.handle::<u8>(ChannelMessage::RemoveResponseListener { uuid: uuid() });
    let a = r.handle::<u8>(ChannelMessage::TriggerResponse { uuid: uuid(), status: Status::Timeout("t".to_string()) });
    assert!(matches!(a, ChannelAction::UnknownResponse(_)));
}

#[test]
fn frames_pass_through_the_registry() {
    let mut r: ResponseRegistry<&str> = ResponseRegistry::new();
    let a = r.handle(ChannelMessage::SendMessage(5u8));
    assert!(matches!(a, ChannelAction::Send(5)));
}

// Call machine

fn started() -> CallMachine {
    let s = schema(&[("Test2", &["id"])]);
    let ev = s.encode_event(EventValue { variant: 0, args: vec![parse("104")] });
    let (m, a) = CallMachine::start(uuid(), Ok(ev), Timeout::from_secs(1));
    assert!(matches!(a, A::QueueListener(u) if u == uuid()));
    m
}

fn waiting() -> CallMachine {
    let mut m = started();
    assert!(matches!(m.step(CallEvent::Queued(Ok(()))), A::SendFrame(_)));
    assert!(matches!(m.step(CallEvent::Sent(Ok(()))), A::AwaitResponse));
    m
}

#[test]
fn call_that_cannot_be_written() {
    let (_, a) = CallMachine::start(uuid(), Err("boom".to_string()), Timeout::from_secs(1));
    assert_eq!(finished_with(a), Err((StatusKind::SerializeFailed, "boom".to_string())));
    let (_, a) = CallMachine::start(uuid(), Ok(parse("3")), Timeout::from_secs(1));
    assert_eq!(finished_with(a), Err((StatusKind::SerializeFailed, "expected an object".to_string())));
}

#[test]
fn call_sends_its_frame() {
    let mut m = started();
    match m.step(CallEvent::Queued(Ok(()))) {
        A::SendFrame(f) => assert_eq!(
            text(&f),
            format!(r#"{{"call":{{"uuid":"{ID}","event":"test2","args":[104]}}}}"#)
        ),
        _ => panic!(),
    }
}

#[test]
fn call_whose_listener_cannot_be_queued() {
    let mut m = started();
    let a = m.step(CallEvent::Queued(Err("channel closed".to_string())));
    assert_eq!(finished_with(a), Err((StatusKind::MessageQueueError, "channel closed".to_string())));
    assert_eq!(m.listener_state(), ListenerState::NotQueued);
}

#[test]
fn call_whose_frame_cannot_be_sent() {
    let mut m = started();
    m.step(CallEvent::Queued(Ok(())));
    assert!(matches!(m.step(CallEvent::Sent(Err("closed".to_string()))), A::RemoveListener(u) if u == uuid()));
    let a = m.step(CallEvent::Removed(Ok(())));
    assert_eq!(finished_with(a), Err((StatusKind::MessageQueueError, "closed".to_string())));
    assert_eq!(m.listener_state(), ListenerState::Removed);

    let mut m = started();
    m.step(CallEvent::Queued(Ok(())));
    m.step(CallEvent::Sent(Err("closed".to_string())));
    let a = m.step(CallEvent::Removed(Err("channel closed".to_string())));
    assert_eq!(
        finished_with(a),
        Err((
            StatusKind::RemoveMessageQueueError,
            format!("Failed to remove message {ID} after send message request failed to queue. Warning: this could cause a memory leak.")
        ))
    );
    assert_eq!(m.listener_state(), ListenerState::Leaked);
}

#[test]
fn call_answered_with_a_value() {
    let mut m = waiting();
    match m.step(CallEvent::Answered(Ok(Status::Success(parse("105"))))) {
        A::Decode(v) => assert_eq!(text(&v), "105"),
        _ => panic!(),
    }
    assert_eq!(finished_with(m.step(CallEvent::Decoded(Ok(())))), Ok(()));

    let mut m = waiting();
    m.step(CallEvent::Answered(Ok(Status::Success(parse("\"x\"")))));
    let a = m.step(CallEvent::Decoded(Err("invalid type".to_string())));
    assert_eq!(finished_with(a), Err((StatusKind::DeserializeFailed, "invalid type".to_string())));
}

#[test]
fn call_answered_with_an_error() {
    let mut m = waiting();
    let a = m.step(CallEvent::Answered(Ok(Status::SerializeFailed("s".to_string()))));
    assert_eq!(finished_with(a), Err((StatusKind::DeserializeFailed, "s".to_string())));
    assert_eq!(m.listener_state(), ListenerState::Taken);

    let mut m = waiting();
    let a = m.step(CallEvent::Answered(Ok(Status::InternalServerError("i".to_string()))));
    assert_eq!(finished_with(a), Err((StatusKind::InternalServerError, "i".to_string())));

    let mut m = waiting();
    let a = m.step(CallEvent::Answered(Err("dropped".to_string())));
    assert_eq!(finished_with(a), Err((StatusKind::RecvError, "dropped".to_string())));
}

#[test]
fn call_that_times_out() {
    let mut m = waiting();
    assert!(matches!(m.step(CallEvent::TimedOut), A::RemoveListener(_)));
    let a = m.step(CallEvent::Removed(Ok(())));
    assert_eq!(
        finished_with(a),
        Err((StatusKind::Timeout, format!("Async call {ID} timed out after 1s")))
    );

    let mut m = waiting();
    m.step(CallEvent::TimedOut);
    let a = m.step(CallEvent::Removed(Err("channel closed".to_string())));
    assert_eq!(
        finished_with(a),
        Err((
            StatusKind::RemoveMessageQueueError,
            format!("Failed to remove message {ID} after timeout. Warning: this could cause a memory leak.")
        ))
    );
}

#[test]
fn call_ignores_events_out_of_turn() {
    let mut m = started();
    assert!(matches!(m.step(CallEvent::TimedOut), A::Ignore));
    assert!(matches!(m.step(CallEvent::Sent(Ok(()))), A::Ignore));
    assert!(matches!(m.step(CallEvent::Queued(Ok(()))), A::SendFrame(_)));
}

// Context

#[test]
fn emit_hands_the_frame_to_the_socket_task() {
    let (tx, mut rx) = tokio::sync::mpsc::unbounded_channel::<ChannelMessage<JsonValue, u8>>();
    let mut ctx = AsyncSocketContext::new(tx, Timeout::from_secs(1));
    assert!(ctx.emit(Ok(parse(r#"{"event":"a","args":null}"#))).is_ok());
    match rx.try_recv().unwrap() {
        ChannelMessage::SendMessage(f) => assert_eq!(text(&f), r#"{"emit":{"event":"a","args":null}}"#),
        _ => panic!(),
    }
    let e = ctx.emit(Err("unwritable".to_string())).unwrap_err();
    assert_eq!(kind_and_message(&e), (StatusKind::SerializeFailed, "unwritable".to_string()));
    drop(rx);
    let e = ctx.emit(Ok(JsonValue::Null)).unwrap_err();
    assert_eq!(kind_and_message(&e), (StatusKind::MessageQueueError, "channel closed".to_string()));
}

#[test]
fn begin_call_queues_then_sends() {
    let (tx, mut rx) = tokio::sync::mpsc::unbounded_channel::<ChannelMessage<JsonValue, u8>>();
    let mut ctx = AsyncSocketContext::new(tx, Timeout::from_secs(2));
    let (mut m, a) = ctx.begin_call(Ok(parse(r#"{"event":"a","args":null}"#)), 9);
    assert!(matches!(a, A::AwaitResponse));
    let id = match rx.try_recv().unwrap() {
        ChannelMessage::QueueResponseListener { uuid, tx: 9 } => uuid,
        _ => panic!(),
    };
    match rx.try_recv().unwrap() {
        ChannelMessage::SendMessage(f) => assert_eq!(
            text(&f),
            format!(r#"{{"call":{{"uuid":"{}","event":"a","args":null}}}}"#, id.to_text())
        ),
        _ => panic!(),
    }
    let a = ctx.end_call(&mut m, CallEvent::TimedOut);
    assert!(matches!(rx.try_recv().unwrap(), ChannelMessage::RemoveResponseListener { uuid } if uuid == id));
    assert_eq!(
        finished_with(a),
        Err((StatusKind::Timeout, format!("Async call {} timed out after 2s", id.to_text())))
    );
}

#[test]
fn begin_call_on_a_closed_channel() {
    let (tx, rx) = tokio::sync::mpsc::unbounded_channel::<ChannelMessage<JsonValue, u8>>();
    drop(rx);
    let mut ctx = AsyncSocketContext::new(tx, Timeout::from_secs(1));
    let (_, a) = ctx.begin_call(Ok(parse(r#"{"event":"a","args":null}"#)), 9);
    assert_eq!(finished_with(a), Err((StatusKind::MessageQueueError, "channel closed".to_string())));
}

// Session

#[test]
fn session_frames() {
    assert_eq!(classify_frame(FrameKind::Text), FrameDisposition::Handle);
    assert_eq!(classify_frame(FrameKind::Close), FrameDisposition::Stop);
    assert_eq!(classify_frame(FrameKind::Other), FrameDisposition::Skip);
    assert_eq!(classify_frame(FrameKind::Failed), FrameDisposition::Skip);
}

#[test]
fn handle_message_dispatches() {
    let (tx, mut rx) = tokio::sync::mpsc::unbounded_channel::<ChannelMessage<JsonValue, u8>>();
    let mut ctx = AsyncSocketContext::new(tx, Timeout::from_secs(1));
    let emits = schema(&[("TestMessage", &["id"])]);
    let calls = schema(&[("Test1", &["id"])]);

    let r = handle_message(&mut ctx, Ok(parse(r#"{"emit":{"event":"test_message","args":[3]}}"#)), &emits, &calls);
    assert!(matches!(r, Ok(Inbound::Emit(EventValue { variant: 0, .. }))));

    let r = handle_message(&mut ctx, Ok(parse(&format!(r#"{{"call":{{"uuid":"{ID}","event":"test1","args":[3]}}}}"#))), &emits, &calls);
    assert!(matches!(r, Ok(Inbound::Call(u, _)) if u == uuid()));

    let r = handle_message(&mut ctx, Ok(parse(&format!(r#"{{"response":{{"uuid":"{ID}","status":{{"status":"Ok","payload":4}}}}}}"#))), &emits, &calls);
    assert!(matches!(r, Ok(Inbound::Delivered(u)) if u == uuid()));
    assert!(matches!(rx.try_recv().unwrap(), ChannelMessage::TriggerResponse { uuid: u, status: Status::Success(_) } if u == uuid()));

    let r = handle_message(&mut ctx, Err("expected value at line 1 column 1".to_string()), &emits, &calls);
    assert_eq!(
        kind_and_message(&r.err().unwrap()),
        (StatusKind::DeserializeFailed, "Unrecognized message format: expected value at line 1 column 1".to_string())
    );
    let r = handle_message(&mut ctx, Ok(parse(r#"{"shout":1}"#)), &emits, &calls);
    assert_eq!(
        kind_and_message(&r.err().unwrap()),
        (StatusKind::DeserializeFailed, "Unrecognized message format: unknown variant".to_string())
    );

    drop(rx);
    let r = handle_message(&mut ctx, Ok(parse(&format!(r#"{{"response":{{"uuid":"{ID}","status":{{"status":"Ok","payload":4}}}}}}"#))), &emits, &calls);
    assert_eq!(
        kind_and_message(&r.err().unwrap()),
        (StatusKind::MessageQueueError, "Failed to send response message over oneshot::channel: channel closed.".to_string())
    );
}

#[test]
fn reply_to_a_call() {
    let f = reply_to_call(&uuid(), Ok(Status::Success(parse(r#"{"id":2}"#)))).unwrap();
    assert_eq!(
        text(&f),
        format!(r#"{{"response":{{"uuid":"{ID}","status":{{"status":"Ok","payload":{{"id":2}}}}}}}}"#)
    );
    let e = reply_to_call(&uuid(), Err("unwritable".to_string())).err().unwrap();
    assert_eq!(kind_and_message(&e), (StatusKind::SerializeFailed, "unwritable".to_string()));
}

// Options

#[test]
fn default_options() {
    let o = AsyncSocketOptions::new();
    assert_eq!(o.path, "test");
    assert!(matches!(o.bind_addr, BindAddr::V4 { octets: [127, 0, 0, 1], port: 2000 }));
    assert_eq!(o.timeout.as_secs(), 1);
    assert_eq!(o.timeout.subsec_nanos(), 0);
    assert!(!o.verbose);
    assert!(o.security.is_none());
    let d = AsyncSocketOptions::default();
    assert_eq!(d.path, "test");
}

#[test]
fn option_builders_change_one_setting() {
    let o = AsyncSocketOptions::new()
        .with_path("chat")
        .with_port(2345)
        .with_timeout(Timeout::new(10, 500))
        .with_verbose(true)
        .with_security(AsyncSocketSecurity { cert_path: "c".to_string(), key_path: "k".to_string() });
    assert_eq!(o.path, "chat");
    assert_eq!(o.bind_addr.port(), 2345);
    assert!(matches!(o.bind_addr, BindAddr::V4 { octets: [127, 0, 0, 1], .. }));
    assert_eq!(o.timeout.as_secs(), 10);
    assert_eq!(o.timeout.subsec_nanos(), 500);
    assert!(o.verbose);
    assert_eq!(o.security.unwrap().key_path, "k");
    let v6 = BindAddr::V6 { segments: [0; 8], port: 1, flowinfo: 0, scope_id: 0 };
    let o = AsyncSocketOptions::new().with_bind_addr(v6);
    assert_eq!(o.bind_addr.port(), 1);
    assert_eq!(o.path, "test");
}

#[test]
fn timeout_text() {
    assert_eq!(Timeout::from_secs(1).debug_text(), "1s");
    assert_eq!(Timeout::new(0, 5_000_000).debug_text(), "5ms");
}

#[test]
fn timeout_new_carries_whole_seconds() {
    let t = Timeout::new(1, 2_500_000_000);
    assert_eq!(t.as_secs(), 3);
    assert_eq!(t.subsec_nanos(), 500_000_000);
}

fn obj(entries: Vec<(&str, JsonValue)>) -> JsonValue {
    JsonValue::Object(entries.into_iter().map(|(k, v)| (k.to_string(), v)).collect())
}

fn s(t: &str) -> JsonValue {
    JsonValue::Str(t.to_string())
}

#[test]
fn repeated_keys_are_refused() {
    let sc = schema(&[("Ping", &[])]);
    let ev = sc.decode_event(obj(vec![("event", s("ping")), ("args", JsonValue::Null), ("event", s("ping"))]));
    assert_eq!(ev.unwrap_err(), FormatError::DuplicateField);
    let ev = sc.decode_event(obj(vec![("args", JsonValue::Null), ("event", s("ping")), ("args", JsonValue::Null)]));
    assert_eq!(ev.unwrap_err(), FormatError::DuplicateField);
    let st = decode_status_value(obj(vec![("status", s("Ok")), ("payload", JsonValue::Null), ("status", s("Ok"))]));
    assert_eq!(st.unwrap_err(), FormatError::DuplicateField);
    let st = decode_status_value(obj(vec![("status", s("Ok")), ("payload", JsonValue::Null), ("payload", JsonValue::Null)]));
    assert_eq!(st.unwrap_err(), FormatError::DuplicateField);
    let call = obj(vec![(
        "call",
        obj(vec![("uuid", s(ID)), ("event", s("ping")), ("args", JsonValue::Null), ("uuid", s(ID))]),
    )]);
    assert_eq!(decode_message_value(call, &sc, &sc).err().unwrap(), FormatError::DuplicateField);
    let status = || obj(vec![("status", s("Ok")), ("payload", JsonValue::Null)]);
    let resp = obj(vec![("response", obj(vec![("uuid", s(ID)), ("status", status()), ("status", status())]))]);
    assert_eq!(decode_message_value(resp, &sc, &sc).err().unwrap(), FormatError::DuplicateField);
    assert_eq!(FormatError::DuplicateField.text(), "duplicate field");
}

#[test]
fn decoded_event_writes_back_as_read() {
    let sc = schema(&[("Ping", &[]), ("TestMsg1", &["id", "name"])]);
    let j = parse(r#"{"event":"test_msg1","args":[10,"x"]}"#);
    let ev = sc.decode_event(parse(r#"{"event":"test_msg1","args":[10,"x"]}"#)).unwrap();
    assert_eq!(text(&sc.encode_event(ev)), text(&j));
    let ev = sc.decode_event(parse(r#"{"args":null,"event":"ping"}"#)).unwrap();
    assert_eq!(text(&sc.encode_event(ev)), r#"{"event":"ping","args":null}"#);
}

#[test]
fn uuid_text_of_wrong_length_is_refused() {
    assert!(Uuid::parse("not-a-uuid").is_err());
    assert!(Uuid::parse(&format!("{ID}0")).is_err());
    assert!(Uuid::parse(&format!("{{{ID}}}")).is_ok());
    assert!(Uuid::parse(&format!("urn:uuid:{ID}")).is_ok());
}

#[test]
fn run_answers_each_call_once_while_pending() {
    let other = Uuid::parse("00000000-0000-4000-8000-000000000001").unwrap();
    let ok = || Status::Success(JsonValue::Null);
    let mut r: ResponseRegistry<&str> = ResponseRegistry::new();
    let a = r.handle::<u8>(ChannelMessage::QueueResponseListener { uuid: uuid(), tx: "a" });
    assert!(matches!(a, ChannelAction::Nothing));
    let a = r.handle::<u8>(ChannelMessage::QueueResponseListener { uuid: other, tx: "b" });
    assert!(matches!(a, ChannelAction::Nothing));
    let a = r.handle::<u8>(ChannelMessage::TriggerResponse { uuid: uuid(), status: ok() });
    assert!(matches!(a, ChannelAction::Deliver("a", _)));
    let a = r.handle::<u8>(ChannelMessage::SendMessage(7));
    assert!(matches!(a, ChannelAction::Send(7)));
    let a = r.handle::<u8>(ChannelMessage::TriggerResponse { uuid: uuid(), status: ok() });
    assert!(matches!(a, ChannelAction::UnknownResponse(u) if u == uuid()));
    let a = r.handle::<u8>(ChannelMessage::QueueResponseListener { uuid: uuid(), tx: "c" });
    assert!(matches!(a, ChannelAction::Nothing));
    let a = r.handle::<u8>(ChannelMessage::TriggerResponse { uuid: uuid(), status: ok() });
    assert!(matches!(a, ChannelAction::Deliver("c", _)));
    let a = r.handle::<u8>(ChannelMessage::TriggerResponse { uuid: other, status: ok() });
    assert!(matches!(a, ChannelAction::Deliver("b", _)));
}

fn esc(t: &str) -> JsonValue {
    JsonValue::Escaped(t.to_string())
}

#[test]
fn identifier_written_with_escapes_is_refused() {
    let sc = schema(&[("Ping", &[])]);
    let call = |id: JsonValue, tag: JsonValue| {
        obj(vec![("call", obj(vec![("uuid", id), ("event", tag), ("args", JsonValue::Null)]))])
    };
    assert_eq!(
        decode_message_value(call(esc(ID), s("ping")), &sc, &sc).err().unwrap(),
        FormatError::InvalidType
    );
    match decode_message_value(call(s(ID), esc("ping")), &sc, &sc) {
        Ok(SocketMessage::Call { uuid: u, event }) => {
            assert_eq!(u, uuid());
            assert_eq!(event.variant, 0);
        }
        _ => panic!(),
    }
    let status = obj(vec![("status", esc("Ok")), ("payload", JsonValue::Null)]);
    let resp = obj(vec![("response", obj(vec![("uuid", esc(ID)), ("status", status)]))]);
    assert_eq!(decode_message_value(resp, &sc, &sc).err().unwrap(), FormatError::InvalidType);
}

#[test]
fn strings_written_with_escapes_read_as_strings() {
    let st = decode_status_value(obj(vec![("status", esc("Timeout")), ("payload", esc("late"))])).unwrap();
    assert!(matches!(st, Status::Timeout(ref m) if m == "late"));
    let sc = schema(&[("Ping", &[])]);
    let ev = sc.decode_event(obj(vec![("args", JsonValue::Null), ("event", esc("ping"))])).unwrap();
    assert_eq!(text(&sc.encode_event(ev)), r#"{"event":"ping","args":null}"#);
}

#[test]
fn interleaved_calls_each_get_their_response() {
    let other = Uuid::parse("00000000-0000-4000-8000-000000000002").unwrap();
    let mut r: ResponseRegistry<&str> = ResponseRegistry::new();
    let mut run = |m: ChannelMessage<u8, &'static str>| r.handle(m);
    assert!(matches!(run(ChannelMessage::QueueResponseListener { uuid: uuid(), tx: "one" }), ChannelAction::Nothing));
    assert!(matches!(run(ChannelMessage::QueueResponseListener { uuid: other, tx: "two" }), ChannelAction::Nothing));
    assert!(matches!(run(ChannelMessage::SendMessage(1)), ChannelAction::Send(1)));
    assert!(matches!(run(ChannelMessage::SendMessage(2)), ChannelAction::Send(2)));
    let a = run(ChannelMessage::TriggerResponse { uuid: other, status: Status::Success(parse("2")) });
    assert!(matches!(a, ChannelAction::Deliver("two", Status::Success(_))));
    let a = run(ChannelMessage::TriggerResponse { uuid: uuid(), status: Status::Timeout("late".to_string()) });
    assert!(matches!(a, ChannelAction::Deliver("one", Status::Timeout(ref m)) if m == "late"));
    let a = run(ChannelMessage::RemoveResponseListener { uuid: uuid() });
    assert!(matches!(a, ChannelAction::Nothing));
    let a = run(ChannelMessage::TriggerResponse { uuid: uuid(), status: Status::Success(parse("3")) });
    assert!(matches!(a, ChannelAction::UnknownResponse(u) if u == uuid()));
}
