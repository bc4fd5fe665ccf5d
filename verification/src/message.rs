//! The messages of a socket, as they are written on the wire.
//!
//! A message is an object of one entry, named after its kind:
//! `{"emit": <event>}`, `{"call": {"uuid": <id>, <entries of the event>}}`
//! or `{"response": {"uuid": <id>, "status": <status>}}`. A status is
//! written `{"status": <variant name>, "payload": <value or message>}`.

use vstd::prelude::*;
use crate::event::{decode_event, EventSchema, EventValue};
use crate::json::{
    deep_entries, deep_items, find_key, has_key, is_first_key, is_repeated, key_position,
    repeats_key, as_string, string_of, lemma_swapped_pair_keys,
    lemma_deep_entries, lemma_deep_entries_ext, lemma_first_key_unique, text, FormatError, Json,
    JsonValue,
};
use crate::status::{Status, StatusKind};
use crate::uuid::{hyphenated, uuid_parse, Uuid};

verus! {

/// The kind, message and value of a status whose value is JSON: the
/// message is empty for `Success`, and the value is `null` for an error.
pub open spec fn status_model(s: Status<JsonValue>) -> (StatusKind, Seq<char>, Json) {
    match s {
        Status::Success(v) => (StatusKind::Success, Seq::empty(), v.deep()),
        _ => (s.kind(), s.message(), Json::Null),
    }
}

/// Whether a triple is the model of some status: no message with a value,
/// no value with a message.
pub open spec fn is_status_model(m: (StatusKind, Seq<char>, Json)) -> bool {
    &&& m.0 == StatusKind::Success ==> m.1.len() == 0
    &&& m.0 != StatusKind::Success ==> m.2 == Json::Null
}

/// How a status is written.
pub open spec fn status_json(m: (StatusKind, Seq<char>, Json)) -> Json {
    Json::Object(
        seq![
            ("status"@, Json::Str(m.0.name())),
            ("payload"@, if m.0 == StatusKind::Success {
                m.2
            } else {
                Json::Str(m.1)
            }),
        ],
    )
}

/// The kind whose name is `name`.
pub open spec fn kind_named(name: Seq<char>) -> Option<StatusKind> {
    if name == "Ok"@ {
        Some(StatusKind::Success)
    } else if name == "SerializeFailed"@ {
        Some(StatusKind::SerializeFailed)
    } else if name == "DeserializeFailed"@ {
        Some(StatusKind::DeserializeFailed)
    } else if name == "MessageQueueError"@ {
        Some(StatusKind::MessageQueueError)
    } else if name == "RemoveMessageQueueError"@ {
        Some(StatusKind::RemoveMessageQueueError)
    } else if name == "RecvError"@ {
        Some(StatusKind::RecvError)
    } else if name == "Timeout"@ {
        Some(StatusKind::Timeout)
    } else if name == "InternalServerError"@ {
        Some(StatusKind::InternalServerError)
    } else {
        None
    }
}

/// A status read from its written form, or why it is not one. Entries
/// other than `status` and `payload` are passed over.
pub open spec fn decode_status(j: Json) -> Result<(StatusKind, Seq<char>, Json), FormatError> {
    match j {
        Json::Object(e) => if is_repeated(e, "status"@) || is_repeated(e, "payload"@) {
            Err(FormatError::DuplicateField)
        } else if !has_key(e, "status"@) || !has_key(e, "payload"@) {
            Err(FormatError::MissingField)
        } else {
            let payload = e[key_position(e, "payload"@)].1;
            match string_of(e[key_position(e, "status"@)].1) {
                Some(tag) => match kind_named(tag) {
                    Some(k) => if k == StatusKind::Success {
                        Ok((k, Seq::empty(), payload))
                    } else {
                        match string_of(payload) {
                            Some(m) => Ok((k, m, Json::Null)),
                            None => Err(FormatError::InvalidType),
                        }
                    },
                    None => Err(FormatError::UnknownVariant),
                },
                _ => Err(FormatError::InvalidType),
            }
        },
        _ => Err(FormatError::NotAnObject),
    }
}

fn kind_name(kind: StatusKind) -> (s: String)
    ensures
        s@ == kind.name(),
{
    match kind {
        StatusKind::Success => text("Ok"),
        StatusKind::SerializeFailed => text("SerializeFailed"),
        StatusKind::DeserializeFailed => text("DeserializeFailed"),
        StatusKind::MessageQueueError => text("MessageQueueError"),
        StatusKind::RemoveMessageQueueError => text("RemoveMessageQueueError"),
        StatusKind::RecvError => text("RecvError"),
        StatusKind::Timeout => text("Timeout"),
        StatusKind::InternalServerError => text("InternalServerError"),
    }
}

fn kind_of_name(name: &String) -> (k: Option<StatusKind>)
    ensures
        k == kind_named(name@),
{
    if *name == text("Ok") {
        Some(StatusKind::Success)
    } else if *name == text("SerializeFailed") {
        Some(StatusKind::SerializeFailed)
    } else if *name == text("DeserializeFailed") {
        Some(StatusKind::DeserializeFailed)
    } else if *name == text("MessageQueueError") {
        Some(StatusKind::MessageQueueError)
    } else if *name == text("RemoveMessageQueueError") {
        Some(StatusKind::RemoveMessageQueueError)
    } else if *name == text("RecvError") {
        Some(StatusKind::RecvError)
    } else if *name == text("Timeout") {
        Some(StatusKind::Timeout)
    } else if *name == text("InternalServerError") {
        Some(StatusKind::InternalServerError)
    } else {
        None
    }
}

fn error_status(kind: StatusKind, message: String) -> (s: Status<JsonValue>)
    requires
        kind != StatusKind::Success,
    ensures
        s.kind() == kind,
        s.message() == message@,
        status_model(s) == (kind, message@, Json::Null),
{
    match kind {
        StatusKind::SerializeFailed => Status::SerializeFailed(message),
        StatusKind::DeserializeFailed => Status::DeserializeFailed(message),
        StatusKind::MessageQueueError => Status::MessageQueueError(message),
        StatusKind::RemoveMessageQueueError => Status::RemoveMessageQueueError(message),
        StatusKind::RecvError => Status::RecvError(message),
        StatusKind::Timeout => Status::Timeout(message),
        _ => Status::InternalServerError(message),
    }
}

/// The message of an error status, taken out of it.
fn take_message(s: Status<JsonValue>) -> (m: String)
    requires
        s.kind() != StatusKind::Success,
    ensures
        m@ == s.message(),
{
    match s {
        Status::SerializeFailed(m) => m,
        Status::DeserializeFailed(m) => m,
        Status::MessageQueueError(m) => m,
        Status::RemoveMessageQueueError(m) => m,
        Status::RecvError(m) => m,
        Status::Timeout(m) => m,
        Status::InternalServerError(m) => m,
        Status::Success(_) => String::new(),
    }
}

/// Writes a status.
pub fn encode_status(s: Status<JsonValue>) -> (j: JsonValue)
    ensures
        j.deep() == status_json(status_model(s)),
{
    let ghost m = status_model(s);
    let kind = match &s {
        Status::Success(_) => StatusKind::Success,
        Status::SerializeFailed(_) => StatusKind::SerializeFailed,
        Status::DeserializeFailed(_) => StatusKind::DeserializeFailed,
        Status::MessageQueueError(_) => StatusKind::MessageQueueError,
        Status::RemoveMessageQueueError(_) => StatusKind::RemoveMessageQueueError,
        Status::RecvError(_) => StatusKind::RecvError,
        Status::Timeout(_) => StatusKind::Timeout,
        Status::InternalServerError(_) => StatusKind::InternalServerError,
    };
    let payload = match s {
        Status::Success(v) => v,
        other => JsonValue::Str(take_message(other)),
    };
    let mut entries: Vec<(String, JsonValue)> = Vec::new();
    entries.push((text("status"), JsonValue::Str(kind_name(kind))));
    entries.push((text("payload"), payload));
    proof {
        lemma_deep_entries_ext(entries@, seq![
            ("status"@, Json::Str(m.0.name())),
            ("payload"@, if m.0 == StatusKind::Success { m.2 } else { Json::Str(m.1) }),
        ]);
    }
    JsonValue::Object(entries)
}

/// Reads a status from its written form.
pub fn decode_status_value(j: JsonValue) -> (r: Result<Status<JsonValue>, FormatError>)
    ensures
        match r {
            Ok(s) => decode_status(j.deep()) == Ok::<(StatusKind, Seq<char>, Json), FormatError>(
                status_model(s),
            ),
            Err(x) => decode_status(j.deep()) == Err::<(StatusKind, Seq<char>, Json), FormatError>(
                x,
            ),
        },
{
    match j {
        JsonValue::Object(entries) => {
            let mut entries = entries;
            let ghost e = deep_entries(entries@);
            proof {
                lemma_deep_entries(entries@);
            }
            if repeats_key(&entries, "status") || repeats_key(&entries, "payload") {
                return Err(FormatError::DuplicateField);
            }
            let sp = find_key(&entries, "status");
            let pp = find_key(&entries, "payload");
            if sp.is_none() || pp.is_none() {
                return Err(FormatError::MissingField);
            }
            let sp: usize = sp.unwrap();
            let pp: usize = pp.unwrap();
            proof {
                lemma_first_key_unique(e, "status"@, sp as int);
                lemma_first_key_unique(e, "payload"@, pp as int);
            }
            let kind = match as_string(&entries[sp].1) {
                Some(tag) => kind_of_name(tag),
                None => {
                    return Err(FormatError::InvalidType);
                },
            };
            match kind {
                None => Err(FormatError::UnknownVariant),
                Some(k) => {
                    let (_, payload) = entries.remove(pp);
                    if k == StatusKind::Success {
                        Ok(Status::Success(payload))
                    } else {
                        match payload {
                            JsonValue::Str(m) => Ok(error_status(k, m)),
                            JsonValue::Escaped(m) => Ok(error_status(k, m)),
                            _ => Err(FormatError::InvalidType),
                        }
                    }
                },
            }
        },
        _ => Err(FormatError::NotAnObject),
    }
}

/// A written status reads back as the status.
/// Reading a response does not depend on the order of its entries: a
/// response body of two entries reads the same with them in either order,
/// its identifier always taken from the entry `uuid` and its status from
/// the entry `status`.
pub proof fn lemma_response_order_free(a: (Seq<char>, Json), b: (Seq<char>, Json))
    ensures
        decode_response(Json::Object(seq![a, b])) == decode_response(Json::Object(seq![b, a])),
{
    lemma_swapped_pair_keys(a, b, "uuid"@);
    lemma_swapped_pair_keys(a, b, "status"@);
    let x = seq![a, b];
    let y = seq![b, a];
    assert(x[0] == a && x[1] == b && y[0] == b && y[1] == a);
    if has_foreign_response_key(x) {
        let i = choose|i: int| 0 <= i < x.len() && #[trigger] x[i].0 != "uuid"@ && x[i].0 != "status"@;
        assert(i == 0 || i == 1);
        assert(y[1 - i].0 == x[i].0);
    }
    if has_foreign_response_key(y) {
        let i = choose|i: int| 0 <= i < y.len() && #[trigger] y[i].0 != "uuid"@ && y[i].0 != "status"@;
        assert(i == 0 || i == 1);
        assert(x[1 - i].0 == y[i].0);
    }
}

/// Reading a status does not depend on the order of its entries: a status
/// of two entries reads the same with them in either order, its kind always
/// taken from the entry `status` and its value or message from `payload`.
pub proof fn lemma_status_order_free(a: (Seq<char>, Json), b: (Seq<char>, Json))
    ensures
        decode_status(Json::Object(seq![a, b])) == decode_status(Json::Object(seq![b, a])),
{
    lemma_swapped_pair_keys(a, b, "status"@);
    lemma_swapped_pair_keys(a, b, "payload"@);
}

/// Reading a call does not depend on where its `uuid` entry stands: a call
/// body reads the same as the body with that entry moved to the front and
/// the other entries kept in their order; its identifier is always taken
/// from the entry `uuid`, and its event from the other entries.
pub proof fn lemma_call_uuid_anywhere(
    c: Seq<(Seq<char>, Json)>,
    p: int,
    names: Seq<Seq<char>>,
    fields: Seq<Seq<Seq<char>>>,
)
    requires
        0 <= p < c.len(),
        c[p].0 == "uuid"@,
    ensures
        decode_call(Json::Object(c), names, fields) == decode_call(
            Json::Object(seq![c[p]] + c.remove(p)),
            names,
            fields,
        ),
{
    let r = c.remove(p);
    let d = seq![c[p]] + r;
    assert(d[0] == c[p]);
    assert(d.remove(0) =~= r);
    assert forall|k: int| 0 <= k < r.len() implies #[trigger] d[k + 1] == r[k]
        && r[k] == (if k < p { c[k] } else { c[k + 1] }) by {}
    if is_repeated(c, "uuid"@) {
        let (i, j) = choose|i: int, j: int|
            #![trigger c[i], c[j]]
            0 <= i < j < c.len() && c[i].0 == "uuid"@ && c[j].0 == "uuid"@;
        let q = if i != p { i } else { j };
        let k = if q < p { q } else { q - 1 };
        assert(r[k] == c[q]);
        assert(d[k + 1] == c[q]);
        assert(d[0].0 == "uuid"@ && d[k + 1].0 == "uuid"@);
        assert(is_repeated(d, "uuid"@));
    } else {
        assert forall|j: int| 0 <= j < p implies #[trigger] c[j].0 != "uuid"@ by {
            if c[j].0 == "uuid"@ {
                assert(c[j].0 == "uuid"@ && c[p].0 == "uuid"@);
            }
        }
        assert(is_first_key(c, "uuid"@, p));
        lemma_first_key_unique(c, "uuid"@, p);
        assert(is_first_key(d, "uuid"@, 0));
        lemma_first_key_unique(d, "uuid"@, 0);
        if is_repeated(d, "uuid"@) {
            let (i, j) = choose|i: int, j: int|
                #![trigger d[i], d[j]]
                0 <= i < j < d.len() && d[i].0 == "uuid"@ && d[j].0 == "uuid"@;
            let k = j - 1;
            assert(d[j] == r[k]);
            let q = if k < p { k } else { k + 1 };
            assert(c[q] == r[k]);
            if q < p {
                assert(c[q].0 == "uuid"@ && c[p].0 == "uuid"@);
            } else {
                assert(c[p].0 == "uuid"@ && c[q].0 == "uuid"@);
            }
        }
    }
}

/// An object with a `status` tag and a `payload`, in that order.
pub open spec fn tagged_status(tag: Seq<char>, payload: Json) -> Json {
    Json::Object(seq![("status"@, Json::Str(tag)), ("payload"@, payload)])
}

/// Each status travels under the name of its variant: a success is written
/// with the tag `Ok` and its value, an error with the tag that is its
/// variant's name (`SerializeFailed`, `DeserializeFailed`,
/// `MessageQueueError`, `RemoveMessageQueueError`, `RecvError`, `Timeout`,
/// `InternalServerError`) and its message; and each such object reads as
/// the status of that name.
pub proof fn lemma_status_wire_names(message: Seq<char>, value: Json)
    ensures
        status_json((StatusKind::Success, Seq::empty(), value)) == tagged_status("Ok"@, value),
        decode_status(tagged_status("Ok"@, value)) == Ok::<
            (StatusKind, Seq<char>, Json),
            FormatError,
        >((StatusKind::Success, Seq::empty(), value)),
        status_json((StatusKind::SerializeFailed, message, Json::Null)) == tagged_status(
            "SerializeFailed"@,
            Json::Str(message),
        ),
        decode_status(tagged_status("SerializeFailed"@, Json::Str(message))) == Ok::<
            (StatusKind, Seq<char>, Json),
            FormatError,
        >((StatusKind::SerializeFailed, message, Json::Null)),
        status_json((StatusKind::DeserializeFailed, message, Json::Null)) == tagged_status(
            "DeserializeFailed"@,
            Json::Str(message),
        ),
        decode_status(tagged_status("DeserializeFailed"@, Json::Str(message))) == Ok::<
            (StatusKind, Seq<char>, Json),
            FormatError,
        >((StatusKind::DeserializeFailed, message, Json::Null)),
        status_json((StatusKind::MessageQueueError, message, Json::Null)) == tagged_status(
            "MessageQueueError"@,
            Json::Str(message),
        ),
        decode_status(tagged_status("MessageQueueError"@, Json::Str(message))) == Ok::<
            (StatusKind, Seq<char>, Json),
            FormatError,
        >((StatusKind::MessageQueueError, message, Json::Null)),
        status_json((StatusKind::RemoveMessageQueueError, message, Json::Null)) == tagged_status(
            "RemoveMessageQueueError"@,
            Json::Str(message),
        ),
        decode_status(tagged_status("RemoveMessageQueueError"@, Json::Str(message))) == Ok::<
            (StatusKind, Seq<char>, Json),
            FormatError,
        >((StatusKind::RemoveMessageQueueError, message, Json::Null)),
        status_json((StatusKind::RecvError, message, Json::Null)) == tagged_status(
            "RecvError"@,
            Json::Str(message),
        ),
        decode_status(tagged_status("RecvError"@, Json::Str(message))) == Ok::<
            (StatusKind, Seq<char>, Json),
            FormatError,
        >((StatusKind::RecvError, message, Json::Null)),
        status_json((StatusKind::Timeout, message, Json::Null)) == tagged_status(
            "Timeout"@,
            Json::Str(message),
        ),
        decode_status(tagged_status("Timeout"@, Json::Str(message))) == Ok::<
            (StatusKind, Seq<char>, Json),
            FormatError,
        >((StatusKind::Timeout, message, Json::Null)),
        status_json((StatusKind::InternalServerError, message, Json::Null)) == tagged_status(
            "InternalServerError"@,
            Json::Str(message),
        ),
        decode_status(tagged_status("InternalServerError"@, Json::Str(message))) == Ok::<
            (StatusKind, Seq<char>, Json),
            FormatError,
        >((StatusKind::InternalServerError, message, Json::Null)),
{
    lemma_status_roundtrip((StatusKind::Success, Seq::empty(), value));
    lemma_status_roundtrip((StatusKind::SerializeFailed, message, Json::Null));
    lemma_status_roundtrip((StatusKind::DeserializeFailed, message, Json::Null));
    lemma_status_roundtrip((StatusKind::MessageQueueError, message, Json::Null));
    lemma_status_roundtrip((StatusKind::RemoveMessageQueueError, message, Json::Null));
    lemma_status_roundtrip((StatusKind::RecvError, message, Json::Null));
    lemma_status_roundtrip((StatusKind::Timeout, message, Json::Null));
    lemma_status_roundtrip((StatusKind::InternalServerError, message, Json::Null));
}

pub proof fn lemma_status_roundtrip(m: (StatusKind, Seq<char>, Json))
    requires
        is_status_model(m),
    ensures
        decode_status(status_json(m)) == Ok::<(StatusKind, Seq<char>, Json), FormatError>(m),
{
    reveal_strlit("status");
    reveal_strlit("payload");
    reveal_strlit("Ok");
    reveal_strlit("SerializeFailed");
    reveal_strlit("DeserializeFailed");
    reveal_strlit("MessageQueueError");
    reveal_strlit("RemoveMessageQueueError");
    reveal_strlit("RecvError");
    reveal_strlit("Timeout");
    reveal_strlit("InternalServerError");
    let e = seq![
        ("status"@, Json::Str(m.0.name())),
        ("payload"@, if m.0 == StatusKind::Success { m.2 } else { Json::Str(m.1) }),
    ];
    assert("status"@.len() == 6 && "payload"@.len() == 7);
    assert(!is_repeated(e, "status"@) && !is_repeated(e, "payload"@)) by {
        assert forall|a: int, b: int| 0 <= a < b < e.len() implies !(e[a].0 == e[b].0) by {
            assert(a == 0 && b == 1);
        }
    }
    assert(is_first_key(e, "status"@, 0));
    assert(is_first_key(e, "payload"@, 1));
    lemma_first_key_unique(e, "status"@, 0);
    lemma_first_key_unique(e, "payload"@, 1);
    assert("Ok"@.len() == 2);
    assert("SerializeFailed"@.len() == 15);
    assert("DeserializeFailed"@.len() == 17);
    assert("MessageQueueError"@.len() == 17);
    assert("RemoveMessageQueueError"@.len() == 23);
    assert("RecvError"@.len() == 9);
    assert("Timeout"@.len() == 7);
    assert("InternalServerError"@.len() == 19);
    assert("DeserializeFailed"@[0] != "MessageQueueError"@[0]);
    assert(kind_named(m.0.name()) == Some(m.0));
    if m.0 == StatusKind::Success {
        assert(m.1 =~= Seq::<char>::empty());
    }
}

} // verus!

verus! {

/// A message of a socket, read from the wire.
pub enum SocketMessage {
    /// An event for which no answer is awaited.
    Emit(EventValue),
    /// An event that awaits a response with the same identifier.
    Call { uuid: Uuid, event: EventValue },
    /// The answer to the call with the same identifier.
    Response { uuid: Uuid, status: Status<JsonValue> },
}

/// The mathematical value of a [`SocketMessage`].
pub enum MessageModel {
    Emit(int, Seq<Json>),
    Call(u128, int, Seq<Json>),
    Response(u128, (StatusKind, Seq<char>, Json)),
}

/// The value of a message.
pub open spec fn message_model(m: SocketMessage) -> MessageModel {
    match m {
        SocketMessage::Emit(ev) => MessageModel::Emit(ev.variant as int, deep_items(ev.args@)),
        SocketMessage::Call { uuid, event } => MessageModel::Call(
            uuid@,
            event.variant as int,
            deep_items(event.args@),
        ),
        SocketMessage::Response { uuid, status } => MessageModel::Response(
            uuid@,
            status_model(status),
        ),
    }
}

/// How an emitted event is sent.
pub open spec fn emit_json(event: Json) -> Json {
    Json::Object(seq![("emit"@, event)])
}

/// How a call is sent: the entries of the event, after the call's identifier.
pub open spec fn call_json(uuid: u128, event: Seq<(Seq<char>, Json)>) -> Json {
    Json::Object(
        seq![("call"@, Json::Object(seq![("uuid"@, Json::Str(hyphenated(uuid)))] + event))],
    )
}

/// How the response to a call is sent.
pub open spec fn response_json(uuid: u128, status: (StatusKind, Seq<char>, Json)) -> Json {
    Json::Object(
        seq![
            ("response"@, Json::Object(
                seq![("uuid"@, Json::Str(hyphenated(uuid))), ("status"@, status_json(status))],
            )),
        ],
    )
}

/// An identifier read from its written form. It is read by borrowing its
/// text from the received message, so a string written with escapes is of
/// the wrong type here.
pub open spec fn decode_uuid(j: Json) -> Result<u128, FormatError> {
    match j {
        Json::Str(t) => match uuid_parse(t) {
            Some(u) => Ok(u),
            None => Err(FormatError::InvalidUuid),
        },
        _ => Err(FormatError::InvalidType),
    }
}

/// Whether an object has an entry other than `uuid` and `status`.
pub open spec fn has_foreign_response_key(e: Seq<(Seq<char>, Json)>) -> bool {
    exists|i: int| 0 <= i < e.len() && #[trigger] e[i].0 != "uuid"@ && e[i].0 != "status"@
}

/// The body of a call read from its written form: its identifier, and the
/// event made of its other entries. Those entries are read as strictly as an
/// emitted event: an entry other than `event` and `args` is refused, and the
/// tag must be a string.
pub open spec fn decode_call(
    body: Json,
    names: Seq<Seq<char>>,
    fields: Seq<Seq<Seq<char>>>,
) -> Result<MessageModel, FormatError> {
    match body {
        Json::Object(c) => if is_repeated(c, "uuid"@) {
            Err(FormatError::DuplicateField)
        } else if !has_key(c, "uuid"@) {
            Err(FormatError::MissingField)
        } else {
            let p = key_position(c, "uuid"@);
            match decode_uuid(c[p].1) {
                Ok(u) => match decode_event(Json::Object(c.remove(p)), names, fields) {
                    Ok((k, a)) => Ok(MessageModel::Call(u, k, a)),
                    Err(x) => Err(x),
                },
                Err(x) => Err(x),
            }
        },
        _ => Err(FormatError::NotAnObject),
    }
}

/// The body of a response read from its written form.
pub open spec fn decode_response(body: Json) -> Result<MessageModel, FormatError> {
    match body {
        Json::Object(r) => if has_foreign_response_key(r) {
            Err(FormatError::UnknownField)
        } else if is_repeated(r, "uuid"@) || is_repeated(r, "status"@) {
            Err(FormatError::DuplicateField)
        } else if !has_key(r, "uuid"@) || !has_key(r, "status"@) {
            Err(FormatError::MissingField)
        } else {
            match decode_uuid(r[key_position(r, "uuid"@)].1) {
                Ok(u) => match decode_status(r[key_position(r, "status"@)].1) {
                    Ok(s) => Ok(MessageModel::Response(u, s)),
                    Err(x) => Err(x),
                },
                Err(x) => Err(x),
            }
        },
        _ => Err(FormatError::NotAnObject),
    }
}

/// A message read from its written form, with the schemas of the events
/// that may be emitted and called; or why it is not a message.
pub open spec fn decode_message(
    j: Json,
    emit_names: Seq<Seq<char>>,
    emit_fields: Seq<Seq<Seq<char>>>,
    call_names: Seq<Seq<char>>,
    call_fields: Seq<Seq<Seq<char>>>,
) -> Result<MessageModel, FormatError> {
    match j {
        Json::Object(e) => if e.len() != 1 {
            Err(FormatError::InvalidLength)
        } else if e[0].0 == "emit"@ {
            match decode_event(e[0].1, emit_names, emit_fields) {
                Ok((k, a)) => Ok(MessageModel::Emit(k, a)),
                Err(x) => Err(x),
            }
        } else if e[0].0 == "call"@ {
            decode_call(e[0].1, call_names, call_fields)
        } else if e[0].0 == "response"@ {
            decode_response(e[0].1)
        } else {
            Err(FormatError::UnknownVariant)
        },
        _ => Err(FormatError::NotAnObject),
    }
}

fn read_uuid(j: &JsonValue) -> (r: Result<Uuid, FormatError>)
    ensures
        match r {
            Ok(u) => decode_uuid(j.deep()) == Ok::<u128, FormatError>(u@),
            Err(x) => decode_uuid(j.deep()) == Err::<u128, FormatError>(x),
        },
{
    match j {
        JsonValue::Str(t) => match Uuid::parse(t.as_str()) {
            Ok(u) => Ok(u),
            Err(_) => Err(FormatError::InvalidUuid),
        },
        _ => Err(FormatError::InvalidType),
    }
}

/// Writes an emitted event as it is sent.
pub fn encode_emit(event: JsonValue) -> (j: JsonValue)
    ensures
        j.deep() == emit_json(event.deep()),
{
    let ghost d = event.deep();
    let mut entries: Vec<(String, JsonValue)> = Vec::new();
    entries.push((text("emit"), event));
    proof {
        lemma_deep_entries_ext(entries@, seq![("emit"@, d)]);
    }
    JsonValue::Object(entries)
}

/// Writes a call as it is sent. The event must be written as an object,
/// whose entries follow the identifier.
pub fn encode_call(uuid: &Uuid, event: JsonValue) -> (r: Result<JsonValue, FormatError>)
    ensures
        match event.deep() {
            Json::Object(e) => r matches Ok(j) && j.deep() == call_json(uuid@, e),
            _ => r == Err::<JsonValue, FormatError>(FormatError::NotAnObject),
        },
{
    match event {
        JsonValue::Object(entries) => {
            let ghost e = deep_entries(entries@);
            proof {
                lemma_deep_entries(entries@);
            }
            let mut body: Vec<(String, JsonValue)> = Vec::new();
            body.push((text("uuid"), JsonValue::Str(uuid.to_text())));
            let mut rest = entries;
            body.append(&mut rest);
            proof {
                lemma_deep_entries_ext(body@, seq![("uuid"@, Json::Str(hyphenated(uuid@)))] + e);
            }
            let mut outer: Vec<(String, JsonValue)> = Vec::new();
            outer.push((text("call"), JsonValue::Object(body)));
            proof {
                lemma_deep_entries_ext(outer@, seq![("call"@, Json::Object(seq![("uuid"@, Json::Str(hyphenated(uuid@)))] + e))]);
            }
            Ok(JsonValue::Object(outer))
        },
        _ => Err(FormatError::NotAnObject),
    }
}

/// Writes the response to a call as it is sent.
pub fn encode_response(uuid: &Uuid, status: Status<JsonValue>) -> (j: JsonValue)
    ensures
        j.deep() == response_json(uuid@, status_model(status)),
{
    let ghost m = status_model(status);
    let s = encode_status(status);
    let mut body: Vec<(String, JsonValue)> = Vec::new();
    body.push((text("uuid"), JsonValue::Str(uuid.to_text())));
    body.push((text("status"), s));
    proof {
        lemma_deep_entries_ext(body@, seq![("uuid"@, Json::Str(hyphenated(uuid@))), ("status"@, status_json(m))]);
    }
    let mut outer: Vec<(String, JsonValue)> = Vec::new();
    outer.push((text("response"), JsonValue::Object(body)));
    proof {
        lemma_deep_entries_ext(outer@, seq![("response"@, Json::Object(seq![("uuid"@, Json::Str(hyphenated(uuid@))), ("status"@, status_json(m))]))]);
    }
    JsonValue::Object(outer)
}

} // verus!

verus! {

fn read_call(body: JsonValue, schema: &EventSchema) -> (r: Result<SocketMessage, FormatError>)
    ensures
        match r {
            Ok(m) => decode_call(body.deep(), schema.names(), schema.fields()) == Ok::<
                MessageModel,
                FormatError,
            >(message_model(m)),
            Err(x) => decode_call(body.deep(), schema.names(), schema.fields()) == Err::<
                MessageModel,
                FormatError,
            >(x),
        },
{
    match body {
        JsonValue::Object(c) => {
            let mut c = c;
            let ghost e = deep_entries(c@);
            let ghost orig = c@;
            proof {
                lemma_deep_entries(c@);
            }
            if repeats_key(&c, "uuid") {
                return Err(FormatError::DuplicateField);
            }
            let p: usize = match find_key(&c, "uuid") {
                Some(p) => p,
                None => {
                    return Err(FormatError::MissingField);
                },
            };
            proof {
                lemma_first_key_unique(e, "uuid"@, p as int);
            }
            let uuid = match read_uuid(&c[p].1) {
                Ok(u) => u,
                Err(x) => {
                    return Err(x);
                },
            };
            c.remove(p);
            proof {
                crate::json::lemma_deep_entries_remove(orig, p as int);
            }
            match schema.decode_event(JsonValue::Object(c)) {
                Ok(event) => Ok(SocketMessage::Call { uuid, event }),
                Err(x) => Err(x),
            }
        },
        _ => Err(FormatError::NotAnObject),
    }
}

fn read_response(body: JsonValue) -> (r: Result<SocketMessage, FormatError>)
    ensures
        match r {
            Ok(m) => decode_response(body.deep()) == Ok::<MessageModel, FormatError>(
                message_model(m),
            ),
            Err(x) => decode_response(body.deep()) == Err::<MessageModel, FormatError>(x),
        },
{
    let ghost bd = body.deep();
    match body {
        JsonValue::Object(c) => {
            let mut c = c;
            let ghost e = deep_entries(c@);
            proof {
                lemma_deep_entries(c@);
            }
            let uuid_key = text("uuid");
            let status_key = text("status");
            let mut i: usize = 0;
            while i < c.len()
                invariant
                    i <= c@.len(),
                    bd == body.deep(),
                    bd == Json::Object(e),
                    e == deep_entries(c@),
                    e.len() == c@.len(),
                    forall|j: int| 0 <= j < c@.len() ==> #[trigger] e[j] == (c@[j].0@, c@[j].1.deep()),
                    uuid_key@ == "uuid"@,
                    status_key@ == "status"@,
                    forall|j: int| 0 <= j < i ==> (#[trigger] e[j].0 == "uuid"@ || e[j].0 == "status"@),
                decreases c@.len() - i,
            {
                if !(c[i].0 == uuid_key || c[i].0 == status_key) {
                    proof {
                        assert(e[i as int].0 != "uuid"@ && e[i as int].0 != "status"@);
                    }
                    return Err(FormatError::UnknownField);
                }
                i = i + 1;
            }
            assert(!has_foreign_response_key(e));
            if repeats_key(&c, "uuid") || repeats_key(&c, "status") {
                return Err(FormatError::DuplicateField);
            }
            let up = find_key(&c, "uuid");
            let sp = find_key(&c, "status");
            if up.is_none() || sp.is_none() {
                return Err(FormatError::MissingField);
            }
            let up: usize = up.unwrap();
            let sp: usize = sp.unwrap();
            proof {
                lemma_first_key_unique(e, "uuid"@, up as int);
                lemma_first_key_unique(e, "status"@, sp as int);
            }
            let uuid = match read_uuid(&c[up].1) {
                Ok(u) => u,
                Err(x) => {
                    return Err(x);
                },
            };
            let (_, s) = c.remove(sp);
            match decode_status_value(s) {
                Ok(status) => Ok(SocketMessage::Response { uuid, status }),
                Err(x) => Err(x),
            }
        },
        _ => Err(FormatError::NotAnObject),
    }
}

/// Reads a message received on the wire, with the schemas of the events
/// that may be emitted and called.
pub fn decode_message_value(
    j: JsonValue,
    emit: &EventSchema,
    call: &EventSchema,
) -> (r: Result<SocketMessage, FormatError>)
    ensures
        match r {
            Ok(m) => decode_message(
                j.deep(),
                emit.names(),
                emit.fields(),
                call.names(),
                call.fields(),
            ) == Ok::<MessageModel, FormatError>(message_model(m)),
            Err(x) => decode_message(
                j.deep(),
                emit.names(),
                emit.fields(),
                call.names(),
                call.fields(),
            ) == Err::<MessageModel, FormatError>(x),
        },
{
    match j {
        JsonValue::Object(entries) => {
            let mut entries = entries;
            proof {
                lemma_deep_entries(entries@);
            }
            if entries.len() != 1 {
                return Err(FormatError::InvalidLength);
            }
            let (key, body) = entries.pop().unwrap();
            if key == text("emit") {
                match emit.decode_event(body) {
                    Ok(ev) => Ok(SocketMessage::Emit(ev)),
                    Err(x) => Err(x),
                }
            } else if key == text("call") {
                read_call(body, call)
            } else if key == text("response") {
                read_response(body)
            } else {
                Err(FormatError::UnknownVariant)
            }
        },
        _ => Err(FormatError::NotAnObject),
    }
}

} // verus!

verus! {

/// An emitted event is read back as the variant and field values it was
/// written from, where the names of the emitted events are distinct in snake
/// case.
pub proof fn lemma_emit_roundtrip(
    emit_names: Seq<Seq<char>>,
    emit_fields: Seq<Seq<Seq<char>>>,
    call_names: Seq<Seq<char>>,
    call_fields: Seq<Seq<Seq<char>>>,
    k: int,
    args: Seq<Json>,
)
    requires
        crate::event::distinct_wire_names(emit_names),
        emit_names.len() == emit_fields.len(),
        0 <= k < emit_names.len(),
        args.len() == emit_fields[k].len(),
    ensures
        decode_message(
            emit_json(crate::event::event_json(crate::event::snake_case(emit_names[k]), args)),
            emit_names,
            emit_fields,
            call_names,
            call_fields,
        ) == Ok::<MessageModel, FormatError>(MessageModel::Emit(k, args)),
{
    crate::event::lemma_event_roundtrip(emit_names, emit_fields, k, args);
}

/// A call is read back as its identifier and the variant and field values
/// of its event, where the names of the called events are distinct in snake
/// case and the text of the identifier reads back as the identifier.
pub proof fn lemma_call_roundtrip(
    emit_names: Seq<Seq<char>>,
    emit_fields: Seq<Seq<Seq<char>>>,
    call_names: Seq<Seq<char>>,
    call_fields: Seq<Seq<Seq<char>>>,
    uuid: u128,
    k: int,
    args: Seq<Json>,
)
    requires
        crate::event::distinct_wire_names(call_names),
        call_names.len() == call_fields.len(),
        0 <= k < call_names.len(),
        args.len() == call_fields[k].len(),
        uuid_parse(hyphenated(uuid)) == Some(uuid),
    ensures
        decode_message(
            call_json(
                uuid,
                crate::event::event_entries(crate::event::snake_case(call_names[k]), args),
            ),
            emit_names,
            emit_fields,
            call_names,
            call_fields,
        ) == Ok::<MessageModel, FormatError>(MessageModel::Call(uuid, k, args)),
{
    reveal_strlit("emit");
    reveal_strlit("call");
    reveal_strlit("uuid");
    reveal_strlit("event");
    reveal_strlit("args");
    let ev = crate::event::event_entries(crate::event::snake_case(call_names[k]), args);
    let c = seq![("uuid"@, Json::Str(hyphenated(uuid)))] + ev;
    assert("uuid"@.len() == 4 && "emit"@.len() == 4 && "call"@.len() == 4);
    assert("uuid"@[0] != "call"@[0] && "emit"@[0] != "call"@[0]);
    assert(is_first_key(c, "uuid"@, 0));
    lemma_first_key_unique(c, "uuid"@, 0);
    assert(!is_repeated(c, "uuid"@)) by {
        reveal_strlit("event");
        reveal_strlit("args");
        assert("event"@.len() == 5 && "args"@.len() == 4);
        assert forall|a: int, b: int| #![trigger c[a], c[b]] 0 <= a < b < c.len() implies !(c[b].0
            == "uuid"@) by {
            assert(c[b] == ev[b - 1]);
        }
    }
    assert(c.remove(0) =~= ev);
    crate::event::lemma_event_roundtrip(call_names, call_fields, k, args);
}

/// A response is read back as its identifier and status, where the text of
/// the identifier reads back as the identifier.
pub proof fn lemma_response_roundtrip(
    emit_names: Seq<Seq<char>>,
    emit_fields: Seq<Seq<Seq<char>>>,
    call_names: Seq<Seq<char>>,
    call_fields: Seq<Seq<Seq<char>>>,
    uuid: u128,
    status: (StatusKind, Seq<char>, Json),
)
    requires
        is_status_model(status),
        uuid_parse(hyphenated(uuid)) == Some(uuid),
    ensures
        decode_message(
            response_json(uuid, status),
            emit_names,
            emit_fields,
            call_names,
            call_fields,
        ) == Ok::<MessageModel, FormatError>(MessageModel::Response(uuid, status)),
{
    reveal_strlit("emit");
    reveal_strlit("call");
    reveal_strlit("response");
    reveal_strlit("uuid");
    reveal_strlit("status");
    let r = seq![("uuid"@, Json::Str(hyphenated(uuid))), ("status"@, status_json(status))];
    assert("uuid"@.len() == 4 && "status"@.len() == 6);
    assert("emit"@.len() == 4 && "call"@.len() == 4 && "response"@.len() == 8);
    assert(!has_foreign_response_key(r)) by {
        assert forall|i: int| 0 <= i < r.len() implies !(#[trigger] r[i].0 != "uuid"@ && r[i].0
            != "status"@) by {
            assert(i == 0 || i == 1);
        }
    }
    assert(!is_repeated(r, "uuid"@) && !is_repeated(r, "status"@)) by {
        assert forall|a: int, b: int| 0 <= a < b < r.len() implies !(r[a].0 == r[b].0) by {
            assert(a == 0 && b == 1);
        }
    }
    assert(is_first_key(r, "uuid"@, 0));
    assert(is_first_key(r, "status"@, 1));
    lemma_first_key_unique(r, "uuid"@, 0);
    lemma_first_key_unique(r, "status"@, 1);
    lemma_status_roundtrip(status);
}

} // verus!
