//! The outcome of a request: a value, or one of the errors of the protocol.

use vstd::prelude::*;

verus! {

/// A value of no content. It stands where a message carries no value.
#[derive(Debug)]
pub struct Empty {
    _p: (),
}

/// The one value of [`Empty`].
pub closed spec fn empty() -> Empty {
    Empty { _p: () }
}

impl Empty {
    /// The text by which an `Empty` is shown.
    pub fn to_text(&self) -> (s: String)
        ensures
            s@ == "()"@,
    {
        String::from_str("()")
    }
}

impl Default for Empty {
    fn default() -> (e: Empty)
        ensures
            e == empty(),
    {
        Empty { _p: () }
    }
}

/// The variants of [`Status`], without what they carry.
#[derive(PartialEq, Eq, Structural, Clone, Copy, Debug)]
pub enum StatusKind {
    Success,
    SerializeFailed,
    DeserializeFailed,
    MessageQueueError,
    RemoveMessageQueueError,
    RecvError,
    Timeout,
    InternalServerError,
}

impl StatusKind {
    /// The name of the variant, as it is written on the wire.
    pub open spec fn name(self) -> Seq<char> {
        match self {
            StatusKind::Success => "Ok"@,
            StatusKind::SerializeFailed => "SerializeFailed"@,
            StatusKind::DeserializeFailed => "DeserializeFailed"@,
            StatusKind::MessageQueueError => "MessageQueueError"@,
            StatusKind::RemoveMessageQueueError => "RemoveMessageQueueError"@,
            StatusKind::RecvError => "RecvError"@,
            StatusKind::Timeout => "Timeout"@,
            StatusKind::InternalServerError => "InternalServerError"@,
        }
    }

    /// The words that introduce the message of an error of this kind when
    /// it is shown.
    pub open spec fn caption(self) -> Seq<char> {
        match self {
            StatusKind::Success => "Ok("@,
            StatusKind::SerializeFailed => "Failed to serialize: "@,
            StatusKind::DeserializeFailed => "Failed to deserialize: "@,
            StatusKind::MessageQueueError => "Failed to queue message: "@,
            StatusKind::RemoveMessageQueueError => "Failed to remove queued message: "@,
            StatusKind::RecvError => "Recv error on channel: "@,
            StatusKind::Timeout => "Timeout: "@,
            StatusKind::InternalServerError => "Internal server error: "@,
        }
    }
}

/// The result of a request: `Success` with a value, or an error with a message.
#[derive(Clone, Debug)]
pub enum Status<T = Empty> {
    /// A value: the request succeeded. Written `Ok` on the wire.
    Success(T),
    /// Serialization errors.
    SerializeFailed(String),
    DeserializeFailed(String),
    /// Async messaging errors.
    MessageQueueError(String),
    RemoveMessageQueueError(String),
    RecvError(String),
    Timeout(String),
    /// Internal server errors.
    InternalServerError(String),
}

/// The result type of the operations of a socket.
pub type AsyncSocketResult<T = ()> = Result<T, Status>;

/// The same as [`AsyncSocketResult`].
pub type KokoResult<T = ()> = Result<T, Status>;

impl<T> Status<T> {
    /// Which variant this is.
    pub open spec fn kind(&self) -> StatusKind {
        match self {
            Status::Success(_) => StatusKind::Success,
            Status::SerializeFailed(_) => StatusKind::SerializeFailed,
            Status::DeserializeFailed(_) => StatusKind::DeserializeFailed,
            Status::MessageQueueError(_) => StatusKind::MessageQueueError,
            Status::RemoveMessageQueueError(_) => StatusKind::RemoveMessageQueueError,
            Status::RecvError(_) => StatusKind::RecvError,
            Status::Timeout(_) => StatusKind::Timeout,
            Status::InternalServerError(_) => StatusKind::InternalServerError,
        }
    }

    /// The message of an error; empty for `Success`.
    pub open spec fn message(&self) -> Seq<char> {
        match self {
            Status::Success(_) => Seq::empty(),
            Status::SerializeFailed(m) => m@,
            Status::DeserializeFailed(m) => m@,
            Status::MessageQueueError(m) => m@,
            Status::RemoveMessageQueueError(m) => m@,
            Status::RecvError(m) => m@,
            Status::Timeout(m) => m@,
            Status::InternalServerError(m) => m@,
        }
    }

    /// Whether this is `Success`.
    pub fn is_ok(&self) -> (b: bool)
        ensures
            b == (self.kind() == StatusKind::Success),
    {
        match self {
            Status::Success(_) => true,
            _ => false,
        }
    }

    /// Drops the value of a `Success`, keeping the kind and message of an error.
    /// A `SerializeFailed` becomes a `DeserializeFailed` with the same message.
    pub fn clear_value(self) -> (s: Status<Empty>)
        ensures
            s.kind() == (if self.kind() == StatusKind::SerializeFailed {
                StatusKind::DeserializeFailed
            } else {
                self.kind()
            }),
            s.message() == self.message(),
    {
        match self {
            Status::Success(_) => Status::Success(Empty::default()),
            Status::SerializeFailed(msg) => Status::DeserializeFailed(msg),
            Status::DeserializeFailed(msg) => Status::DeserializeFailed(msg),
            Status::MessageQueueError(msg) => Status::MessageQueueError(msg),
            Status::RemoveMessageQueueError(msg) => Status::RemoveMessageQueueError(msg),
            Status::RecvError(msg) => Status::RecvError(msg),
            Status::Timeout(msg) => Status::Timeout(msg),
            Status::InternalServerError(msg) => Status::InternalServerError(msg),
        }
    }
}

/// The text by which a status is shown, given the text of its value.
pub open spec fn status_text(kind: StatusKind, message: Seq<char>, value_text: Seq<char>) -> Seq<char> {
    if kind == StatusKind::Success {
        "Ok("@ + value_text + ")"@
    } else {
        kind.caption() + message
    }
}

impl<T> Status<T> {
    /// The text by which this status is shown, given the text of its value:
    /// `Ok(<value>)`, or the caption of the error followed by its message.
    pub fn to_text_with(&self, value_text: &str) -> (s: String)
        ensures
            s@ == status_text(self.kind(), self.message(), value_text@),
    {
        match self {
            Status::Success(_) => {
                let mut s = String::from_str("Ok(");
                s.append(value_text);
                s.append(")");
                s
            },
            Status::SerializeFailed(m) => String::from_str("Failed to serialize: ").concat(m.as_str()),
            Status::DeserializeFailed(m) => String::from_str("Failed to deserialize: ").concat(
                m.as_str(),
            ),
            Status::MessageQueueError(m) => String::from_str("Failed to queue message: ").concat(
                m.as_str(),
            ),
            Status::RemoveMessageQueueError(m) => String::from_str(
                "Failed to remove queued message: ",
            ).concat(m.as_str()),
            Status::RecvError(m) => String::from_str("Recv error on channel: ").concat(m.as_str()),
            Status::Timeout(m) => String::from_str("Timeout: ").concat(m.as_str()),
            Status::InternalServerError(m) => String::from_str("Internal server error: ").concat(
                m.as_str(),
            ),
        }
    }
}

impl Status<Empty> {
    /// The text by which this status is shown: `Ok(())`, or the caption of
    /// the error followed by its message.
    pub fn to_text(&self) -> (s: String)
        ensures
            s@ == status_text(self.kind(), self.message(), "()"@),
    {
        let empty = String::from_str("()");
        self.to_text_with(empty.as_str())
    }
}

} // verus!
