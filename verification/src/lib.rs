//! Typed, call-and-response messaging over WebSockets: the message formats,
//! the bookkeeping of outstanding calls and the decisions of a session,
//! each stated and proved.

pub mod call;
pub mod context;
pub mod defaults;
pub mod event;
pub mod json;
pub mod message;
pub mod options;
pub mod registry;
pub mod session;
pub mod status;
pub mod uuid;

pub use crate::call::{CallAction, CallEvent, CallMachine, CallPhase, ListenerState};
pub use crate::context::AsyncSocketContext;
pub use crate::defaults::{DeMessage, SerMessage};
pub use crate::event::{EventSchema, EventValue, VariantDecl, VariantFields};
pub use crate::json::{FormatError, Json, JsonValue};
pub use crate::message::SocketMessage;
pub use crate::options::{AsyncSocketOptions, AsyncSocketSecurity, BindAddr, Timeout};
pub use crate::registry::{ChannelAction, ChannelMessage, ResponseRegistry};
pub use crate::session::{FrameDisposition, FrameKind, Inbound};
pub use crate::status::{AsyncSocketResult, Empty, KokoResult, Status, StatusKind};
pub use crate::uuid::Uuid;
