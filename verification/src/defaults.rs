//! The marks of the kinds of messages that travel over a socket.

use vstd::prelude::*;

verus! {

/// A kind of message that the library writes to the wire.
pub trait SerMessage {}

/// A kind of message that the library reads from the wire.
pub trait DeMessage {}

} // verus!
