//! The error taxonomy of the chat engine.

use vstd::prelude::*;

verus! {

/// Every failure the chat engine can report.
#[derive(Clone, Copy, Debug, PartialEq, Eq, Structural)]
pub enum Error {
    /// The transport could not complete a request, or the server answered
    /// with a non-success status.
    Transport,
    /// The initialization response lacked the expected session-token header.
    MissingToken,
    /// The upstream frame source produced malformed framing.
    InvalidFraming,
    /// A frame arrived without a data field.
    MissingData,
    /// A frame's data was not valid JSON of the expected shape.
    InvalidPayload,
    /// A reply stream ended without ever naming a speaker role.
    MissingRole,
    /// Another send or mutation is in flight on the same session.
    Busy,
    /// The model cannot change once a conversation has started.
    ModelLocked,
    /// A transcript index was out of range.
    IndexOutOfRange,
}

} // verus!
