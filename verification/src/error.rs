//! Errors of encoding and of handling messages.
use vstd::prelude::*;

verus! {

/// Why a message could not be written.
#[derive(Debug, Clone, Copy, PartialEq, Eq, Structural)]
pub enum EncodeError {
    /// The message does not fit into the given buffer.
    BufferTooSmall,
    /// The message is longer than `MAX_MESSAGE_LEN`, or a value is too long for its field.
    ValueTooLong,
}

/// Why an incoming message could not be handled.
#[derive(Debug, Clone, Copy, PartialEq, Eq)]
pub enum DBusError {
    /// The message has an unexpected type
    WrongMessageType,
    /// The message has no path
    NoPath,
    /// The message has no member
    NoMember,
    /// The message has no interface
    NoInterface,
    /// The message has no destination
    NoDestination,
    /// The message has no sender
    NoSender,
    /// The message has no body
    NoBody,
    /// The message has a body where none is expected
    UnexpectedBody,
    /// The message is addressed to another path
    WrongPath,
    /// The message calls another member
    WrongMember,
    /// The message targets another interface
    WrongInterface,
    /// The message is addressed to another destination
    WrongDestination,
    /// The message comes from another sender
    WrongSender,
    /// A value has an unexpected type
    WrongValue,
    /// The requested property is unknown
    NoPropertyName,
    /// The requested member is unknown
    UnknownMember,
    /// A reply could not be encoded
    EncodeError(EncodeError),
    /// Any other error
    Other(&'static str),
}

} // verus!
