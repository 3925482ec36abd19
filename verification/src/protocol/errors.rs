//! Errors of converting CAN frames into protocol messages.
use vstd::prelude::*;
use crate::can::CanId;

verus! {

/// An error converting a CanMessage into a protocol message.
#[derive(Debug, Clone, Copy, PartialEq, Eq, Structural)]
pub enum MessageError {
    /// Not enough bytes were present in the message
    MessageTooShort,
    /// The message was malformed in some way
    MalformedMsg {
        /// The COB ID of the malformed message
        cob_id: CanId,
    },
    /// The message ID was not the expected value
    UnexpectedId {
        /// Received ID
        cob_id: CanId,
        /// Expected ID
        expected: CanId,
    },
    /// A field in the message held a value that the field does not allow
    InvalidField,
    /// The COB ID does not belong to a known message
    UnrecognizedId {
        /// The unrecognized COB ID
        cob_id: CanId,
    },
    /// The NMT state in the message is not a valid NMT state
    InvalidNmtState {
        /// The invalid byte
        value: u8,
    },
    /// An invalid LSS command specifier was found in the message
    UnexpectedLssCommand {
        /// The invalid byte
        value: u8,
    },
}

} // verus!
