//! The frames a bus dump shows: standard messages where they are recognized, raw frames else.
use vstd::prelude::*;
use crate::can::CanMessage;
use crate::protocol::zencan_message::{classifiable, is_classifiable, ZencanMessage};

verus! {

/// A frame as a bus dump shows it.
#[derive(Clone, Copy, Debug)]
pub enum Message {
    /// A frame that is no standard message
    Unrecognized(CanMessage),
    /// A standard message
    Recognized(ZencanMessage),
}

impl Message {
    /// Recognizes a frame as a standard message where the classification reads one, and keeps
    /// it as a raw frame else (also where a request cannot be decoded).
    pub fn classify(msg: CanMessage) -> (r: Message)
        ensures
            classifiable(msg) && ZencanMessage::spec_try_from(msg) is Ok ==> r == Message::Recognized(
                ZencanMessage::spec_try_from(msg)->Ok_0,
            ),
            !(classifiable(msg) && ZencanMessage::spec_try_from(msg) is Ok) ==> r == Message::Unrecognized(msg),
    {
        if is_classifiable(&msg) {
            match ZencanMessage::try_from(msg) {
                Ok(m) => Message::Recognized(m),
                Err(_) => Message::Unrecognized(msg),
            }
        } else {
            Message::Unrecognized(msg)
        }
    }
}

} // verus!
