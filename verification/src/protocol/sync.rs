//! SYNC messages.
use vstd::prelude::*;
use crate::can::{CanId, CanMessage, zeros};
use super::cob_id::sync_id;

verus! {

/// A SYNC object.
///
/// A single node may act as SYNC producer, sending a periodic SYNC to all other nodes. The
/// optional one byte count starts at 1 and increments, and is reset to 1 on overflow. Without a
/// count the frame has no payload.
#[derive(Clone, Copy, Debug, PartialEq, Eq, Structural)]
pub struct SyncObject {
    /// The optional count of this SYNC
    pub count: Option<u8>,
}

impl SyncObject {
    /// Creates a SYNC object.
    pub fn new(count: Option<u8>) -> (r: SyncObject)
        ensures
            r.count == count,
    {
        SyncObject { count }
    }

    /// The payload of the SYNC frame.
    pub open spec fn spec_payload(self) -> Seq<u8> {
        match self.count {
            Some(c) => seq![c],
            None => Seq::empty(),
        }
    }

    /// Reads a SYNC object out of a SYNC frame.
    pub fn from(msg: CanMessage) -> (r: SyncObject)
        requires
            msg.wf(),
            msg.id == sync_id(),
        ensures
            r.count == (if msg.dlc == 0 { None } else { Some(msg.data[0]) }),
    {
        let count = if msg.data().len() == 0 {
            None
        } else {
            Some(msg.data()[0])
        };
        SyncObject { count }
    }
}

impl From<SyncObject> for CanMessage {
    fn from(value: SyncObject) -> (msg: CanMessage) {
        match value.count {
            Some(count) => CanMessage { data: [count, 0, 0, 0, 0, 0, 0, 0], dlc: 1, rtr: false, id: sync_id() },
            None => CanMessage { data: [0u8, 0, 0, 0, 0, 0, 0, 0], dlc: 0, rtr: false, id: sync_id() },
        }
    }
}

impl vstd::std_specs::convert::FromSpecImpl<SyncObject> for CanMessage {
    open spec fn obeys_from_spec() -> bool {
        true
    }

    open spec fn from_spec(value: SyncObject) -> CanMessage {
        value.spec_to_message()
    }
}

impl SyncObject {
    /// The SYNC frame of a SYNC object.
    pub open spec fn spec_to_message(self) -> CanMessage {
        match self.count {
            Some(c) => CanMessage { data: [c, 0, 0, 0, 0, 0, 0, 0], dlc: 1, rtr: false, id: CanId::Std(0x80) },
            None => CanMessage { data: [0u8, 0, 0, 0, 0, 0, 0, 0], dlc: 0, rtr: false, id: CanId::Std(0x80) },
        }
    }
}

/// Reading a SYNC frame gives back the SYNC object it was made from.
pub proof fn lemma_sync_roundtrip(value: SyncObject, msg: CanMessage)
    requires
        msg == value.spec_to_message(),
    ensures
        msg.wf(),
        msg.id == sync_id(),
        (if msg.dlc == 0 { None } else { Some(msg.data[0]) }) == value.count,
{
}

} // verus!
