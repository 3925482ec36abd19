//! Heartbeat messages.
use vstd::prelude::*;
use crate::can::{CanId, CanMessage};
use super::cob_id::HEARTBEAT_ID;
use super::nmt::NmtState;

verus! {

/// A heartbeat message.
#[derive(Clone, Copy, Debug, PartialEq, Eq, Structural)]
pub struct Heartbeat {
    /// The ID of the node that sends the heartbeat
    pub node: u8,
    /// A toggle bit flipped on every heartbeat
    pub toggle: bool,
    /// The NMT state of the node
    pub state: NmtState,
}

impl Heartbeat {
    /// The status byte of the heartbeat: the state, with the toggle in the top bit.
    pub open spec fn spec_status_byte(self) -> u8 {
        if self.toggle {
            self.state.spec_raw() | 0x80u8
        } else {
            self.state.spec_raw()
        }
    }

    /// The frame of a heartbeat.
    pub open spec fn spec_to_message(self) -> CanMessage {
        CanMessage {
            data: [self.spec_status_byte(), 0, 0, 0, 0, 0, 0, 0],
            dlc: 1,
            rtr: false,
            id: CanId::Std(HEARTBEAT_ID | (self.node as u16)),
        }
    }
}

impl From<Heartbeat> for CanMessage {
    fn from(value: Heartbeat) -> (msg: CanMessage) {
        let mut status = value.state.raw();
        if value.toggle {
            status = status | 0x80u8;
        }
        let data = [status, 0, 0, 0, 0, 0, 0, 0];
        CanMessage { data, dlc: 1, rtr: false, id: CanId::Std(HEARTBEAT_ID | value.node as u16) }
    }
}

impl vstd::std_specs::convert::FromSpecImpl<Heartbeat> for CanMessage {
    open spec fn obeys_from_spec() -> bool {
        true
    }

    open spec fn from_spec(value: Heartbeat) -> CanMessage {
        value.spec_to_message()
    }
}

/// A heartbeat goes out on COB ID 0x700 plus the node ID, as one byte: the state code in the low
/// seven bits (0 Bootup, 4 Stopped, 5 Operational, 127 PreOperational) and the toggle in the top
/// bit.
pub proof fn lemma_heartbeat_frame(h: Heartbeat)
    requires
        h.node < 128,
    ensures
        h.spec_to_message().id == CanId::Std((0x700 + h.node) as u16),
        h.spec_to_message().dlc == 1,
        h.spec_to_message().data[0] == (if h.toggle { 128int } else { 0int }) + match h.state {
            NmtState::Bootup => 0int,
            NmtState::Stopped => 4int,
            NmtState::Operational => 5int,
            NmtState::PreOperational => 127int,
        },
{
    let node = h.node as u16;
    assert(HEARTBEAT_ID | node == 0x700 + node) by (bit_vector)
        requires
            node < 128,
            HEARTBEAT_ID == 0x700u16,
    ;
    let c = h.state.spec_raw();
    assert((c | 0x80u8) == c + 128) by (bit_vector)
        requires
            c < 128,
    ;
}

} // verus!
