//! CAN frame types and the synchronous transport traits.
use vstd::prelude::*;

verus! {

/// A CAN identifier, either an 11-bit standard or a 29-bit extended one.
#[derive(Copy, Clone, Debug, PartialEq, Eq, Structural)]
pub enum CanId {
    /// An extended 29-bit identifier
    Extended(u32),
    /// A standard 11-bit identifier
    Std(u16),
}

impl CanId {
    /// The identifier as a 32-bit number.
    pub open spec fn spec_raw(self) -> u32 {
        match self {
            CanId::Extended(id) => id,
            CanId::Std(id) => id as u32,
        }
    }

    /// Creates an extended identifier.
    pub fn extended(id: u32) -> (r: CanId)
        ensures
            r == CanId::Extended(id),
    {
        CanId::Extended(id)
    }

    /// Creates a standard identifier.
    pub fn standard(id: u16) -> (r: CanId)
        ensures
            r == CanId::Std(id),
    {
        CanId::Std(id)
    }

    /// Returns the identifier as a 32-bit number.
    pub fn raw(&self) -> (r: u32)
        ensures
            r == self.spec_raw(),
    {
        match self {
            CanId::Extended(id) => *id,
            CanId::Std(id) => *id as u32,
        }
    }

    /// Returns true for an extended identifier.
    pub fn is_extended(&self) -> (b: bool)
        ensures
            b == (*self is Extended),
    {
        match self {
            CanId::Extended(_) => true,
            CanId::Std(_) => false,
        }
    }
}

/// The largest payload of a classic CAN frame.
pub const MAX_DATA_LENGTH: usize = 8;

/// Eight zero bytes.
pub open spec fn zeros(n: nat) -> Seq<u8> {
    Seq::new(n, |i: int| 0u8)
}

/// A CAN frame.
#[derive(Clone, Copy, Debug, PartialEq, Eq)]
pub struct CanMessage {
    /// The payload buffer; only the first `dlc` bytes belong to the frame.
    pub data: [u8; 8],
    /// The length of the payload.
    pub dlc: u8,
    /// Marks a remote transmission request.
    pub rtr: bool,
    /// The identifier of the frame.
    pub id: CanId,
}

impl CanMessage {
    /// A frame whose length fits the buffer.
    pub open spec fn wf(self) -> bool {
        self.dlc <= 8
    }

    /// The payload bytes of the frame.
    pub open spec fn payload(self) -> Seq<u8> {
        self.data@.subrange(0, self.dlc as int)
    }

    /// Creates a data frame; the payload holds at most eight bytes.
    pub fn new(id: CanId, data: &[u8]) -> (m: CanMessage)
        requires
            data@.len() <= 8,
        ensures
            m.id == id,
            m.dlc == data@.len(),
            !m.rtr,
            m.data@ == data@ + zeros((8 - data@.len()) as nat),
            m.payload() == data@,
            m.wf(),
    {
        let dlc = data.len() as u8;
        let mut buf = [0u8; 8];
        let mut i: usize = 0;
        while i < data.len()
            invariant
                data@.len() <= 8,
                i <= data@.len(),
                forall|j: int| 0 <= j < i ==> buf@[j] == data@[j],
                forall|j: int| i <= j < 8 ==> buf@[j] == 0,
            decreases data@.len() - i,
        {
            buf[i] = data[i];
            i = i + 1;
        }
        let m = CanMessage { data: buf, dlc, rtr: false, id };
        assert(m.data@ =~= data@ + zeros((8 - data@.len()) as nat));
        assert(m.payload() =~= data@);
        m
    }

    /// Creates a remote transmission request, which carries no payload.
    pub fn new_rtr(id: CanId) -> (m: CanMessage)
        ensures
            m.id == id,
            m.rtr,
            m.dlc == 0,
            m.data@ == zeros(8),
    {
        let m = CanMessage { data: [0u8; 8], dlc: 0, rtr: true, id };
        assert(m.data@ =~= zeros(8));
        m
    }

    /// The identifier of the frame.
    pub fn id(&self) -> (r: CanId)
        ensures
            r == self.id,
    {
        self.id
    }

    /// The payload of the frame.
    pub fn data(&self) -> (r: &[u8])
        requires
            self.wf(),
        ensures
            r@ == self.payload(),
    {
        &self.data[0..self.dlc as usize]
    }

    /// Returns true for a remote transmission request.
    pub fn is_rtr(&self) -> (b: bool)
        ensures
            b == self.rtr,
    {
        self.rtr
    }
}

/// The error codes that a CAN controller reports in an error frame.
#[derive(Clone, Copy, Debug, PartialEq, Eq, Structural)]
pub enum CanError {
    /// The transmitter read back a different bit than it sent after arbitration
    Bit,
    /// Six consecutive bits of the same level were seen
    Stuff,
    /// A malformed frame was seen
    Form,
    /// No receiver acknowledged the frame
    Ack,
    /// The CRC of a frame did not match
    Crc,
    /// A bit pattern without a defined meaning
    Other,
}

impl CanError {
    /// The error named by an on-bus error code.
    pub open spec fn spec_from_raw(raw: u8) -> CanError {
        if raw == 1 {
            CanError::Bit
        } else if raw == 2 {
            CanError::Stuff
        } else if raw == 3 {
            CanError::Form
        } else if raw == 4 {
            CanError::Ack
        } else if raw == 5 {
            CanError::Crc
        } else {
            CanError::Other
        }
    }

    /// Creates a CanError from the on-bus error code.
    pub fn from_raw(raw: u8) -> (e: CanError)
        ensures
            e == Self::spec_from_raw(raw),
    {
        match raw {
            1 => CanError::Bit,
            2 => CanError::Stuff,
            3 => CanError::Form,
            4 => CanError::Ack,
            5 => CanError::Crc,
            _ => CanError::Other,
        }
    }
}

/// A synchronous CAN sender, implemented by the user for an interface.
pub trait CanSender {
    /// Sends a frame; on failure the frame is handed back.
    fn send(&mut self, msg: CanMessage) -> Result<(), CanMessage>;
}

/// A synchronous CAN receiver, implemented by the user for an interface.
pub trait CanReceiver {
    /// The error returned by `recv`
    type Error;

    /// Returns a pending frame, or None at once when there is none.
    fn try_recv(&mut self) -> Option<CanMessage>;

    /// Waits up to `timeout` for a frame.
    fn recv(&mut self, timeout: core::time::Duration) -> Result<CanMessage, Self::Error>;
}

/// An error of a CAN interface that still holds the frame that was not sent.
pub trait CanSendError {
    /// Gives back the frame that was not delivered.
    fn into_can_message(self) -> CanMessage;

    /// Describes the error.
    fn message(&self) -> String;
}

} // verus!
