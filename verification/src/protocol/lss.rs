//! The LSS (layer setting services) protocol, used for discovering unconfigured nodes and for
//! setting their node IDs and bit rates.
use vstd::prelude::*;
use crate::can::{CanId, CanMessage};
use crate::le_bytes::{le_u16, le_u32, u16_le, u32_le, u16_from_le, u32_from_le, u16_to_le, u32_to_le};
use super::cob_id::{lss_req_id, lss_resp_id};
use super::errors::MessageError;

verus! {

/// The values of the LSS command specifier field.
#[derive(Debug, Clone, Copy, PartialEq, Eq, Structural)]
pub enum LssCommandSpecifier {
    /// Changes the LSS mode of all nodes on the bus
    SwitchModeGlobal,
    /// Sets the node ID of the node(s) in Configuration mode
    ConfigureNodeId,
    /// Sets the bit timing of the node(s) in Configuration mode
    ConfigureBitTiming,
    /// Commands nodes to activate a new bit rate
    ActivateBitTiming,
    /// Commands nodes to store their configuration persistently
    StoreConfiguration,
    /// Sends the vendor ID to activate a node by its identity
    SwitchStateVendor,
    /// Sends the product code to activate a node by its identity
    SwitchStateProduct,
    /// Sends the revision number to activate a node by its identity
    SwitchStateRev,
    /// Sends the serial number to activate a node by its identity; sent last
    SwitchStateSerial,
    /// Response of a node that recognized its identity
    SwitchStateResponse,
    /// Response to a FastScan message
    IdentifySlave,
    /// FastScan query for discovering unconfigured nodes
    FastScan,
    /// Inquires the vendor ID of a node in Configuration mode
    InquireVendor,
    /// Inquires the product code of a node in Configuration mode
    InquireProduct,
    /// Inquires the revision number of a node in Configuration mode
    InquireRev,
    /// Inquires the serial number of a node in Configuration mode
    InquireSerial,
    /// Inquires the node ID of a node in Configuration mode
    InquireNodeId,
}

impl LssCommandSpecifier {
    /// The byte of the command specifier.
    pub open spec fn spec_raw(self) -> u8 {
        match self {
            LssCommandSpecifier::SwitchModeGlobal => 0x04,
            LssCommandSpecifier::ConfigureNodeId => 0x11,
            LssCommandSpecifier::ConfigureBitTiming => 0x13,
            LssCommandSpecifier::ActivateBitTiming => 0x15,
            LssCommandSpecifier::StoreConfiguration => 0x17,
            LssCommandSpecifier::SwitchStateVendor => 0x40,
            LssCommandSpecifier::SwitchStateProduct => 0x41,
            LssCommandSpecifier::SwitchStateRev => 0x42,
            LssCommandSpecifier::SwitchStateSerial => 0x43,
            LssCommandSpecifier::SwitchStateResponse => 0x44,
            LssCommandSpecifier::IdentifySlave => 0x4F,
            LssCommandSpecifier::FastScan => 0x51,
            LssCommandSpecifier::InquireVendor => 0x5A,
            LssCommandSpecifier::InquireProduct => 0x5B,
            LssCommandSpecifier::InquireRev => 0x5C,
            LssCommandSpecifier::InquireSerial => 0x5D,
            LssCommandSpecifier::InquireNodeId => 0x5E,
        }
    }

    /// The command specifier named by a byte.
    pub open spec fn spec_from_byte(b: u8) -> Result<LssCommandSpecifier, MessageError> {
        if b == 0x04 {
            Ok(LssCommandSpecifier::SwitchModeGlobal)
        } else if b == 0x11 {
            Ok(LssCommandSpecifier::ConfigureNodeId)
        } else if b == 0x13 {
            Ok(LssCommandSpecifier::ConfigureBitTiming)
        } else if b == 0x15 {
            Ok(LssCommandSpecifier::ActivateBitTiming)
        } else if b == 0x17 {
            Ok(LssCommandSpecifier::StoreConfiguration)
        } else if b == 0x40 {
            Ok(LssCommandSpecifier::SwitchStateVendor)
        } else if b == 0x41 {
            Ok(LssCommandSpecifier::SwitchStateProduct)
        } else if b == 0x42 {
            Ok(LssCommandSpecifier::SwitchStateRev)
        } else if b == 0x43 {
            Ok(LssCommandSpecifier::SwitchStateSerial)
        } else if b == 0x44 {
            Ok(LssCommandSpecifier::SwitchStateResponse)
        } else if b == 0x4F {
            Ok(LssCommandSpecifier::IdentifySlave)
        } else if b == 0x51 {
            Ok(LssCommandSpecifier::FastScan)
        } else if b == 0x5A {
            Ok(LssCommandSpecifier::InquireVendor)
        } else if b == 0x5B {
            Ok(LssCommandSpecifier::InquireProduct)
        } else if b == 0x5C {
            Ok(LssCommandSpecifier::InquireRev)
        } else if b == 0x5D {
            Ok(LssCommandSpecifier::InquireSerial)
        } else if b == 0x5E {
            Ok(LssCommandSpecifier::InquireNodeId)
        } else {
            Err(MessageError::UnexpectedLssCommand { value: b })
        }
    }

    /// Returns the byte of the command specifier.
    pub fn raw(&self) -> (r: u8)
        ensures
            r == self.spec_raw(),
    {
        match self {
            LssCommandSpecifier::SwitchModeGlobal => 0x04,
            LssCommandSpecifier::ConfigureNodeId => 0x11,
            LssCommandSpecifier::ConfigureBitTiming => 0x13,
            LssCommandSpecifier::ActivateBitTiming => 0x15,
            LssCommandSpecifier::StoreConfiguration => 0x17,
            LssCommandSpecifier::SwitchStateVendor => 0x40,
            LssCommandSpecifier::SwitchStateProduct => 0x41,
            LssCommandSpecifier::SwitchStateRev => 0x42,
            LssCommandSpecifier::SwitchStateSerial => 0x43,
            LssCommandSpecifier::SwitchStateResponse => 0x44,
            LssCommandSpecifier::IdentifySlave => 0x4F,
            LssCommandSpecifier::FastScan => 0x51,
            LssCommandSpecifier::InquireVendor => 0x5A,
            LssCommandSpecifier::InquireProduct => 0x5B,
            LssCommandSpecifier::InquireRev => 0x5C,
            LssCommandSpecifier::InquireSerial => 0x5D,
            LssCommandSpecifier::InquireNodeId => 0x5E,
        }
    }

    /// Creates a command specifier from its byte.
    pub fn from_byte(b: u8) -> (r: Result<LssCommandSpecifier, MessageError>)
        ensures
            r == Self::spec_from_byte(b),
    {
        match b {
            0x04 => Ok(LssCommandSpecifier::SwitchModeGlobal),
            0x11 => Ok(LssCommandSpecifier::ConfigureNodeId),
            0x13 => Ok(LssCommandSpecifier::ConfigureBitTiming),
            0x15 => Ok(LssCommandSpecifier::ActivateBitTiming),
            0x17 => Ok(LssCommandSpecifier::StoreConfiguration),
            0x40 => Ok(LssCommandSpecifier::SwitchStateVendor),
            0x41 => Ok(LssCommandSpecifier::SwitchStateProduct),
            0x42 => Ok(LssCommandSpecifier::SwitchStateRev),
            0x43 => Ok(LssCommandSpecifier::SwitchStateSerial),
            0x44 => Ok(LssCommandSpecifier::SwitchStateResponse),
            0x4F => Ok(LssCommandSpecifier::IdentifySlave),
            0x51 => Ok(LssCommandSpecifier::FastScan),
            0x5A => Ok(LssCommandSpecifier::InquireVendor),
            0x5B => Ok(LssCommandSpecifier::InquireProduct),
            0x5C => Ok(LssCommandSpecifier::InquireRev),
            0x5D => Ok(LssCommandSpecifier::InquireSerial),
            0x5E => Ok(LssCommandSpecifier::InquireNodeId),
            _ => Err(MessageError::UnexpectedLssCommand { value: b }),
        }
    }
}

/// The error field answered to a ConfigureNodeId command.
#[derive(Debug, Clone, Copy, PartialEq, Eq, Structural)]
pub enum LssConfigureError {
    /// Success
    Success,
    /// The node ID is outside 1 to 127
    NodeIdOutOfRange,
    /// A manufacturer specific error is held in the `spec_error` field
    Manufacturer,
}

impl LssConfigureError {
    /// The byte of the error field.
    pub fn raw(&self) -> (r: u8)
        ensures
            r == (match self {
                LssConfigureError::Success => 0u8,
                LssConfigureError::NodeIdOutOfRange => 1u8,
                LssConfigureError::Manufacturer => 0xffu8,
            }),
    {
        match self {
            LssConfigureError::Success => 0,
            LssConfigureError::NodeIdOutOfRange => 1,
            LssConfigureError::Manufacturer => 0xff,
        }
    }
}

/// The special value of the FastScan bit_check field.
pub const LSS_FASTSCAN_CONFIRM: u8 = 0x80;

/// An LSS request sent by the master.
#[derive(Debug, Clone, Copy, PartialEq, Eq, Structural)]
pub enum LssRequest {
    /// Switch the mode of all LSS slaves
    SwitchModeGlobal {
        /// The mode: 0 for Waiting, 1 for Configuring
        mode: u8,
    },
    /// Set the node ID of the node in Configuring state
    ConfigureNodeId {
        /// The new node ID
        node_id: u8,
    },
    /// Set the bit timing of the node in Configuring state
    ConfigureBitTiming {
        /// The baud rate table (0 is the default table)
        table: u8,
        /// The index into the table
        index: u8,
    },
    /// Command a new bit rate to be activated
    ActivateBitTiming {
        /// Delay in ms before the new bit rate is activated
        delay: u16,
    },
    /// Send the vendor ID to activate by identity
    SwitchStateVendor {
        /// The vendor ID to match
        vendor_id: u32,
    },
    /// Send the product code to activate by identity
    SwitchStateProduct {
        /// The product code to match
        product_code: u32,
    },
    /// Send the revision number to activate by identity
    SwitchStateRevision {
        /// The revision number to match
        revision: u32,
    },
    /// Send the serial number to activate by identity; sent last
    SwitchStateSerial {
        /// The serial number to match
        serial: u32,
    },
    /// Request the vendor ID from a node in Configuring state
    InquireVendor,
    /// Request the product code from a node in Configuring state
    InquireProduct,
    /// Request the revision from a node in Configuring state
    InquireRev,
    /// Request the serial number from a node in Configuring state
    InquireSerial,
    /// Request the node ID from a node in Configuring state
    InquireNodeId,
    /// A FastScan query
    FastScan {
        /// The ID field
        id: u32,
        /// The bit_check field
        bit_check: u8,
        /// The part of the identity to check (0 vendor, 1 product, 2 revision, 3 serial)
        sub: u8,
        /// The part of the identity to check on the next query
        next: u8,
    },
}

impl LssRequest {
    /// The eight payload bytes of a request.
    pub open spec fn spec_data(self) -> [u8; 8] {
        match self {
            LssRequest::SwitchModeGlobal { mode } => [0x04u8, mode, 0, 0, 0, 0, 0, 0],
            LssRequest::ConfigureNodeId { node_id } => [0x11u8, node_id, 0, 0, 0, 0, 0, 0],
            LssRequest::ConfigureBitTiming { table, index } => [0x13u8, table, index, 0, 0, 0, 0, 0],
            LssRequest::ActivateBitTiming { delay } => [0x15u8, u16_le(delay)[0], u16_le(delay)[1], 0, 0, 0, 0, 0],
            LssRequest::SwitchStateVendor { vendor_id } => {
                let b = u32_le(vendor_id);
                [0x40u8, b[0], b[1], b[2], b[3], 0, 0, 0]
            },
            LssRequest::SwitchStateProduct { product_code } => {
                let b = u32_le(product_code);
                [0x41u8, b[0], b[1], b[2], b[3], 0, 0, 0]
            },
            LssRequest::SwitchStateRevision { revision } => {
                let b = u32_le(revision);
                [0x42u8, b[0], b[1], b[2], b[3], 0, 0, 0]
            },
            LssRequest::SwitchStateSerial { serial } => {
                let b = u32_le(serial);
                [0x43u8, b[0], b[1], b[2], b[3], 0, 0, 0]
            },
            LssRequest::InquireVendor => [0x5Au8, 0, 0, 0, 0, 0, 0, 0],
            LssRequest::InquireProduct => [0x5Bu8, 0, 0, 0, 0, 0, 0, 0],
            LssRequest::InquireRev => [0x5Cu8, 0, 0, 0, 0, 0, 0, 0],
            LssRequest::InquireSerial => [0x5Du8, 0, 0, 0, 0, 0, 0, 0],
            LssRequest::InquireNodeId => [0x5Eu8, 0, 0, 0, 0, 0, 0, 0],
            LssRequest::FastScan { id, bit_check, sub, next } => {
                let b = u32_le(id);
                [0x51u8, b[0], b[1], b[2], b[3], bit_check, sub, next]
            },
        }
    }

    /// The payload bytes as a sequence.
    pub open spec fn spec_bytes(self) -> Seq<u8> {
        self.spec_data()@
    }

    /// The frame of a request: its eight payload bytes on the LSS request COB ID.
    pub open spec fn spec_to_message(self) -> CanMessage {
        CanMessage { data: self.spec_data(), dlc: 8, rtr: false, id: CanId::Std(0x7E5) }
    }

    /// The inputs on which decoding stops on the unimplemented StoreConfiguration command.
    pub open spec fn decodable(v: Seq<u8>) -> bool {
        !(v.len() >= 1 && v[0] == 0x17)
    }

    /// The request encoded in a payload.
    pub open spec fn spec_try_from(v: Seq<u8>) -> Result<LssRequest, MessageError> {
        if v.len() == 0 {
            Err(MessageError::MessageTooShort)
        } else {
            match LssCommandSpecifier::spec_from_byte(v[0]) {
                Err(e) => Err(e),
                Ok(cs) => match cs {
                    LssCommandSpecifier::SwitchModeGlobal => if v.len() < 2 {
                        Err(MessageError::MessageTooShort)
                    } else {
                        Ok(LssRequest::SwitchModeGlobal { mode: v[1] })
                    },
                    LssCommandSpecifier::ConfigureNodeId => if v.len() < 2 {
                        Err(MessageError::MessageTooShort)
                    } else {
                        Ok(LssRequest::ConfigureNodeId { node_id: v[1] })
                    },
                    LssCommandSpecifier::ConfigureBitTiming => if v.len() < 3 {
                        Err(MessageError::MessageTooShort)
                    } else {
                        Ok(LssRequest::ConfigureBitTiming { table: v[1], index: v[2] })
                    },
                    LssCommandSpecifier::ActivateBitTiming => if v.len() < 3 {
                        Err(MessageError::MessageTooShort)
                    } else {
                        Ok(LssRequest::ActivateBitTiming { delay: le_u16(v[1], v[2]) })
                    },
                    LssCommandSpecifier::SwitchStateVendor => if v.len() < 5 {
                        Err(MessageError::MessageTooShort)
                    } else {
                        Ok(LssRequest::SwitchStateVendor { vendor_id: le_u32(v[1], v[2], v[3], v[4]) })
                    },
                    LssCommandSpecifier::SwitchStateProduct => if v.len() < 5 {
                        Err(MessageError::MessageTooShort)
                    } else {
                        Ok(LssRequest::SwitchStateProduct { product_code: le_u32(v[1], v[2], v[3], v[4]) })
                    },
                    LssCommandSpecifier::SwitchStateRev => if v.len() < 5 {
                        Err(MessageError::MessageTooShort)
                    } else {
                        Ok(LssRequest::SwitchStateRevision { revision: le_u32(v[1], v[2], v[3], v[4]) })
                    },
                    LssCommandSpecifier::SwitchStateSerial => if v.len() < 5 {
                        Err(MessageError::MessageTooShort)
                    } else {
                        Ok(LssRequest::SwitchStateSerial { serial: le_u32(v[1], v[2], v[3], v[4]) })
                    },
                    LssCommandSpecifier::SwitchStateResponse => if v.len() < 5 {
                        Err(MessageError::MessageTooShort)
                    } else {
                        Ok(LssRequest::SwitchStateVendor { vendor_id: le_u32(v[1], v[2], v[3], v[4]) })
                    },
                    LssCommandSpecifier::IdentifySlave => Err(MessageError::UnexpectedLssCommand { value: v[0] }),
                    LssCommandSpecifier::FastScan => if v.len() < 8 {
                        Err(MessageError::MessageTooShort)
                    } else {
                        Ok(LssRequest::FastScan {
                            id: le_u32(v[1], v[2], v[3], v[4]),
                            bit_check: v[5],
                            sub: v[6],
                            next: v[7],
                        })
                    },
                    LssCommandSpecifier::InquireVendor => Ok(LssRequest::InquireVendor),
                    LssCommandSpecifier::InquireProduct => Ok(LssRequest::InquireProduct),
                    LssCommandSpecifier::InquireRev => Ok(LssRequest::InquireRev),
                    LssCommandSpecifier::InquireSerial => Ok(LssRequest::InquireSerial),
                    LssCommandSpecifier::InquireNodeId => Ok(LssRequest::InquireNodeId),
                    LssCommandSpecifier::StoreConfiguration => Err(MessageError::InvalidField),
                },
            }
        }
    }
}

impl LssRequest {
    /// Reads a request out of a payload.
    pub fn try_from(value: &[u8]) -> (r: Result<LssRequest, MessageError>)
        requires
            Self::decodable(value@),
        ensures
            r == Self::spec_try_from(value@),
    {
        if value.len() == 0 {
            return Err(MessageError::MessageTooShort);
        }
        let cs = LssCommandSpecifier::from_byte(value[0])?;
        let len = value.len();
        match cs {
            LssCommandSpecifier::SwitchModeGlobal => {
                if len < 2 {
                    return Err(MessageError::MessageTooShort);
                }
                Ok(LssRequest::SwitchModeGlobal { mode: value[1] })
            },
            LssCommandSpecifier::ConfigureNodeId => {
                if len < 2 {
                    return Err(MessageError::MessageTooShort);
                }
                Ok(LssRequest::ConfigureNodeId { node_id: value[1] })
            },
            LssCommandSpecifier::ConfigureBitTiming => {
                if len < 3 {
                    return Err(MessageError::MessageTooShort);
                }
                Ok(LssRequest::ConfigureBitTiming { table: value[1], index: value[2] })
            },
            LssCommandSpecifier::ActivateBitTiming => {
                if len < 3 {
                    return Err(MessageError::MessageTooShort);
                }
                Ok(LssRequest::ActivateBitTiming { delay: u16_from_le(value[1], value[2]) })
            },
            LssCommandSpecifier::SwitchStateVendor => {
                if len < 5 {
                    return Err(MessageError::MessageTooShort);
                }
                Ok(LssRequest::SwitchStateVendor { vendor_id: u32_from_le(value[1], value[2], value[3], value[4]) })
            },
            LssCommandSpecifier::SwitchStateProduct => {
                if len < 5 {
                    return Err(MessageError::MessageTooShort);
                }
                Ok(LssRequest::SwitchStateProduct { product_code: u32_from_le(value[1], value[2], value[3], value[4]) })
            },
            LssCommandSpecifier::SwitchStateRev => {
                if len < 5 {
                    return Err(MessageError::MessageTooShort);
                }
                Ok(LssRequest::SwitchStateRevision { revision: u32_from_le(value[1], value[2], value[3], value[4]) })
            },
            LssCommandSpecifier::SwitchStateSerial => {
                if len < 5 {
                    return Err(MessageError::MessageTooShort);
                }
                Ok(LssRequest::SwitchStateSerial { serial: u32_from_le(value[1], value[2], value[3], value[4]) })
            },
            LssCommandSpecifier::SwitchStateResponse => {
                if len < 5 {
                    return Err(MessageError::MessageTooShort);
                }
                Ok(LssRequest::SwitchStateVendor { vendor_id: u32_from_le(value[1], value[2], value[3], value[4]) })
            },
            LssCommandSpecifier::IdentifySlave => Err(MessageError::UnexpectedLssCommand { value: value[0] }),
            LssCommandSpecifier::FastScan => {
                if len < 8 {
                    return Err(MessageError::MessageTooShort);
                }
                Ok(LssRequest::FastScan {
                    id: u32_from_le(value[1], value[2], value[3], value[4]),
                    bit_check: value[5],
                    sub: value[6],
                    next: value[7],
                })
            },
            LssCommandSpecifier::InquireVendor => Ok(LssRequest::InquireVendor),
            LssCommandSpecifier::InquireProduct => Ok(LssRequest::InquireProduct),
            LssCommandSpecifier::InquireRev => Ok(LssRequest::InquireRev),
            LssCommandSpecifier::InquireSerial => Ok(LssRequest::InquireSerial),
            LssCommandSpecifier::InquireNodeId => Ok(LssRequest::InquireNodeId),
            LssCommandSpecifier::StoreConfiguration => Err(MessageError::InvalidField),
        }
    }

    /// Returns the eight payload bytes of the request.
    pub fn to_bytes(&self) -> (r: [u8; 8])
        ensures
            r@ == self.spec_bytes(),
    {
        let r = match *self {
            LssRequest::SwitchModeGlobal { mode } => [0x04u8, mode, 0, 0, 0, 0, 0, 0],
            LssRequest::ConfigureNodeId { node_id } => [0x11u8, node_id, 0, 0, 0, 0, 0, 0],
            LssRequest::ConfigureBitTiming { table, index } => [0x13u8, table, index, 0, 0, 0, 0, 0],
            LssRequest::ActivateBitTiming { delay } => {
                let d = u16_to_le(delay);
                [0x15u8, d[0], d[1], 0, 0, 0, 0, 0]
            },
            LssRequest::SwitchStateVendor { vendor_id } => {
                let b = u32_to_le(vendor_id);
                [0x40u8, b[0], b[1], b[2], b[3], 0, 0, 0]
            },
            LssRequest::SwitchStateProduct { product_code } => {
                let b = u32_to_le(product_code);
                [0x41u8, b[0], b[1], b[2], b[3], 0, 0, 0]
            },
            LssRequest::SwitchStateRevision { revision } => {
                let b = u32_to_le(revision);
                [0x42u8, b[0], b[1], b[2], b[3], 0, 0, 0]
            },
            LssRequest::SwitchStateSerial { serial } => {
                let b = u32_to_le(serial);
                [0x43u8, b[0], b[1], b[2], b[3], 0, 0, 0]
            },
            LssRequest::InquireVendor => [0x5Au8, 0, 0, 0, 0, 0, 0, 0],
            LssRequest::InquireProduct => [0x5Bu8, 0, 0, 0, 0, 0, 0, 0],
            LssRequest::InquireRev => [0x5Cu8, 0, 0, 0, 0, 0, 0, 0],
            LssRequest::InquireSerial => [0x5Du8, 0, 0, 0, 0, 0, 0, 0],
            LssRequest::InquireNodeId => [0x5Eu8, 0, 0, 0, 0, 0, 0, 0],
            LssRequest::FastScan { id, bit_check, sub, next } => {
                let b = u32_to_le(id);
                [0x51u8, b[0], b[1], b[2], b[3], bit_check, sub, next]
            },
        };
        assert(r@ =~= self.spec_bytes());
        r
    }

}

impl From<LssRequest> for CanMessage {
    fn from(value: LssRequest) -> (m: CanMessage) {
        let data = value.to_bytes();
        assert(data =~= value.spec_data()) by {
            broadcast use vstd::array::group_array_axioms;
            assert(data@ =~= value.spec_data()@);
        }
        CanMessage { data, dlc: 8, rtr: false, id: lss_req_id() }
    }
}

impl vstd::std_specs::convert::FromSpecImpl<LssRequest> for CanMessage {
    open spec fn obeys_from_spec() -> bool {
        true
    }

    open spec fn from_spec(value: LssRequest) -> CanMessage {
        value.spec_to_message()
    }
}

/// The value of four bytes, the first the lowest.
pub open spec fn little_endian4(b0: u8, b1: u8, b2: u8, b3: u8) -> int {
    b0 + 256 * b1 + 65536 * b2 + 16777216 * b3
}

/// Where each field of an LSS request stands in its eight bytes (CiA 305): the command
/// specifier in byte 0; one-byte fields from byte 1 on; the 16-bit delay in bytes 1 and 2 and
/// the 32-bit identity values and the FastScan ID in bytes 1 to 4, lowest byte first; the
/// FastScan bit check, sub and next in bytes 5, 6 and 7; unused bytes 0.
pub open spec fn lss_request_layout(r: LssRequest, b: Seq<u8>) -> bool {
    &&& b.len() == 8
    &&& match r {
        LssRequest::SwitchModeGlobal { mode } => b[0] == 0x04 && b[1] == mode && b.subrange(2, 8) == seq![0u8; 6],
        LssRequest::ConfigureNodeId { node_id } => b[0] == 0x11 && b[1] == node_id && b.subrange(2, 8) == seq![0u8; 6],
        LssRequest::ConfigureBitTiming { table, index } => b[0] == 0x13 && b[1] == table && b[2] == index
            && b.subrange(3, 8) == seq![0u8; 5],
        LssRequest::ActivateBitTiming { delay } => b[0] == 0x15 && b[1] + 256 * b[2] == delay && b.subrange(3, 8)
            == seq![0u8; 5],
        LssRequest::SwitchStateVendor { vendor_id } => b[0] == 0x40 && little_endian4(b[1], b[2], b[3], b[4])
            == vendor_id && b.subrange(5, 8) == seq![0u8; 3],
        LssRequest::SwitchStateProduct { product_code } => b[0] == 0x41 && little_endian4(b[1], b[2], b[3], b[4])
            == product_code && b.subrange(5, 8) == seq![0u8; 3],
        LssRequest::SwitchStateRevision { revision } => b[0] == 0x42 && little_endian4(b[1], b[2], b[3], b[4])
            == revision && b.subrange(5, 8) == seq![0u8; 3],
        LssRequest::SwitchStateSerial { serial } => b[0] == 0x43 && little_endian4(b[1], b[2], b[3], b[4]) == serial
            && b.subrange(5, 8) == seq![0u8; 3],
        LssRequest::InquireVendor => b[0] == 0x5A && b.subrange(1, 8) == seq![0u8; 7],
        LssRequest::InquireProduct => b[0] == 0x5B && b.subrange(1, 8) == seq![0u8; 7],
        LssRequest::InquireRev => b[0] == 0x5C && b.subrange(1, 8) == seq![0u8; 7],
        LssRequest::InquireSerial => b[0] == 0x5D && b.subrange(1, 8) == seq![0u8; 7],
        LssRequest::InquireNodeId => b[0] == 0x5E && b.subrange(1, 8) == seq![0u8; 7],
        LssRequest::FastScan { id, bit_check, sub, next } => b[0] == 0x51 && little_endian4(b[1], b[2], b[3], b[4])
            == id && b[5] == bit_check && b[6] == sub && b[7] == next,
    }
}

/// The four little-endian bytes of a 32-bit value add up to it.
proof fn lemma_u32_le_value(x: u32)
    ensures
        little_endian4(u32_le(x)[0], u32_le(x)[1], u32_le(x)[2], u32_le(x)[3]) == x,
{
    crate::le_bytes::lemma_u32_le_roundtrip(x);
}

/// Every LSS request is encoded with its fields at their places in the frame.
#[verifier::rlimit(30)]
pub proof fn lemma_lss_request_layout(r: LssRequest)
    ensures
        lss_request_layout(r, r.spec_bytes()),
{
    let b = r.spec_bytes();
    match r {
        LssRequest::SwitchModeGlobal { .. } => {
            assert(b.subrange(2, 8) =~= seq![0u8; 6]);
        },
        LssRequest::ConfigureNodeId { .. } => {
            assert(b.subrange(2, 8) =~= seq![0u8; 6]);
        },
        LssRequest::ConfigureBitTiming { .. } => {
            assert(b.subrange(3, 8) =~= seq![0u8; 5]);
        },
        LssRequest::ActivateBitTiming { delay } => {
            crate::le_bytes::lemma_u16_le_roundtrip(delay);
            assert(b.subrange(3, 8) =~= seq![0u8; 5]);
        },
        LssRequest::SwitchStateVendor { vendor_id } => {
            lemma_u32_le_value(vendor_id);
            assert(b.subrange(5, 8) =~= seq![0u8; 3]);
        },
        LssRequest::SwitchStateProduct { product_code } => {
            lemma_u32_le_value(product_code);
            assert(b.subrange(5, 8) =~= seq![0u8; 3]);
        },
        LssRequest::SwitchStateRevision { revision } => {
            lemma_u32_le_value(revision);
            assert(b.subrange(5, 8) =~= seq![0u8; 3]);
        },
        LssRequest::SwitchStateSerial { serial } => {
            lemma_u32_le_value(serial);
            assert(b.subrange(5, 8) =~= seq![0u8; 3]);
        },
        LssRequest::FastScan { id, .. } => {
            lemma_u32_le_value(id);
        },
        _ => {
            assert(b.subrange(1, 8) =~= seq![0u8; 7]);
        },
    }
}

/// Any eight bytes that start with the FastScan command read as a FastScan query with the ID in
/// bytes 1 to 4 (lowest first) and the bit check, sub and next in bytes 5, 6 and 7.
pub proof fn lemma_fast_scan_decodes(v: Seq<u8>)
    requires
        v.len() == 8,
        v[0] == 0x51,
    ensures
        LssRequest::spec_try_from(v) matches Ok(LssRequest::FastScan { id, bit_check, sub, next }) && id
            == little_endian4(v[1], v[2], v[3], v[4]) && bit_check == v[5] && sub == v[6] && next == v[7],
{
}

/// Decoding the payload of any LSS request gives the request back.
pub proof fn lemma_lss_request_roundtrip(r: LssRequest)
    ensures
        LssRequest::decodable(r.spec_bytes()),
        LssRequest::spec_try_from(r.spec_bytes()) == Ok::<LssRequest, MessageError>(r),
{
    let v = r.spec_bytes();
    assert(v.len() == 8);
    match r {
        LssRequest::ActivateBitTiming { delay } => {
            crate::le_bytes::lemma_u16_le_roundtrip(delay);
        },
        LssRequest::SwitchStateVendor { vendor_id } => {
            crate::le_bytes::lemma_u32_le_roundtrip(vendor_id);
        },
        LssRequest::SwitchStateProduct { product_code } => {
            crate::le_bytes::lemma_u32_le_roundtrip(product_code);
        },
        LssRequest::SwitchStateRevision { revision } => {
            crate::le_bytes::lemma_u32_le_roundtrip(revision);
        },
        LssRequest::SwitchStateSerial { serial } => {
            crate::le_bytes::lemma_u32_le_roundtrip(serial);
        },
        LssRequest::FastScan { id, .. } => {
            crate::le_bytes::lemma_u32_le_roundtrip(id);
        },
        _ => {},
    }
}

/// An LSS response sent by a slave.
#[derive(Debug, Clone, Copy, PartialEq, Eq, Structural)]
pub enum LssResponse {
    /// Sent when a slave's identity matches a FastScan request
    IdentifySlave,
    /// Sent in answer to SwitchStateSerial by a slave that recognizes its identity
    SwitchStateResponse,
    /// Answer to ConfigureNodeId
    ConfigureNodeIdAck {
        /// The error code
        error: u8,
        /// The manufacturer specific error code, meaningful when error is 255
        spec_error: u8,
    },
    /// Answer to ConfigureBitTiming
    ConfigureBitTimingAck {
        /// The error code
        error: u8,
        /// The manufacturer specific error code, meaningful when error is 255
        spec_error: u8,
    },
    /// Answer to InquireVendor
    InquireVendorAck {
        /// The vendor ID of the node
        vendor_id: u32,
    },
    /// Answer to InquireProduct
    InquireProductAck {
        /// The product code of the node
        product_code: u32,
    },
    /// Answer to InquireRev
    InquireRevAck {
        /// The revision number of the node
        revision: u32,
    },
    /// Answer to InquireSerial
    InquireSerialAck {
        /// The serial number of the node
        serial_number: u32,
    },
    /// Answer to InquireNodeId
    InquireNodeIdAck {
        /// The node ID of the node
        node_id: u8,
    },
}

impl LssResponse {
    /// The eight payload bytes of a response.
    pub open spec fn spec_data(self) -> [u8; 8] {
        match self {
            LssResponse::IdentifySlave => [0x4Fu8, 0, 0, 0, 0, 0, 0, 0],
            LssResponse::SwitchStateResponse => [0x44u8, 0, 0, 0, 0, 0, 0, 0],
            LssResponse::ConfigureNodeIdAck { error, spec_error } => [0x11u8, error, spec_error, 0, 0, 0, 0, 0],
            LssResponse::ConfigureBitTimingAck { error, spec_error } => [0x13u8, error, spec_error, 0, 0, 0, 0, 0],
            LssResponse::InquireVendorAck { vendor_id } => {
                let b = u32_le(vendor_id);
                [0x5Au8, b[0], b[1], b[2], b[3], 0, 0, 0]
            },
            LssResponse::InquireProductAck { product_code } => {
                let b = u32_le(product_code);
                [0x5Bu8, b[0], b[1], b[2], b[3], 0, 0, 0]
            },
            LssResponse::InquireRevAck { revision } => {
                let b = u32_le(revision);
                [0x5Cu8, b[0], b[1], b[2], b[3], 0, 0, 0]
            },
            LssResponse::InquireSerialAck { serial_number } => {
                let b = u32_le(serial_number);
                [0x5Du8, b[0], b[1], b[2], b[3], 0, 0, 0]
            },
            LssResponse::InquireNodeIdAck { node_id } => [0x5Eu8, node_id, 0, 0, 0, 0, 0, 0],
        }
    }

    /// The response encoded in a payload.
    pub open spec fn spec_try_from_bytes(v: Seq<u8>) -> Result<LssResponse, MessageError> {
        if v.len() == 0 {
            Err(MessageError::MessageTooShort)
        } else {
            match LssCommandSpecifier::spec_from_byte(v[0]) {
                Err(e) => Err(e),
                Ok(cs) => match cs {
                    LssCommandSpecifier::IdentifySlave => Ok(LssResponse::IdentifySlave),
                    LssCommandSpecifier::SwitchStateResponse => Ok(LssResponse::SwitchStateResponse),
                    LssCommandSpecifier::ConfigureNodeId => if v.len() < 3 {
                        Err(MessageError::MessageTooShort)
                    } else {
                        Ok(LssResponse::ConfigureNodeIdAck { error: v[1], spec_error: v[2] })
                    },
                    LssCommandSpecifier::ConfigureBitTiming => if v.len() < 3 {
                        Err(MessageError::MessageTooShort)
                    } else {
                        Ok(LssResponse::ConfigureBitTimingAck { error: v[1], spec_error: v[2] })
                    },
                    LssCommandSpecifier::InquireVendor => if v.len() < 5 {
                        Err(MessageError::MessageTooShort)
                    } else {
                        Ok(LssResponse::InquireVendorAck { vendor_id: le_u32(v[1], v[2], v[3], v[4]) })
                    },
                    LssCommandSpecifier::InquireProduct => if v.len() < 5 {
                        Err(MessageError::MessageTooShort)
                    } else {
                        Ok(LssResponse::InquireProductAck { product_code: le_u32(v[1], v[2], v[3], v[4]) })
                    },
                    LssCommandSpecifier::InquireRev => if v.len() < 5 {
                        Err(MessageError::MessageTooShort)
                    } else {
                        Ok(LssResponse::InquireRevAck { revision: le_u32(v[1], v[2], v[3], v[4]) })
                    },
                    LssCommandSpecifier::InquireSerial => if v.len() < 5 {
                        Err(MessageError::MessageTooShort)
                    } else {
                        Ok(LssResponse::InquireSerialAck { serial_number: le_u32(v[1], v[2], v[3], v[4]) })
                    },
                    LssCommandSpecifier::InquireNodeId => if v.len() < 2 {
                        Err(MessageError::MessageTooShort)
                    } else {
                        Ok(LssResponse::InquireNodeIdAck { node_id: v[1] })
                    },
                    _ => Err(MessageError::UnexpectedLssCommand { value: v[0] }),
                },
            }
        }
    }

    /// The response carried by a frame on the LSS response COB ID (all eight data bytes are
    /// read).
    pub open spec fn spec_try_from_message(msg: CanMessage) -> Result<LssResponse, MessageError> {
        if msg.id != CanId::Std(0x7E4) {
            Err(MessageError::UnexpectedId { cob_id: msg.id, expected: CanId::Std(0x7E4) })
        } else {
            Self::spec_try_from_bytes(msg.data@)
        }
    }

    /// Reads a response out of a payload.
    pub fn try_from_bytes(value: &[u8]) -> (r: Result<LssResponse, MessageError>)
        ensures
            r == Self::spec_try_from_bytes(value@),
    {
        if value.len() == 0 {
            return Err(MessageError::MessageTooShort);
        }
        let cs = LssCommandSpecifier::from_byte(value[0])?;
        let len = value.len();
        match cs {
            LssCommandSpecifier::IdentifySlave => Ok(LssResponse::IdentifySlave),
            LssCommandSpecifier::SwitchStateResponse => Ok(LssResponse::SwitchStateResponse),
            LssCommandSpecifier::ConfigureNodeId => {
                if len < 3 {
                    return Err(MessageError::MessageTooShort);
                }
                Ok(LssResponse::ConfigureNodeIdAck { error: value[1], spec_error: value[2] })
            },
            LssCommandSpecifier::ConfigureBitTiming => {
                if len < 3 {
                    return Err(MessageError::MessageTooShort);
                }
                Ok(LssResponse::ConfigureBitTimingAck { error: value[1], spec_error: value[2] })
            },
            LssCommandSpecifier::InquireVendor => {
                if len < 5 {
                    return Err(MessageError::MessageTooShort);
                }
                Ok(LssResponse::InquireVendorAck { vendor_id: u32_from_le(value[1], value[2], value[3], value[4]) })
            },
            LssCommandSpecifier::InquireProduct => {
                if len < 5 {
                    return Err(MessageError::MessageTooShort);
                }
                Ok(LssResponse::InquireProductAck { product_code: u32_from_le(value[1], value[2], value[3], value[4]) })
            },
            LssCommandSpecifier::InquireRev => {
                if len < 5 {
                    return Err(MessageError::MessageTooShort);
                }
                Ok(LssResponse::InquireRevAck { revision: u32_from_le(value[1], value[2], value[3], value[4]) })
            },
            LssCommandSpecifier::InquireSerial => {
                if len < 5 {
                    return Err(MessageError::MessageTooShort);
                }
                Ok(LssResponse::InquireSerialAck { serial_number: u32_from_le(value[1], value[2], value[3], value[4]) })
            },
            LssCommandSpecifier::InquireNodeId => {
                if len < 2 {
                    return Err(MessageError::MessageTooShort);
                }
                Ok(LssResponse::InquireNodeIdAck { node_id: value[1] })
            },
            _ => Err(MessageError::UnexpectedLssCommand { value: value[0] }),
        }
    }

    /// Reads a response out of a frame, which must carry the LSS response COB ID.
    pub fn try_from(value: CanMessage) -> (r: Result<LssResponse, MessageError>)
        ensures
            r == Self::spec_try_from_message(value),
    {
        if value.id != lss_resp_id() {
            return Err(MessageError::UnexpectedId { cob_id: value.id, expected: lss_resp_id() });
        }
        let data = value.data;
        Self::try_from_bytes(&data)
    }

    /// Converts the response into an eight byte frame with the given COB ID.
    pub fn to_can_message(&self, id: CanId) -> (m: CanMessage)
        ensures
            m == (CanMessage { data: self.spec_data(), dlc: 8, rtr: false, id }),
    {
        let data = match *self {
            LssResponse::IdentifySlave => [0x4Fu8, 0, 0, 0, 0, 0, 0, 0],
            LssResponse::SwitchStateResponse => [0x44u8, 0, 0, 0, 0, 0, 0, 0],
            LssResponse::ConfigureNodeIdAck { error, spec_error } => [0x11u8, error, spec_error, 0, 0, 0, 0, 0],
            LssResponse::ConfigureBitTimingAck { error, spec_error } => [0x13u8, error, spec_error, 0, 0, 0, 0, 0],
            LssResponse::InquireVendorAck { vendor_id } => {
                let b = u32_to_le(vendor_id);
                [0x5Au8, b[0], b[1], b[2], b[3], 0, 0, 0]
            },
            LssResponse::InquireProductAck { product_code } => {
                let b = u32_to_le(product_code);
                [0x5Bu8, b[0], b[1], b[2], b[3], 0, 0, 0]
            },
            LssResponse::InquireRevAck { revision } => {
                let b = u32_to_le(revision);
                [0x5Cu8, b[0], b[1], b[2], b[3], 0, 0, 0]
            },
            LssResponse::InquireSerialAck { serial_number } => {
                let b = u32_to_le(serial_number);
                [0x5Du8, b[0], b[1], b[2], b[3], 0, 0, 0]
            },
            LssResponse::InquireNodeIdAck { node_id } => [0x5Eu8, node_id, 0, 0, 0, 0, 0, 0],
        };
        assert(data =~= self.spec_data()) by {
            broadcast use vstd::array::group_array_axioms;
            assert(data@ =~= self.spec_data()@);
        }
        CanMessage { data, dlc: 8, rtr: false, id }
    }
}

/// A response sent on the LSS response COB ID is read back as the same response.
pub proof fn lemma_lss_response_roundtrip(r: LssResponse)
    ensures
        LssResponse::spec_try_from_message(
            CanMessage { data: r.spec_data(), dlc: 8, rtr: false, id: CanId::Std(0x7E4) },
        ) == Ok::<LssResponse, MessageError>(r),
{
    match r {
        LssResponse::InquireVendorAck { vendor_id } => {
            crate::le_bytes::lemma_u32_le_roundtrip(vendor_id);
        },
        LssResponse::InquireProductAck { product_code } => {
            crate::le_bytes::lemma_u32_le_roundtrip(product_code);
        },
        LssResponse::InquireRevAck { revision } => {
            crate::le_bytes::lemma_u32_le_roundtrip(revision);
        },
        LssResponse::InquireSerialAck { serial_number } => {
            crate::le_bytes::lemma_u32_le_roundtrip(serial_number);
        },
        _ => {},
    }
}

/// The LSS states of a node.
#[derive(Debug, Clone, Copy, PartialEq, Eq, Structural)]
pub enum LssState {
    /// The default state of a node
    Waiting,
    /// The state of an activated node, ready to be configured or queried
    Configuring,
}

impl LssState {
    /// The mode byte of the state.
    pub open spec fn spec_raw(self) -> u8 {
        match self {
            LssState::Waiting => 0,
            LssState::Configuring => 1,
        }
    }

    /// Returns the mode byte of the state.
    pub fn raw(&self) -> (r: u8)
        ensures
            r == self.spec_raw(),
    {
        match self {
            LssState::Waiting => 0,
            LssState::Configuring => 1,
        }
    }

    /// Creates a state from a mode byte.
    pub fn from_byte(b: u8) -> (r: Result<LssState, MessageError>)
        ensures
            b == 0 ==> r == Ok::<LssState, MessageError>(LssState::Waiting),
            b == 1 ==> r == Ok::<LssState, MessageError>(LssState::Configuring),
            b > 1 ==> r == Err::<LssState, MessageError>(MessageError::InvalidField),
    {
        match b {
            0 => Ok(LssState::Waiting),
            1 => Ok(LssState::Configuring),
            _ => Err(MessageError::InvalidField),
        }
    }
}

/// The 128-bit identity of a node, in four parts.
///
/// Vendor ID, product code and revision come from the device configuration; the serial number is
/// set by the application, and must make the identity unique on the bus.
#[derive(Debug, Clone, Copy, PartialEq, Eq, Structural)]
pub struct LssIdentity {
    /// The vendor of the device
    pub vendor_id: u32,
    /// The product or model of the device
    pub product_code: u32,
    /// The revision of the product
    pub revision: u32,
    /// The serial number
    pub serial: u32,
}

impl LssIdentity {
    /// The identity read as an array of four words.
    pub open spec fn spec_by_addr(self, addr: u8) -> u32 {
        if addr == 0 {
            self.vendor_id
        } else if addr == 1 {
            self.product_code
        } else if addr == 2 {
            self.revision
        } else {
            self.serial
        }
    }

    /// Creates an identity.
    pub fn new(vendor_id: u32, product_code: u32, revision: u32, serial: u32) -> (r: LssIdentity)
        ensures
            r == (LssIdentity { vendor_id, product_code, revision, serial }),
    {
        LssIdentity { vendor_id, product_code, revision, serial }
    }

    /// Reads the identity by offset as if it were an array of four words.
    pub fn by_addr(&self, addr: u8) -> (r: u32)
        requires
            addr < 4,
        ensures
            r == self.spec_by_addr(addr),
    {
        match addr {
            0 => self.vendor_id,
            1 => self.product_code,
            2 => self.revision,
            _ => self.serial,
        }
    }
}

/// The LSS command specifier bytes of CiA 305; a byte names a command specifier exactly when
/// it is one of them, and then the one with that byte.
pub proof fn lemma_lss_command_codes(b: u8)
    ensures
        LssCommandSpecifier::SwitchModeGlobal.spec_raw() == 0x04,
        LssCommandSpecifier::ConfigureNodeId.spec_raw() == 0x11,
        LssCommandSpecifier::ConfigureBitTiming.spec_raw() == 0x13,
        LssCommandSpecifier::ActivateBitTiming.spec_raw() == 0x15,
        LssCommandSpecifier::StoreConfiguration.spec_raw() == 0x17,
        LssCommandSpecifier::SwitchStateVendor.spec_raw() == 0x40,
        LssCommandSpecifier::SwitchStateProduct.spec_raw() == 0x41,
        LssCommandSpecifier::SwitchStateRev.spec_raw() == 0x42,
        LssCommandSpecifier::SwitchStateSerial.spec_raw() == 0x43,
        LssCommandSpecifier::SwitchStateResponse.spec_raw() == 0x44,
        LssCommandSpecifier::IdentifySlave.spec_raw() == 0x4F,
        LssCommandSpecifier::FastScan.spec_raw() == 0x51,
        LssCommandSpecifier::InquireVendor.spec_raw() == 0x5A,
        LssCommandSpecifier::InquireProduct.spec_raw() == 0x5B,
        LssCommandSpecifier::InquireRev.spec_raw() == 0x5C,
        LssCommandSpecifier::InquireSerial.spec_raw() == 0x5D,
        LssCommandSpecifier::InquireNodeId.spec_raw() == 0x5E,
        LssCommandSpecifier::spec_from_byte(b) matches Ok(cs) ==> cs.spec_raw() == b,
        LssCommandSpecifier::spec_from_byte(b) is Ok <==> (b == 0x04 || b == 0x11 || b == 0x13 || b == 0x15 || b
            == 0x17 || (0x40 <= b <= 0x44) || b == 0x4F || b == 0x51 || (0x5A <= b <= 0x5E)),
{
}

/// How a master reads the eight bytes of an LSS response (CiA 305): the command specifier in
/// byte 0; an inquired identity value in bytes 1 to 4, lowest first; an inquired node ID in
/// byte 1; a configuration acknowledgement's error code in byte 1 and its specific error in
/// byte 2.
pub proof fn lemma_lss_response_reads(v: Seq<u8>)
    requires
        v.len() == 8,
    ensures
        v[0] == 0x4F ==> LssResponse::spec_try_from_bytes(v) == Ok::<LssResponse, MessageError>(LssResponse::IdentifySlave),
        v[0] == 0x44 ==> LssResponse::spec_try_from_bytes(v) == Ok::<LssResponse, MessageError>(
            LssResponse::SwitchStateResponse,
        ),
        v[0] == 0x11 ==> (LssResponse::spec_try_from_bytes(v) matches Ok(
            LssResponse::ConfigureNodeIdAck { error, spec_error },
        ) && error == v[1] && spec_error == v[2]),
        v[0] == 0x13 ==> (LssResponse::spec_try_from_bytes(v) matches Ok(
            LssResponse::ConfigureBitTimingAck { error, spec_error },
        ) && error == v[1] && spec_error == v[2]),
        v[0] == 0x5A ==> (LssResponse::spec_try_from_bytes(v) matches Ok(LssResponse::InquireVendorAck { vendor_id })
            && vendor_id == little_endian4(v[1], v[2], v[3], v[4])),
        v[0] == 0x5B ==> (LssResponse::spec_try_from_bytes(v) matches Ok(
            LssResponse::InquireProductAck { product_code },
        ) && product_code == little_endian4(v[1], v[2], v[3], v[4])),
        v[0] == 0x5C ==> (LssResponse::spec_try_from_bytes(v) matches Ok(LssResponse::InquireRevAck { revision })
            && revision == little_endian4(v[1], v[2], v[3], v[4])),
        v[0] == 0x5D ==> (LssResponse::spec_try_from_bytes(v) matches Ok(
            LssResponse::InquireSerialAck { serial_number },
        ) && serial_number == little_endian4(v[1], v[2], v[3], v[4])),
        v[0] == 0x5E ==> (LssResponse::spec_try_from_bytes(v) matches Ok(LssResponse::InquireNodeIdAck { node_id })
            && node_id == v[1]),
{
}

} // verus!
