//! Classification of frames into the standard protocol messages.
use vstd::prelude::*;
use crate::can::{CanId, CanMessage};
use super::cob_id::{nmt_cmd_id, sync_id, lss_req_id, lss_resp_id};
use super::errors::MessageError;
use super::heartbeat::Heartbeat;
use super::lss::{LssRequest, LssResponse};
use super::nmt::{NmtCommand, NmtState, InvalidNmtStateError};
use super::sdo::{SdoRequest, SdoResponse};
use super::sync::SyncObject;

verus! {

/// One of the standard messages.
#[derive(Clone, Copy, Debug)]
pub enum ZencanMessage {
    /// An NMT command
    NmtCommand(NmtCommand),
    /// A SYNC message
    Sync(SyncObject),
    /// A heartbeat
    Heartbeat(Heartbeat),
    /// An SDO request
    SdoRequest(SdoRequest),
    /// An SDO response
    SdoResponse(SdoResponse),
    /// An LSS request
    LssRequest(LssRequest),
    /// An LSS response
    LssResponse(LssResponse),
}

/// Heartbeat COB IDs: 0x700 plus a seven bit node ID.
pub open spec fn is_heartbeat_id(id: CanId) -> bool {
    id.spec_raw() & 0xFFFF_FF80u32 == 0x700u32
}

/// SDO response COB IDs: 0x580 plus a seven bit node ID.
pub open spec fn is_sdo_response_id(id: CanId) -> bool {
    id.spec_raw() & 0xff80u32 == 0x580u32
}

/// The COB IDs that are read as SDO requests once the response IDs are taken out.
pub open spec fn is_sdo_request_id(id: CanId) -> bool {
    id.spec_raw() >= 0x580 && id.spec_raw() <= 0x580 + 256
}

/// The frames on which the classification runs into an unimplemented request decoding.
pub open spec fn classifiable(msg: CanMessage) -> bool {
    &&& msg.wf()
    &&& (msg.id != nmt_cmd_id() && !is_heartbeat_id(msg.id) && !is_sdo_response_id(msg.id)
        && is_sdo_request_id(msg.id) ==> SdoRequest::decodable(msg.payload()))
    &&& (msg.id == lss_req_id() ==> LssRequest::decodable(msg.payload()))
}

/// The heartbeat carried by a frame on a heartbeat COB ID.
pub open spec fn spec_heartbeat(msg: CanMessage) -> Result<ZencanMessage, MessageError> {
    match NmtState::spec_from_raw(msg.data[0] & 0x7fu8) {
        Ok(state) => Ok(ZencanMessage::Heartbeat(Heartbeat {
            node: (msg.id.spec_raw() & 0x7fu32) as u8,
            toggle: msg.data[0] & 0x80u8 != 0,
            state,
        })),
        Err(e) => Err(MessageError::InvalidNmtState { value: e.0 }),
    }
}

impl ZencanMessage {
    /// The message a frame is classified as.
    pub open spec fn spec_try_from(msg: CanMessage) -> Result<ZencanMessage, MessageError> {
        let cob_id = msg.id;
        if cob_id == nmt_cmd_id() {
            match NmtCommand::spec_try_from(msg) {
                Ok(c) => Ok(ZencanMessage::NmtCommand(c)),
                Err(e) => Err(e),
            }
        } else if is_heartbeat_id(cob_id) {
            spec_heartbeat(msg)
        } else if is_sdo_response_id(cob_id) {
            match SdoResponse::spec_try_from(msg.data@) {
                Ok(r) => Ok(ZencanMessage::SdoResponse(r)),
                Err(_) => Err(MessageError::MalformedMsg { cob_id }),
            }
        } else if is_sdo_request_id(cob_id) {
            match SdoRequest::spec_try_from(msg.payload()) {
                Ok(r) => Ok(ZencanMessage::SdoRequest(r)),
                Err(_) => Err(MessageError::MalformedMsg { cob_id }),
            }
        } else if cob_id == sync_id() {
            Ok(ZencanMessage::Sync(SyncObject { count: if msg.dlc == 0 { None } else { Some(msg.data[0]) } }))
        } else if cob_id == lss_req_id() {
            match LssRequest::spec_try_from(msg.payload()) {
                Ok(r) => Ok(ZencanMessage::LssRequest(r)),
                Err(_) => Err(MessageError::MalformedMsg { cob_id }),
            }
        } else if cob_id == lss_resp_id() {
            match LssResponse::spec_try_from_bytes(msg.payload()) {
                Ok(r) => Ok(ZencanMessage::LssResponse(r)),
                Err(_) => Err(MessageError::MalformedMsg { cob_id }),
            }
        } else {
            Err(MessageError::UnrecognizedId { cob_id })
        }
    }

    /// Classifies a frame as one of the standard messages.
    pub fn try_from(msg: CanMessage) -> (r: Result<ZencanMessage, MessageError>)
        requires
            classifiable(msg),
        ensures
            r == Self::spec_try_from(msg),
    {
        let cob_id = msg.id();
        if cob_id == nmt_cmd_id() {
            match NmtCommand::try_from(msg) {
                Ok(c) => Ok(ZencanMessage::NmtCommand(c)),
                Err(e) => Err(e),
            }
        } else if cob_id.raw() & 0xFFFF_FF80u32 == 0x700u32 {
            let node = (cob_id.raw() & 0x7fu32) as u8;
            let toggle = msg.data[0] & 0x80u8 != 0;
            match NmtState::try_from(msg.data[0] & 0x7fu8) {
                Ok(state) => Ok(ZencanMessage::Heartbeat(Heartbeat { node, toggle, state })),
                Err(e) => Err(MessageError::InvalidNmtState { value: e.0 }),
            }
        } else if cob_id.raw() & 0xff80u32 == 0x580u32 {
            match SdoResponse::try_from(msg) {
                Ok(r) => Ok(ZencanMessage::SdoResponse(r)),
                Err(_) => Err(MessageError::MalformedMsg { cob_id }),
            }
        } else if cob_id.raw() >= 0x580 && cob_id.raw() <= 0x580 + 256 {
            match SdoRequest::try_from(msg.data()) {
                Ok(r) => Ok(ZencanMessage::SdoRequest(r)),
                Err(_) => Err(MessageError::MalformedMsg { cob_id }),
            }
        } else if cob_id == sync_id() {
            Ok(ZencanMessage::Sync(SyncObject::from(msg)))
        } else if cob_id == lss_req_id() {
            match LssRequest::try_from(msg.data()) {
                Ok(r) => Ok(ZencanMessage::LssRequest(r)),
                Err(_) => Err(MessageError::MalformedMsg { cob_id }),
            }
        } else if cob_id == lss_resp_id() {
            match LssResponse::try_from_bytes(msg.data()) {
                Ok(r) => Ok(ZencanMessage::LssResponse(r)),
                Err(_) => Err(MessageError::MalformedMsg { cob_id }),
            }
        } else {
            Err(MessageError::UnrecognizedId { cob_id })
        }
    }
}

/// A heartbeat frame of a node with a seven bit ID is classified as that heartbeat.
pub proof fn lemma_heartbeat_classified(h: Heartbeat)
    requires
        h.node < 128,
    ensures
        classifiable(h.spec_to_message()),
        ZencanMessage::spec_try_from(h.spec_to_message()) == Ok::<ZencanMessage, MessageError>(ZencanMessage::Heartbeat(h)),
{
    let node = h.node;
    let raw = h.state.spec_raw();
    assert(raw < 128);
    assert((((0x700u16 | (node as u16)) as u32) & 0xFFFF_FF80u32) == 0x700u32
        && (((0x700u16 | (node as u16)) as u32) & 0x7fu32) as u8 == node
        && (0x700u16 | (node as u16)) != 0 && (0x700u16 | (node as u16)) != 0x7E5u16) by (bit_vector)
        requires
            node < 128,
    ;
    assert(((raw | 0x80u8) & 0x7fu8) == raw && ((raw | 0x80u8) & 0x80u8) != 0 && (raw & 0x7fu8) == raw
        && (raw & 0x80u8) == 0) by (bit_vector)
        requires
            raw < 128,
    ;
}


/// Returns true for the frames that the classification reads without running into an
/// undecodable request.
pub fn is_classifiable(msg: &CanMessage) -> (r: bool)
    ensures
        r == classifiable(*msg),
{
    if msg.dlc > 8 {
        return false;
    }
    let raw = msg.id.raw();
    let data = msg.data();
    let sdo_request = msg.id != nmt_cmd_id() && raw & 0xFFFF_FF80u32 != 0x700u32 && raw & 0xff80u32 != 0x580u32
        && raw >= 0x580 && raw <= 0x580 + 256;
    if sdo_request && data.len() >= 8 && ((data[0] >> 5u8) == 5 || (data[0] >> 5u8) == 6) {
        return false;
    }
    if msg.id == lss_req_id() && data.len() >= 1 && data[0] == 0x17 {
        return false;
    }
    true
}

} // verus!
