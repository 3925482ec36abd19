//! The COB IDs (communication object identifiers) of the standard messages.
use vstd::prelude::*;
use crate::can::CanId;

verus! {

/// The COB ID used for NMT commands.
#[verifier::allow_in_spec]
pub fn nmt_cmd_id() -> CanId
    returns
        CanId::Std(0),
{
    CanId::Std(0)
}
/// The COB ID used for SYNC messages.
#[verifier::allow_in_spec]
pub fn sync_id() -> CanId
    returns
        CanId::Std(0x80),
{
    CanId::Std(0x80)
}
/// The COB ID used for LSS slave responses.
#[verifier::allow_in_spec]
pub fn lss_resp_id() -> CanId
    returns
        CanId::Std(0x7E4),
{
    CanId::Std(0x7E4)
}
/// The COB ID used for LSS master requests.
#[verifier::allow_in_spec]
pub fn lss_req_id() -> CanId
    returns
        CanId::Std(0x7E5),
{
    CanId::Std(0x7E5)
}
/// The base COB ID of heartbeat messages (the node ID is added).
pub const HEARTBEAT_ID: u16 = 0x700;
/// The base COB ID of SDO requests (the server node ID is added).
pub const SDO_REQ_BASE: u16 = 0x600;
/// The base COB ID of SDO responses (the server node ID is added).
pub const SDO_RESP_BASE: u16 = 0x580;


/// A standard COB ID in the SDO request range (0x600 to 0x67F) whose low seven bits are the
/// node ID or 0.
pub open spec fn spec_is_std_sdo_request(can_id: CanId, node_id: u8) -> bool {
    match can_id {
        CanId::Std(id) => (id & 0xff80u16) == SDO_REQ_BASE && ((id & 0x7fu16) == node_id as u16 || (id & 0x7fu16) == 0),
        CanId::Extended(_) => false,
    }
}

/// Returns true if `can_id` is an SDO request for the server of `node_id`, or for any server
/// (node ID 0).
pub fn is_std_sdo_request(can_id: CanId, node_id: u8) -> (r: bool)
    ensures
        r == spec_is_std_sdo_request(can_id, node_id),
{
    if let CanId::Std(id) = can_id {
        let base = id & 0xff80u16;
        let msg_id = id & 0x7fu16;
        if base == SDO_REQ_BASE && (msg_id == node_id as u16 || msg_id == 0) {
            return true;
        }
    }
    false
}

} // verus!
