use zencan::can::{CanError, CanId, CanMessage};
use zencan::protocol::cob_id::is_std_sdo_request;
use zencan::protocol::errors::MessageError;
use zencan::protocol::heartbeat::Heartbeat;
use zencan::protocol::lss::{LssCommandSpecifier, LssIdentity, LssRequest, LssResponse, LssState};
use zencan::protocol::nmt::{NmtCommand, NmtCommandCmd, NmtCommandSpecifier, NmtState};
use zencan::protocol::node_id::{ConfiguredId, NodeId};
use zencan::protocol::sdo::{AbortCode, SdoRequest, SdoResponse};
use zencan::protocol::sync::SyncObject;
use zencan::protocol::zencan_message::ZencanMessage;
use zencan::zencandump::Message;

#[test]
fn can_ids_and_messages() {
    assert_eq!(CanId::standard(0x123).raw(), 0x123);
    assert!(CanId::extended(0x123).is_extended());
    let m = CanMessage::new(CanId::standard(0x10), &[1, 2, 3]);
    assert_eq!(m.data(), &[1, 2, 3]);
    assert!(!m.is_rtr());
    assert!(CanMessage::new_rtr(CanId::standard(1)).is_rtr());
    assert_eq!(CanError::from_raw(2), CanError::Stuff);
    assert_eq!(CanError::from_raw(9), CanError::Other);
}

#[test]
fn sdo_request_bytes() {
    assert_eq!(SdoRequest::initiate_upload(0x1018, 2).to_bytes(), [0x40, 0x18, 0x10, 2, 0, 0, 0, 0]);
    assert_eq!(SdoRequest::expedited_download(0x2000, 1, &[5, 6]).to_bytes(), [0x2b, 0, 0x20, 1, 5, 6, 0, 0]);
    assert_eq!(SdoRequest::initiate_download(0x2000, 1, Some(10)).to_bytes(), [0x21, 0, 0x20, 1, 10, 0, 0, 0]);
    assert_eq!(SdoRequest::download_segment(true, true, &[1, 2]).to_bytes(), [0x1b, 1, 2, 0, 0, 0, 0, 0]);
    assert_eq!(SdoRequest::upload_segment_request(true).to_bytes(), [0x70, 0, 0, 0, 0, 0, 0, 0]);
    assert_eq!(
        SdoRequest::abort(0x2000, 1, AbortCode::NoSuchObject).to_bytes(),
        [0x80, 0, 0x20, 1, 0, 0, 2, 6]
    );
    let r = SdoRequest::expedited_download(0x2000, 1, &[5, 6]);
    assert_eq!(SdoRequest::try_from(&r.to_bytes()[..]).unwrap().to_bytes(), r.to_bytes());
    assert!(matches!(SdoRequest::try_from(&[0x40, 0, 0][..]), Err(AbortCode::DataTypeMismatchLengthLow)));
    let frame = r.to_can_message(CanId::standard(0x601));
    assert_eq!(frame.id(), CanId::standard(0x601));
}

#[test]
fn sdo_response_bytes() {
    assert_eq!(SdoResponse::expedited_upload(0x1000, 0, &[1, 2]).to_bytes(), [0x4b, 0, 0x10, 0, 1, 2, 0, 0]);
    assert_eq!(SdoResponse::download_acknowledge(0x1000, 0).to_bytes(), [0x60, 0, 0x10, 0, 0, 0, 0, 0]);
    assert_eq!(SdoResponse::download_segment_acknowledge(true).to_bytes()[0], 0x30);
    assert_eq!(SdoResponse::upload_acknowledge(0x1000, 0, 20).to_bytes(), [0x41, 0, 0x10, 0, 20, 0, 0, 0]);
    assert_eq!(SdoResponse::upload_segment(false, true, &[9]).to_bytes()[0], 0x0d);
    assert_eq!(SdoResponse::abort(1, 2, AbortCode::ToggleNotAlternated).to_bytes(), [0x80, 1, 0, 2, 0, 0, 3, 5]);
    let r = SdoResponse::expedited_upload(0x1000, 0, &[1, 2]);
    let m = r.to_can_message(CanId::standard(0x581));
    assert_eq!(SdoResponse::try_from(m).unwrap().to_bytes(), r.to_bytes());
    assert_eq!(AbortCode::from_raw(0x0503_0000), Some(AbortCode::ToggleNotAlternated));
    assert_eq!(AbortCode::from_raw(1), None);
}

#[test]
fn nmt_heartbeat_and_sync() {
    assert_eq!(NmtState::try_from(5), Ok(NmtState::Operational));
    assert!(NmtState::try_from(3).is_err());
    assert_eq!(NmtCommandSpecifier::from_byte(129), Ok(NmtCommandSpecifier::ResetApp));
    let cmd = NmtCommand { cs: NmtCommandSpecifier::Stop, node: 4 };
    let m = CanMessage::from(cmd);
    assert_eq!(m.data(), &[2, 4]);
    assert_eq!(NmtCommand::try_from(m), Ok(cmd));
    let hb = Heartbeat { node: 3, toggle: true, state: NmtState::PreOperational };
    let m = CanMessage::from(hb);
    assert_eq!(m.id(), CanId::standard(0x703));
    assert_eq!(m.data(), &[0xff]);
    assert!(matches!(ZencanMessage::try_from(m), Ok(ZencanMessage::Heartbeat(h)) if h == hb));
    let s = SyncObject::new(Some(7));
    let m = CanMessage::from(s);
    assert_eq!(m.data(), &[7]);
    assert_eq!(SyncObject::from(m), s);
    assert!(matches!(
        ZencanMessage::try_from(CanMessage::new(CanId::standard(0x123), &[])),
        Err(MessageError::UnrecognizedId { .. })
    ));
}

#[test]
fn lss_messages() {
    let req = LssRequest::FastScan { id: 0x1234, bit_check: 5, sub: 1, next: 2 };
    let m = CanMessage::from(req);
    assert_eq!(m.id(), CanId::standard(0x7E5));
    assert_eq!(LssRequest::try_from(m.data()), Ok(req));
    let resp = LssResponse::InquireVendorAck { vendor_id: 0xCAFE };
    let m = resp.to_can_message(CanId::standard(0x7E4));
    assert_eq!(LssResponse::try_from(m), Ok(resp));
    assert_eq!(LssState::from_byte(1), Ok(LssState::Configuring));
    assert_eq!(LssCommandSpecifier::from_byte(0x51), Ok(LssCommandSpecifier::FastScan));
    let id = LssIdentity::new(1, 2, 3, 4);
    assert_eq!(id.by_addr(2), 3);
}

#[test]
fn node_ids() {
    assert_eq!(NodeId::new(5).unwrap().raw(), 5);
    assert!(NodeId::new(255).unwrap().is_unconfigured());
    assert!(NodeId::new(5).unwrap().is_configured());
    assert!(NodeId::new(0).is_err());
    assert_eq!(ConfiguredId::new(127).unwrap().raw(), 127);
    assert!(ConfiguredId::new(0).is_err());
    assert!(ConfiguredId::new(128).is_err());
    assert!(ConfiguredId::new(255).is_err());
}

#[test]
fn sdo_request_ids() {
    assert!(is_std_sdo_request(CanId::standard(0x605), 5));
    assert!(is_std_sdo_request(CanId::standard(0x600), 5));
    assert!(!is_std_sdo_request(CanId::standard(0x606), 5));
    assert!(!is_std_sdo_request(CanId::extended(0x605), 5));
}

#[test]
fn dump_messages() {
    let hb = CanMessage::from(Heartbeat { node: 1, toggle: false, state: NmtState::Bootup });
    assert!(matches!(Message::classify(hb), Message::Recognized(ZencanMessage::Heartbeat(_))));
    let other = CanMessage::new(CanId::standard(0x123), &[1]);
    assert!(matches!(Message::classify(other), Message::Unrecognized(m) if m == other));
    // A block download request on an SDO request ID is kept as a raw frame.
    let block = CanMessage::new(CanId::standard(0x601), &[0xc6, 0, 0x20, 0, 0, 0, 0, 0]);
    assert!(matches!(Message::classify(block), Message::Unrecognized(_)));
}

#[test]
fn nmt_command_cmd_from_byte() {
    assert_eq!(NmtCommandCmd::from_byte(1), Ok(NmtCommandCmd::Start));
    assert_eq!(NmtCommandCmd::from_byte(2), Ok(NmtCommandCmd::Stop));
    assert_eq!(NmtCommandCmd::from_byte(128), Ok(NmtCommandCmd::EnterPreOp));
    assert_eq!(NmtCommandCmd::from_byte(129), Ok(NmtCommandCmd::ResetApp));
    assert_eq!(NmtCommandCmd::from_byte(130), Ok(NmtCommandCmd::ResetComm));
    assert!(NmtCommandCmd::from_byte(3).is_err());
}
