use std::time::Duration;
use zencan::bus_manager::{scan_outcome, BusNode, NodeInfo, ScannerError};
use zencan::can::{CanId, CanMessage};
use zencan::protocol::lss::LssIdentity;
use zencan::protocol::nmt::NmtState;
use zencan::protocol::sdo::{AbortCode, SdoRequest, SdoResponse};
use zencan::sdo_client::{
    decode_bool, decode_i16, decode_i32, decode_i64, decode_i8, decode_time_difference, decode_time_of_day,
    decode_u16, decode_u32, decode_u64, decode_u8, RawAbortCode, SdoAction, SdoClient, SdoClientError,
    SdoTransfer, Stage, TransferError,
};

fn client() -> SdoClient<(), ()> {
    SdoClient::new_std(5, (), ())
}

fn sent_request(a: SdoAction) -> SdoRequest {
    match a {
        SdoAction::Send(m) => {
            assert_eq!(m.id(), CanId::standard(0x605));
            SdoRequest::try_from(m.data()).unwrap()
        }
        other => panic!("expected a frame to send, got {other:?}"),
    }
}

fn response(r: SdoResponse) -> CanMessage {
    r.to_can_message(CanId::standard(0x585))
}

#[test]
fn standard_client_cob_ids_and_timeout() {
    let mut c = client();
    assert_eq!(c.req_cob_id(), CanId::standard(0x605));
    assert_eq!(c.resp_cob_id(), CanId::standard(0x585));
    assert_eq!(c.get_timeout(), Duration::from_millis(150));
    c.set_timeout(Duration::from_millis(20));
    assert_eq!(c.get_timeout(), Duration::from_millis(20));
}

#[test]
fn expedited_download_is_confirmed() {
    let c = client();
    let (mut t, a) = c.download(0x2000, 1, &[1, 2, 3]);
    match sent_request(a) {
        SdoRequest::InitiateDownload { n, e, s, index, sub, data } => {
            assert_eq!((n, e, s, index, sub), (1, true, true, 0x2000, 1));
            assert_eq!(&data[0..3], &[1, 2, 3]);
        }
        other => panic!("expected expedited download, got {other:?}"),
    }
    assert!(matches!(t.sent(), SdoAction::Wait));
    let a = t.received(response(SdoResponse::download_acknowledge(0x2000, 1)));
    assert!(matches!(a, SdoAction::Finished));
    assert!(matches!(t.into_result(), Ok(ref v) if v.is_empty()));
}

#[test]
fn segmented_download_sends_segments_with_alternating_toggle() {
    let c = client();
    let data: Vec<u8> = (0..10).collect();
    let (mut t, a) = c.download(0x2001, 0, &data);
    match sent_request(a) {
        SdoRequest::InitiateDownload { e, s, data: size, .. } => {
            assert!(!e);
            assert!(s);
            assert_eq!(size, [10, 0, 0, 0]);
        }
        other => panic!("expected initiate download, got {other:?}"),
    }
    t.sent();
    let a = t.received(response(SdoResponse::download_acknowledge(0x2001, 0)));
    match sent_request(a) {
        SdoRequest::DownloadSegment { t: toggle, n, c: last, data: seg } => {
            assert!(!toggle);
            assert_eq!(n, 0);
            assert!(!last);
            assert_eq!(seg, [0, 1, 2, 3, 4, 5, 6]);
        }
        other => panic!("expected segment, got {other:?}"),
    }
    t.sent();
    let a = t.received(response(SdoResponse::download_segment_acknowledge(false)));
    match sent_request(a) {
        SdoRequest::DownloadSegment { t: toggle, n, c: last, data: seg } => {
            assert!(toggle);
            assert_eq!(n, 4);
            assert!(last);
            assert_eq!(&seg[0..3], &[7, 8, 9]);
        }
        other => panic!("expected segment, got {other:?}"),
    }
    t.sent();
    let a = t.received(response(SdoResponse::download_segment_acknowledge(true)));
    assert!(matches!(a, SdoAction::Finished));
    assert!(t.into_result().is_ok());
}

#[test]
fn wrong_toggle_aborts_the_download() {
    let c = client();
    let data: Vec<u8> = (0..10).collect();
    let (mut t, _) = c.download(0x2001, 0, &data);
    t.sent();
    t.received(response(SdoResponse::download_acknowledge(0x2001, 0)));
    t.sent();
    let a = t.received(response(SdoResponse::download_segment_acknowledge(true)));
    match sent_request(a) {
        SdoRequest::Abort { index, sub, abort_code } => {
            assert_eq!((index, sub), (0x2001, 0));
            assert_eq!(abort_code, AbortCode::ToggleNotAlternated.raw());
        }
        other => panic!("expected abort, got {other:?}"),
    }
    assert!(matches!(t.sent(), SdoAction::Finished));
    assert!(matches!(t.into_result(), Err(SdoClientError::ToggleNotAlternated)));
}

#[test]
fn expedited_upload_returns_the_bytes() {
    let c = client();
    let (mut t, a) = c.upload(0x1018, 1);
    assert!(matches!(sent_request(a), SdoRequest::InitiateUpload { index: 0x1018, sub: 1 }));
    t.sent();
    let a = t.received(response(SdoResponse::expedited_upload(0x1018, 1, &[0x34, 0x12, 0, 0])));
    assert!(matches!(a, SdoAction::Finished));
    let bytes = t.into_result().unwrap();
    assert_eq!(bytes, vec![0x34, 0x12, 0, 0]);
    assert_eq!(decode_u32(&bytes).unwrap(), 0x1234);
}

#[test]
fn segmented_upload_collects_segments() {
    let c = client();
    let (mut t, _) = c.upload(0x1008, 0);
    t.sent();
    let a = t.received(response(SdoResponse::upload_acknowledge(0x1008, 0, 9)));
    assert!(matches!(sent_request(a), SdoRequest::ReqUploadSegment { t: false }));
    t.sent();
    let a = t.received(response(SdoResponse::upload_segment(false, false, b"zencan-")));
    assert!(matches!(sent_request(a), SdoRequest::ReqUploadSegment { t: true }));
    t.sent();
    let a = t.received(response(SdoResponse::upload_segment(true, true, b"io")));
    assert!(matches!(a, SdoAction::Finished));
    assert_eq!(t.into_result().unwrap(), b"zencan-io".to_vec());
}

#[test]
fn server_abort_and_unexpected_response() {
    let c = client();
    let (mut t, _) = c.upload(0x1000, 0);
    t.sent();
    t.received(response(SdoResponse::abort(0x1000, 0, AbortCode::NoSuchObject)));
    match t.into_result() {
        Err(SdoClientError::ServerAbort { index, sub, abort_code }) => {
            assert_eq!((index, sub), (0x1000, 0));
            assert_eq!(abort_code, RawAbortCode::Valid(AbortCode::NoSuchObject));
        }
        other => panic!("expected abort, got {other:?}"),
    }
    let (mut t, _) = c.upload(0x1000, 0);
    t.sent();
    t.received(response(SdoResponse::download_acknowledge(0x1000, 0)));
    match t.into_result() {
        Err(SdoClientError::UnexpectedResponse { expecting, .. }) => assert_eq!(expecting, "ConfirmUpload"),
        other => panic!("expected unexpected response, got {other:?}"),
    }
}

#[test]
fn other_traffic_is_passed_over_and_timeouts_end_the_transfer() {
    let c = client();
    let (mut t, _) = c.upload(0x1000, 0);
    t.sent();
    let a = t.received(CanMessage::new(CanId::standard(0x586), &[0x43, 0, 0x10, 0, 1, 2, 3, 4]));
    assert!(matches!(a, SdoAction::Wait));
    assert!(matches!(t.timed_out(), SdoAction::Finished));
    assert!(matches!(t.into_result(), Err(SdoClientError::NoResponse)));
}

#[test]
fn send_failures_are_retried_three_times() {
    let c = client();
    let (mut t, first) = c.download(0x2000, 0, &[1]);
    for _ in 0..2 {
        assert!(matches!(t.send_failed(), SdoAction::Pause(5)));
        let again = t.resume();
        match (first, again) {
            (SdoAction::Send(a), SdoAction::Send(b)) => assert_eq!(a, b),
            other => panic!("expected the same frame, got {other:?}"),
        }
    }
    assert!(matches!(t.send_failed(), SdoAction::Pause(5)));
    assert!(matches!(t.resume(), SdoAction::Finished));
    assert_eq!(t.stage, Stage::Done);
    match t.into_result() {
        Err(SdoClientError::SocketSendFailed { message }) => assert_eq!(message, "sender rejected the message"),
        other => panic!("expected send failure, got {other:?}"),
    }
}

#[test]
fn transfer_errors_map_to_client_errors() {
    assert!(matches!(SdoClientError::from_transfer(TransferError::NoResponse), SdoClientError::NoResponse));
    assert!(matches!(
        SdoClientError::from_transfer(TransferError::MalformedResponse),
        SdoClientError::MalformedResponse
    ));
    assert_eq!(RawAbortCode::from(0x1234_5678), RawAbortCode::Unknown(0x1234_5678));
}

#[test]
fn transfer_on_explicit_ids() {
    let (t, _) = SdoTransfer::upload(CanId::extended(0x1_0000), CanId::extended(0x2_0000), 1, 2);
    assert_eq!(t.req_cob_id, CanId::extended(0x1_0000));
}

#[test]
fn decoders_check_sizes() {
    assert_eq!(decode_bool(&[2]).unwrap(), true);
    assert_eq!(decode_bool(&[0]).unwrap(), false);
    assert!(matches!(decode_bool(&[0, 0]), Err(SdoClientError::UnexpectedSize)));
    assert_eq!(decode_u8(&[200]).unwrap(), 200);
    assert_eq!(decode_i8(&[0xff]).unwrap(), -1);
    assert_eq!(decode_u16(&[0x34, 0x12]).unwrap(), 0x1234);
    assert_eq!(decode_i16(&[0xfe, 0xff]).unwrap(), -2);
    assert!(matches!(decode_u16(&[1]), Err(SdoClientError::UnexpectedSize)));
    assert_eq!(decode_i32(&[0xff, 0xff, 0xff, 0xff]).unwrap(), -1);
    assert!(matches!(decode_u32(&[1, 2, 3]), Err(SdoClientError::UnexpectedSize)));
    assert_eq!(decode_u64(&[1, 0, 0, 0, 2, 0, 0, 0]).unwrap(), 0x2_0000_0001);
    assert_eq!(decode_i64(&[0xfe, 0xff, 0xff, 0xff, 0xff, 0xff, 0xff, 0xff]).unwrap(), -2);
    let t = decode_time_of_day(&[0x10, 0, 0, 0, 2, 0]).unwrap();
    assert_eq!((t.days(), t.time_millis()), (2, 0x10));
    let d = decode_time_difference(&[0x10, 0, 0, 0, 1, 0]).unwrap();
    assert_eq!(d.total_millis(), 86_400_000 + 0x10);
    assert!(matches!(decode_time_of_day(&[0; 5]), Err(SdoClientError::UnexpectedSize)));
}

#[test]
fn scan_outcomes() {
    let id = LssIdentity::new(1, 2, 3, 4);
    assert_eq!(scan_outcome(3, Ok(id)).unwrap(), Some(BusNode { node_id: 3, identity: id }));
    assert_eq!(scan_outcome(3, Err(SdoClientError::NoResponse)).unwrap(), None);
    assert!(matches!(
        scan_outcome(3, Err(SdoClientError::MismatchedObjectIndex { expected: (1, 1), received: (1, 2) })),
        Err(ScannerError::DuplicateNodeDetected { node_id: 3 })
    ));
    assert!(matches!(
        scan_outcome(3, Err(SdoClientError::MalformedResponse)),
        Err(ScannerError::IdentityReadFailed { node_id: 3, source: SdoClientError::MalformedResponse })
    ));
}

#[test]
fn node_info_update_merges() {
    let mut info = NodeInfo::new(9);
    assert!(info.device_name.is_none());
    let mut newer = NodeInfo::new(9);
    newer.device_name = Some("io".to_string());
    newer.nmt_state = Some(NmtState::Operational);
    info.update(&newer);
    assert_eq!(info.device_name.as_deref(), Some("io"));
    assert_eq!(info.nmt_state, Some(NmtState::Operational));
    let blank = NodeInfo::new(9);
    info.update(&blank);
    assert_eq!(info.device_name.as_deref(), Some("io"));
    assert_eq!(info.node_id, 9);
}
