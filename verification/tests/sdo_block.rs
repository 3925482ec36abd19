use zencan::can::{CanId, CanMessage};
use zencan::sdo_block::{BlockDownloadStage, BlockUploadStage};
use zencan::sdo_client::{SdoAction, SdoClient, SdoClientError};

fn client() -> SdoClient<(), ()> {
    SdoClient::new_std(5, (), ())
}

fn sent_bytes(a: SdoAction) -> [u8; 8] {
    match a {
        SdoAction::Send(m) => {
            assert_eq!(m.id(), CanId::standard(0x605));
            let mut b = [0u8; 8];
            b.copy_from_slice(m.data());
            b
        }
        other => panic!("expected a frame to send, got {other:?}"),
    }
}

fn from_server(bytes: &[u8]) -> CanMessage {
    CanMessage::new(CanId::standard(0x585), bytes)
}

fn crc(data: &[u8]) -> u16 {
    crc16::State::<crc16::XMODEM>::calculate(data)
}

#[test]
fn block_download_sends_blocks_and_ends_with_the_crc() {
    let data: Vec<u8> = (1..=20).collect();
    let (mut t, a) = client().block_download(0x2000, 3, &data);
    assert_eq!(sent_bytes(a), [0xC6, 0x00, 0x20, 3, 20, 0, 0, 0]);
    assert!(matches!(t.sent(), SdoAction::Wait));
    // The server checks a CRC and takes blocks of two segments.
    let a = t.received(from_server(&[0xA4, 0x00, 0x20, 3, 2, 0, 0, 0]));
    assert_eq!(sent_bytes(a), [1, 1, 2, 3, 4, 5, 6, 7]);
    let a = t.sent();
    assert_eq!(sent_bytes(a), [2, 8, 9, 10, 11, 12, 13, 14]);
    assert!(matches!(t.sent(), SdoAction::Wait));
    let a = t.received(from_server(&[0xA2, 2, 2, 0, 0, 0, 0, 0]));
    assert_eq!(sent_bytes(a), [0x81, 15, 16, 17, 18, 19, 20, 0]);
    assert!(matches!(t.sent(), SdoAction::Wait));
    let a = t.received(from_server(&[0xA2, 1, 2, 0, 0, 0, 0, 0]));
    let c = crc(&data);
    assert_eq!(sent_bytes(a), [0xC1 + 4, (c & 0xff) as u8, (c >> 8) as u8, 0, 0, 0, 0, 0]);
    assert_eq!(t.stage, BlockDownloadStage::End);
    assert!(matches!(t.sent(), SdoAction::Wait));
    assert!(matches!(t.received(from_server(&[0xA1, 0, 0, 0, 0, 0, 0, 0])), SdoAction::Finished));
    assert!(t.into_result().is_ok());
}

#[test]
fn block_download_resends_after_the_acknowledged_segments() {
    let data: Vec<u8> = (0..21).collect();
    let (mut t, _) = client().block_download(0x2000, 1, &data);
    t.sent();
    // No CRC, blocks of three segments.
    let a = t.received(from_server(&[0xA0, 0x00, 0x20, 1, 3, 0, 0, 0]));
    assert_eq!(sent_bytes(a)[0], 1);
    assert_eq!(sent_bytes(t.sent())[0], 2);
    assert_eq!(sent_bytes(t.sent()), [0x83, 14, 15, 16, 17, 18, 19, 20]);
    assert!(matches!(t.sent(), SdoAction::Wait));
    // Only the first segment arrived: sending goes on from segment 1 of the block, numbered 1.
    let a = t.received(from_server(&[0xA2, 1, 3, 0, 0, 0, 0, 0]));
    assert_eq!(sent_bytes(a), [1, 7, 8, 9, 10, 11, 12, 13]);
    assert_eq!(sent_bytes(t.sent()), [0x82, 14, 15, 16, 17, 18, 19, 20]);
    assert!(matches!(t.sent(), SdoAction::Wait));
    // An acknowledgement of 2 sends again from segment 2 of the block, numbered 2.
    let a = t.received(from_server(&[0xA2, 2, 3, 0, 0, 0, 0, 0]));
    assert_eq!(sent_bytes(a), [0x82, 14, 15, 16, 17, 18, 19, 20]);
    assert!(matches!(t.sent(), SdoAction::Wait));
    // The whole block acknowledged: the data is through.
    let a = t.received(from_server(&[0xA2, 3, 3, 0, 0, 0, 0, 0]));
    assert_eq!(sent_bytes(a), [0xC1, 0, 0, 0, 0, 0, 0, 0]);
}

#[test]
fn block_download_waits_only_at_the_block_size() {
    let data: Vec<u8> = (0..7 * 130).map(|i| i as u8).collect();
    let (mut t, _) = client().block_download(0x2000, 1, &data);
    t.sent();
    // A block size of 0 is never reached: the sequence numbers run past 127.
    let a = t.received(from_server(&[0xA0, 0x00, 0x20, 1, 0, 0, 0, 0]));
    assert_eq!(sent_bytes(a)[0], 1);
    for seq in 2..=129u32 {
        assert_eq!(sent_bytes(t.sent())[0], seq as u8);
    }
    // The last segment carries the top bit over sequence number 130.
    assert_eq!(sent_bytes(t.sent())[0], 130);
    assert!(matches!(t.sent(), SdoAction::Wait));
}

#[test]
fn block_download_refuses_a_block_size_below_the_acknowledged_segments() {
    let data: Vec<u8> = (0..30).collect();
    let (mut t, _) = client().block_download(0x2000, 1, &data);
    t.sent();
    t.received(from_server(&[0xA0, 0x00, 0x20, 1, 3, 0, 0, 0]));
    t.sent();
    t.sent();
    assert!(matches!(t.sent(), SdoAction::Wait));
    let a = t.received(from_server(&[0xA2, 2, 1, 0, 0, 0, 0, 0]));
    assert!(matches!(a, SdoAction::Finished));
    assert!(matches!(t.into_result(), Err(SdoClientError::BlockSizeChangedTooSmall)));
}

#[test]
fn block_download_checks_the_confirmed_object() {
    let (mut t, _) = client().block_download(0x2000, 1, &[1, 2, 3]);
    t.sent();
    t.received(from_server(&[0xA0, 0x01, 0x20, 1, 3, 0, 0, 0]));
    match t.into_result() {
        Err(SdoClientError::MismatchedObjectIndex { expected, received }) => {
            assert_eq!(expected, (0x2000, 1));
            assert_eq!(received, (0x2001, 1));
        }
        other => panic!("unexpected {other:?}"),
    }
}

#[test]
fn block_download_reports_a_server_abort() {
    let (mut t, _) = client().block_download(0x2000, 1, &[1, 2, 3]);
    t.sent();
    t.received(from_server(&[0x80, 0x00, 0x20, 1, 0x02, 0x00, 0x04, 0x05]));
    assert!(matches!(t.into_result(), Err(SdoClientError::ServerAbort { index: 0x2000, sub: 1, .. })));
}

fn upload_until_end(t: &mut zencan::sdo_block::BlockUpload) {
    assert!(matches!(t.sent(), SdoAction::Wait));
    let a = t.received(from_server(&[0xC4, 0x00, 0x20, 2, 11, 0, 0, 0]));
    assert_eq!(sent_bytes(a), [0xA3, 0, 0, 0, 0, 0, 0, 0]);
    assert!(matches!(t.sent(), SdoAction::Wait));
    assert!(matches!(t.received(from_server(b"\x01hello w")), SdoAction::Wait));
    let a = t.received(from_server(b"\x82orld\0\0\0"));
    assert_eq!(sent_bytes(a), [0xA2, 2, 127, 0, 0, 0, 0, 0]);
    assert!(matches!(t.sent(), SdoAction::Wait));
    assert_eq!(t.stage, BlockUploadStage::LastConfirm);
}

#[test]
fn block_upload_receives_and_checks_the_data() {
    let (mut t, a) = client().block_upload(0x2000, 2);
    assert_eq!(sent_bytes(a), [0xA4, 0x00, 0x20, 2, 127, 0, 0, 0]);
    upload_until_end(&mut t);
    let c = crc(b"hello world");
    let a = t.received(from_server(&[0xC1 | (3 << 2), (c & 0xff) as u8, (c >> 8) as u8, 0, 0, 0, 0, 0]));
    assert_eq!(sent_bytes(a), [0xA1, 0, 0, 0, 0, 0, 0, 0]);
    assert!(matches!(t.sent(), SdoAction::Finished));
    assert_eq!(t.into_result().unwrap(), b"hello world".to_vec());
}

#[test]
fn block_upload_aborts_on_a_crc_mismatch() {
    let (mut t, _) = client().block_upload(0x2000, 2);
    upload_until_end(&mut t);
    let a = t.received(from_server(&[0xC1 | (3 << 2), 0x12, 0x34, 0, 0, 0, 0, 0]));
    assert_eq!(sent_bytes(a), [0x80, 0x00, 0x20, 2, 0x04, 0x00, 0x04, 0x05]);
    assert!(matches!(t.sent(), SdoAction::Finished));
    assert!(matches!(t.into_result(), Err(SdoClientError::CrcMismatch)));
}

#[test]
fn block_upload_confirms_full_blocks() {
    let (mut t, _) = client().block_upload(0x2000, 2);
    t.sent();
    t.received(from_server(&[0xC0, 0x00, 0x20, 2, 0, 0, 0, 0]));
    t.sent();
    for seq in 1..127u8 {
        assert!(matches!(t.received(from_server(&[seq, 0, 0, 0, 0, 0, 0, 0])), SdoAction::Wait));
    }
    let a = t.received(from_server(&[127, 0, 0, 0, 0, 0, 0, 0]));
    assert_eq!(sent_bytes(a), [0xA2, 127, 127, 0, 0, 0, 0, 0]);
    assert!(matches!(t.sent(), SdoAction::Wait));
    assert_eq!(t.stage, BlockUploadStage::Segments);
    assert_eq!(t.data.len(), 127 * 7);
}
