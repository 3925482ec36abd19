use zencan::can::{CanId, CanMessage};
use zencan::lss_client::{
    baud_rate_outcome, configuration_mode_outcome, node_id_outcome, store_config_ack, store_config_outcome, LssClient,
};
use zencan::lss_master::{FastScan, FastScanStep, LssError, LssMaster};
use zencan::protocol::lss::{LssIdentity, LssRequest, LssResponse, LssState};

/// Runs a fast scan against a lone node that answers when the bits from bit_check up match.
fn scan(node: Option<[u32; 4]>) -> FastScanStep {
    let (mut s, mut step) = FastScan::start();
    let mut replies = 0;
    loop {
        let req = match step {
            FastScanStep::Query(r) => r,
            done => return done,
        };
        let responded = match (node, req) {
            (Some(x), LssRequest::FastScan { id, bit_check, sub, .. }) => {
                ((x[sub as usize] ^ id) as u64) >> bit_check == 0
            }
            _ => false,
        };
        step = s.on_reply(responded);
        replies += 1;
        assert!(replies <= 132);
    }
}

#[test]
fn fast_scan_finds_a_lone_node() {
    let x = [0xCAFE, 0x1234_5678, 3, 0xFFFF_FFFF];
    assert_eq!(scan(Some(x)), FastScanStep::Found(LssIdentity::new(x[0], x[1], x[2], x[3])));
    assert_eq!(scan(Some([0, 0, 0, 0])), FastScanStep::Found(LssIdentity::new(0, 0, 0, 0)));
}

#[test]
fn fast_scan_without_nodes_finds_nothing() {
    assert_eq!(scan(None), FastScanStep::NotFound);
}

#[test]
fn fast_scan_first_query() {
    let (s, step) = FastScan::start();
    assert_eq!(step, FastScanStep::Query(LssRequest::FastScan { id: 0, bit_check: 31, sub: 0, next: 0 }));
    assert_eq!(s.sub, 0);
}

#[test]
fn lss_master_global_mode() {
    let m = LssMaster::new(1u8, 2u8);
    assert_eq!((m.sender, m.receiver), (1, 2));
    assert_eq!(
        LssMaster::<u8, u8>::global_mode_request(LssState::Configuring),
        LssRequest::SwitchModeGlobal { mode: 1 }
    );
    assert_ne!(LssError::Timeout, LssError::InvalidNodeIdError);
}

#[test]
fn lss_client_requests() {
    let id = LssIdentity::new(1, 2, 3, 4);
    let c = LssClient::new((), (), id);
    assert_eq!(
        c.enter_configuration_mode(),
        [
            LssRequest::SwitchModeGlobal { mode: 0 },
            LssRequest::SwitchStateVendor { vendor_id: 1 },
            LssRequest::SwitchStateProduct { product_code: 2 },
            LssRequest::SwitchStateRevision { revision: 3 },
            LssRequest::SwitchStateSerial { serial: 4 },
        ]
    );
    assert_eq!(c.exit_configuration_mode(), LssRequest::SwitchModeGlobal { mode: 0 });
    assert_eq!(c.set_baud_rate(0, 4), LssRequest::ConfigureBitTiming { table: 0, index: 4 });
    assert_eq!(c.activate_baud_rate(100), LssRequest::ActivateBitTiming { delay: 100 });
    assert_eq!(c.set_node_id(5), Ok(LssRequest::ConfigureNodeId { node_id: 5 }));
    assert_eq!(c.set_node_id(255), Ok(LssRequest::ConfigureNodeId { node_id: 255 }));
    assert_eq!(c.set_node_id(0), Err(LssError::InvalidNodeIdError));
    assert_eq!(c.set_node_id(128), Err(LssError::InvalidNodeIdError));
    let frame = c.store_config();
    assert_eq!(frame.id(), CanId::standard(0x7E5));
    assert_eq!(frame.data(), &[0x17, 0, 0, 0, 0, 0, 0, 0]);
}

#[test]
fn lss_client_outcomes() {
    assert_eq!(configuration_mode_outcome(Some(LssResponse::SwitchStateResponse)), Ok(()));
    assert_eq!(configuration_mode_outcome(Some(LssResponse::IdentifySlave)), Err(LssError::Timeout));
    assert_eq!(configuration_mode_outcome(None), Err(LssError::Timeout));
    assert_eq!(node_id_outcome(Some(LssResponse::ConfigureNodeIdAck { error: 0, spec_error: 7 })), Ok(()));
    assert_eq!(
        node_id_outcome(Some(LssResponse::ConfigureNodeIdAck { error: 1, spec_error: 0 })),
        Err(LssError::NodeIdConfigError { error: 1, spec_error: 0 })
    );
    assert_eq!(node_id_outcome(Some(LssResponse::ConfigureBitTimingAck { error: 0, spec_error: 0 })), Err(LssError::Timeout));
    assert_eq!(baud_rate_outcome(Some(LssResponse::ConfigureBitTimingAck { error: 0, spec_error: 0 })), Ok(()));
    assert_eq!(
        baud_rate_outcome(Some(LssResponse::ConfigureBitTimingAck { error: 255, spec_error: 9 })),
        Err(LssError::BitTimingConfigError { error: 255, spec_error: 9 })
    );
    assert_eq!(baud_rate_outcome(None), Err(LssError::Timeout));
    let ack = CanMessage::new(CanId::standard(0x7E4), &[0x17, 1, 2]);
    assert_eq!(store_config_ack(&ack), Some((1, 2)));
    assert_eq!(store_config_ack(&CanMessage::new(CanId::standard(0x7E5), &[0x17, 1, 2])), None);
    assert_eq!(store_config_ack(&CanMessage::new(CanId::standard(0x7E4), &[0x17, 1])), None);
    assert_eq!(store_config_outcome(Some((0, 3))), Ok(()));
    assert_eq!(store_config_outcome(Some((1, 3))), Err(LssError::NodeStoreConfigError { error: 1, spec_error: 3 }));
    assert_eq!(store_config_outcome(None), Err(LssError::Timeout));
}
