use zencan::bus_manager::{KnownNodes, NodeInfo, NodeScan};
use zencan::can::{CanId, CanMessage};
use zencan::protocol::heartbeat::Heartbeat;
use zencan::protocol::lss::LssIdentity;
use zencan::protocol::nmt::NmtState;
use zencan::sdo_client::SdoClientError;
use zencan::sdo_ops::{ObjectAccess, OpStep};

fn heartbeat(node: u8, state: NmtState) -> CanMessage {
    CanMessage::from(Heartbeat { node, toggle: false, state })
}

#[test]
fn heartbeats_make_nodes_known_then_set_their_state() {
    let mut nodes = KnownNodes::new();
    assert!(nodes.node_list().is_empty());
    nodes.on_heartbeat(&heartbeat(12, NmtState::Operational));
    let list = nodes.node_list();
    assert_eq!(list.len(), 1);
    assert_eq!(list[0].node_id, 12);
    // The first heartbeat of a node makes it known without a state.
    assert_eq!(list[0].nmt_state, None);
    nodes.on_heartbeat(&heartbeat(12, NmtState::PreOperational));
    assert_eq!(nodes.node_list()[0].nmt_state, Some(NmtState::PreOperational));
    nodes.on_heartbeat(&heartbeat(3, NmtState::Bootup));
    let ids: Vec<u8> = nodes.node_list().iter().map(|n| n.node_id).collect();
    assert_eq!(ids, vec![3, 12]);
}

#[test]
fn other_frames_and_node_zero_change_nothing() {
    let mut nodes = KnownNodes::new();
    nodes.on_heartbeat(&heartbeat(0, NmtState::Operational));
    nodes.on_heartbeat(&CanMessage::new(CanId::standard(0x185), &[1, 2]));
    assert!(nodes.node_list().is_empty());
}

#[test]
fn scanned_nodes_replace_what_was_known() {
    let mut nodes = KnownNodes::new();
    nodes.on_heartbeat(&heartbeat(5, NmtState::Operational));
    nodes.on_heartbeat(&heartbeat(5, NmtState::Operational));
    let mut scanned = NodeInfo::new(5);
    scanned.device_name = Some("pump".to_string());
    nodes.record(scanned);
    nodes.record(NodeInfo::new(2));
    let list = nodes.node_list();
    assert_eq!(list.len(), 2);
    assert_eq!(list[0].node_id, 2);
    assert_eq!(list[1].device_name.as_deref(), Some("pump"));
    assert_eq!(list[1].nmt_state, None);
}

fn read_of<T: std::fmt::Debug>(step: &OpStep<T>) -> (u16, u8) {
    match step {
        OpStep::Access(ObjectAccess::Read { index, sub }) => (*index, *sub),
        other => panic!("expected a read, got {other:?}"),
    }
}

#[test]
fn node_scan_reads_identity_name_and_versions() {
    let (mut scan, step) = NodeScan::start(4);
    assert_eq!(read_of(&step), (0x1018, 1));
    let mut step = step;
    for word in 1..=4u8 {
        step = scan.on_read(Ok(vec![word, 0, 0, 0]));
    }
    assert_eq!(read_of(&step), (0x1008, 0));
    let step = scan.on_read(Ok(b"valve".to_vec()));
    assert_eq!(read_of(&step), (0x100A, 0));
    let step = scan.on_read(Err(SdoClientError::UnexpectedSize));
    assert_eq!(read_of(&step), (0x1009, 0));
    match scan.on_read(Ok(b"rev B".to_vec())) {
        OpStep::Done(Ok(Some(n))) => {
            assert_eq!(n.node_id, 4);
            assert_eq!(n.identity, Some(LssIdentity::new(1, 2, 3, 4)));
            assert_eq!(n.device_name.as_deref(), Some("valve"));
            assert_eq!(n.software_version, None);
            assert_eq!(n.hardware_version.as_deref(), Some("rev B"));
            assert_eq!(n.nmt_state, None);
        }
        other => panic!("expected a node, got {other:?}"),
    }
}

#[test]
fn node_scan_without_answer_finds_no_node() {
    let (mut scan, _) = NodeScan::start(9);
    match scan.on_read(Err(SdoClientError::NoResponse)) {
        OpStep::Done(Ok(None)) => {}
        other => panic!("expected no node, got {other:?}"),
    }
    let (mut scan, _) = NodeScan::start(9);
    let step = scan.on_read(Err(SdoClientError::UnexpectedSize));
    assert_eq!(read_of(&step), (0x1008, 0));
    match scan.on_read(Err(SdoClientError::NoResponse)) {
        OpStep::Done(Ok(None)) => {}
        other => panic!("expected no node, got {other:?}"),
    }
}
