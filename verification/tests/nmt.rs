use std::time::Duration;
use zencan::blocking::nmt_master::NmtMaster;
use zencan::can::{CanId, CanMessage, CanReceiver, CanSender};
use zencan::nmt_client::{heartbeat_wait_step, HeartbeatWait, NmtClient};
use zencan::nmt_master::{self as async_master, MAX_NODES};
use zencan::protocol::heartbeat::Heartbeat;
use zencan::protocol::nmt::{NmtCommandSpecifier, NmtState};

struct Recorder {
    sent: Vec<CanMessage>,
    refuse: bool,
}

impl CanSender for Recorder {
    fn send(&mut self, msg: CanMessage) -> Result<(), CanMessage> {
        if self.refuse {
            return Err(msg);
        }
        self.sent.push(msg);
        Ok(())
    }
}

struct Queue {
    frames: Vec<CanMessage>,
}

impl CanReceiver for Queue {
    type Error = ();
    fn try_recv(&mut self) -> Option<CanMessage> {
        if self.frames.is_empty() {
            None
        } else {
            Some(self.frames.remove(0))
        }
    }
    fn recv(&mut self, _timeout: Duration) -> Result<CanMessage, ()> {
        self.try_recv().ok_or(())
    }
}

fn heartbeat(node: u8, state: NmtState) -> CanMessage {
    CanMessage::from(Heartbeat { node, toggle: false, state })
}

fn master() -> NmtMaster<Recorder, Queue> {
    NmtMaster::new(Recorder { sent: Vec::new(), refuse: false }, Queue { frames: Vec::new() })
}

fn ids(m: &NmtMaster<Recorder, Queue>) -> Vec<u8> {
    m.listed_nodes().iter().map(|n| n.id).collect()
}

#[test]
fn new_master_lists_no_nodes() {
    let mut m = master();
    assert!(m.get_nodes().is_empty());
    assert_eq!(MAX_NODES, 127);
}

#[test]
fn heartbeats_are_listed_in_order_of_node_id() {
    let mut m = master();
    m.handle_message(heartbeat(5, NmtState::PreOperational));
    m.handle_message(heartbeat(3, NmtState::Operational));
    assert_eq!(ids(&m), vec![3, 5]);
    m.handle_message(heartbeat(9, NmtState::Stopped));
    assert_eq!(ids(&m), vec![3, 5, 9]);
    let nodes = m.get_nodes();
    assert_eq!(nodes[0].state, NmtState::Operational);
    assert_eq!(nodes[1].state, NmtState::PreOperational);
    assert_eq!(nodes[2].state, NmtState::Stopped);
}

#[test]
fn a_lower_node_is_inserted_before_higher_ones() {
    let mut m = master();
    m.handle_message(heartbeat(5, NmtState::Operational));
    m.handle_message(heartbeat(10, NmtState::Operational));
    m.handle_message(heartbeat(7, NmtState::Stopped));
    assert_eq!(ids(&m), vec![5, 7, 10]);
    m.handle_message(heartbeat(1, NmtState::Stopped));
    assert_eq!(ids(&m), vec![1, 5, 7, 10]);
    let nodes = m.get_nodes();
    assert_eq!(nodes[3].id, 10);
    assert_eq!(nodes[3].state, NmtState::Operational);
}

#[test]
fn a_full_bus_lists_every_node_once() {
    let mut m = master();
    for id in (1..=127u8).rev() {
        m.handle_message(heartbeat(id, NmtState::Operational));
    }
    let expected: Vec<u8> = (1..=127u8).collect();
    assert_eq!(ids(&m), expected);
}

#[test]
fn a_repeated_heartbeat_updates_the_state() {
    let mut m = master();
    m.handle_message(heartbeat(4, NmtState::PreOperational));
    m.handle_message(heartbeat(4, NmtState::Operational));
    let nodes = m.get_nodes();
    assert_eq!(nodes.len(), 1);
    assert_eq!(nodes[0].id, 4);
    assert_eq!(nodes[0].state, NmtState::Operational);
}

#[test]
fn other_frames_and_invalid_states_are_ignored() {
    let mut m = master();
    m.handle_message(CanMessage::new(CanId::standard(0x181), &[1, 2]));
    let mut bad = heartbeat(6, NmtState::Operational);
    bad.data[0] = 0x33;
    m.handle_message(bad);
    assert!(m.get_nodes().is_empty());
}

#[test]
fn nmt_commands_are_sent_to_the_node() {
    let mut m = master();
    assert_eq!(m.nmt_start(7), Ok(()));
    assert_eq!(m.nmt_stop(0), Ok(()));
    assert_eq!(m.nmt_reset_app(3), Ok(()));
    assert_eq!(m.nmt_reset_comms(4), Ok(()));
    let sent = &m.sender.sent;
    assert_eq!(sent.len(), 4);
    assert_eq!(sent[0].id(), CanId::standard(0));
    assert_eq!(sent[0].data(), &[1, 7]);
    assert_eq!(sent[1].data(), &[2, 0]);
    assert_eq!(sent[2].data(), &[129, 3]);
    assert_eq!(sent[3].data(), &[130, 4]);
}

#[test]
fn a_refused_frame_is_an_error() {
    let mut m = NmtMaster::new(Recorder { sent: Vec::new(), refuse: true }, Queue { frames: Vec::new() });
    assert_eq!(m.nmt_start(1), Err(()));
}

#[test]
fn async_side_master_tracks_heartbeats() {
    let mut m = async_master::NmtMaster::new(());
    m.handle_message(heartbeat(2, NmtState::Operational));
    assert_eq!(m.listed_nodes().len(), 1);
    assert_eq!(m.listed_nodes()[0].id, 2);
}

#[test]
fn get_nodes_records_the_waiting_frames_first() {
    let mut m = master();
    m.receiver.frames = vec![
        heartbeat(2, NmtState::Stopped),
        CanMessage::new(CanId::standard(0x181), &[1]),
        heartbeat(8, NmtState::Operational),
    ];
    let nodes = m.get_nodes();
    assert_eq!(nodes.iter().map(|n| n.id).collect::<Vec<_>>(), vec![2, 8]);
    assert!(m.receiver.frames.is_empty());
    let mut a = async_master::NmtMaster::new(Queue { frames: vec![heartbeat(4, NmtState::PreOperational)] });
    a.process_rx();
    assert_eq!(a.listed_nodes()[0].state, NmtState::PreOperational);
    assert_eq!(a.get_nodes().len(), 1);
}

#[test]
fn nmt_client_frames() {
    let client = NmtClient::new((), (), 12);
    let frame = client.command_frame(NmtCommandSpecifier::EnterPreOp);
    assert_eq!(frame.id(), CanId::standard(0));
    assert_eq!(frame.data(), &[128, 12]);
}

#[test]
fn nmt_client_sends_commands_to_its_node() {
    let mut client = NmtClient::new(Recorder { sent: Vec::new(), refuse: false }, (), 6);
    assert_eq!(client.nmt_start(), Ok(()));
    assert_eq!(client.nmt_stop(), Ok(()));
    assert_eq!(client.nmt_preop(), Ok(()));
    assert_eq!(client.nmt_reset_app(), Ok(()));
    assert_eq!(client.nmt_reset_comms(), Ok(()));
    let data: Vec<Vec<u8>> = client.sender.sent.iter().map(|m| m.data().to_vec()).collect();
    assert_eq!(data, vec![vec![1, 6], vec![2, 6], vec![128, 6], vec![129, 6], vec![130, 6]]);
    let mut refused = NmtClient::new(Recorder { sent: Vec::new(), refuse: true }, (), 6);
    assert_eq!(refused.nmt_start(), Err(()));
}

#[test]
fn waiting_for_a_heartbeat() {
    assert_eq!(heartbeat_wait_step(heartbeat(3, NmtState::Operational)), Ok(HeartbeatWait::Seen));
    let sync = CanMessage::new(CanId::standard(0x80), &[]);
    assert_eq!(heartbeat_wait_step(sync), Ok(HeartbeatWait::Waiting));
    let other = CanMessage::new(CanId::standard(0x181), &[1]);
    assert!(heartbeat_wait_step(other).is_err());
}

#[test]
fn a_heartbeat_of_node_zero_lists_nothing() {
    let mut m = master();
    m.handle_message(heartbeat(4, NmtState::Operational));
    m.handle_message(heartbeat(0, NmtState::Operational));
    assert_eq!(ids(&m), vec![4]);
}
