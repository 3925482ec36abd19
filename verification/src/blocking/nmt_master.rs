//! A blocking NMT master: the node table of the bus, and NMT commands sent to the nodes.
use vstd::prelude::*;
use crate::can::{CanMessage, CanReceiver, CanSender};
use crate::nmt_master::{
    empty_table, frames_recorded, heartbeat_of, heartbeat_of_spec, heartbeat_recorded, lemma_frames_recorded_none, lemma_frames_recorded_push,
    listed, listed_count, record_heartbeat, table_wf, Node, MAX_NODES,
};
use crate::protocol::nmt::{NmtCommand, NmtCommandSpecifier};

verus! {

/// The outcome of handing a frame to a sender: `Ok` when it took the frame.
pub fn send_outcome(r: Result<(), CanMessage>) -> (o: Result<(), ()>)
    ensures
        o is Ok <==> r is Ok,
{
    match r {
        Ok(()) => Ok(()),
        Err(_) => Err(()),
    }
}

/// A blocking NMT master which monitors the bus for heartbeats and commands state changes.
pub struct NmtMaster<S, R> {
    /// The sender of frames to the bus
    pub sender: S,
    /// The receiver of frames from the bus
    pub receiver: R,
    nodes: Vec<Node>,
    handed: Ghost<Seq<CanMessage>>,
    received: Ghost<Seq<CanMessage>>,
    drained: Ghost<bool>,
}

impl<S: CanSender, R: CanReceiver> NmtMaster<S, R> {
    /// The node table.
    pub closed spec fn table(&self) -> Seq<Node> {
        self.nodes@
    }

    /// The frames this master has handed to its sender, oldest first.
    pub closed spec fn handed(&self) -> Seq<CanMessage> {
        self.handed@
    }

    /// The sender.
    pub closed spec fn spec_sender(&self) -> S {
        self.sender
    }

    /// The receiver.
    pub closed spec fn spec_receiver(&self) -> R {
        self.receiver
    }

    /// The frames this master has taken from its receiver, oldest first.
    pub closed spec fn received(&self) -> Seq<CanMessage> {
        self.received@
    }

    /// The last time this master asked its receiver for a frame, the receiver had none.
    pub closed spec fn drained(&self) -> bool {
        self.drained@
    }

    /// Creates a master with an empty node table, keeping the sender and the receiver; it
    /// neither sends nor receives.
    pub fn new(sender: S, receiver: R) -> (r: Self)
        ensures
            r.spec_sender() == sender,
            r.spec_receiver() == receiver,
            r.table().len() == MAX_NODES,
            table_wf(r.table()),
            listed(r.table(), 0),
            r.handed() == Seq::<CanMessage>::empty(),
            r.received() == Seq::<CanMessage>::empty(),
            !r.drained(),
    {
        let nodes = empty_table();
        NmtMaster { sender, receiver, nodes, handed: Ghost(Seq::empty()), received: Ghost(Seq::empty()), drained: Ghost(false) }
    }

    /// Records a frame: a heartbeat updates the node table; other frames are ignored.
    pub fn handle_message(&mut self, msg: CanMessage)
        ensures
            final(self).spec_sender() == old(self).spec_sender(),
            final(self).spec_receiver() == old(self).spec_receiver(),
            final(self).handed() == old(self).handed(),
            final(self).received() == old(self).received(),
            final(self).drained() == old(self).drained(),
            match heartbeat_of_spec(msg) {
                Some(h) => heartbeat_recorded(old(self).table(), final(self).table(), h.node, h.state, h.toggle),
                None => final(self).table() == old(self).table(),
            },
    {
        if let Some(h) = heartbeat_of(&msg) {
            record_heartbeat(&mut self.nodes, h.node, h.state, h.toggle);
        }
    }

    /// Returns the nodes recorded so far, without receiving: the slots before the first empty
    /// one.
    pub fn listed_nodes(&self) -> (r: &[Node])
        ensures
            listed(self.table(), r@.len() as int),
            r@ == self.table().take(r@.len() as int),
    {
        let n = listed_count(&self.nodes);
        let all = self.nodes.as_slice();
        let r = vstd::slice::slice_subrange(all, 0, n);
        assert(r@ =~= self.nodes@.take(n as int));
        r
    }

    /// Hands the frame of NMT command `cs` for `node` (0 for all nodes) to the sender; `Err`
    /// when the sender refused it.
    fn send_nmt_cmd(&mut self, cs: NmtCommandSpecifier, node: u8) -> (r: Result<(), ()>)
        ensures
            final(self).table() == old(self).table(),
            final(self).received() == old(self).received(),
            final(self).handed() == old(self).handed().push((NmtCommand { cs, node }).spec_to_message()),
    {
        let frame = CanMessage::from(NmtCommand { cs, node });
        proof {
            self.handed@ = self.handed@.push(frame);
        }
        let sent = self.sender.send(frame);
        send_outcome(sent)
    }

    /// Hands the application reset command for `node` (0 for all nodes) to the sender; `Err` when
    /// the sender refused it.
    pub fn nmt_reset_app(&mut self, node: u8) -> (r: Result<(), ()>)
        ensures
            final(self).table() == old(self).table(),
            final(self).received() == old(self).received(),
            final(self).handed() == old(self).handed().push(
                (NmtCommand { cs: NmtCommandSpecifier::ResetApp, node }).spec_to_message(),
            ),
    {
        self.send_nmt_cmd(NmtCommandSpecifier::ResetApp, node)
    }

    /// Hands the communications reset command for `node` (0 for all nodes) to the sender; `Err` when
    /// the sender refused it.
    pub fn nmt_reset_comms(&mut self, node: u8) -> (r: Result<(), ()>)
        ensures
            final(self).table() == old(self).table(),
            final(self).received() == old(self).received(),
            final(self).handed() == old(self).handed().push(
                (NmtCommand { cs: NmtCommandSpecifier::ResetComm, node }).spec_to_message(),
            ),
    {
        self.send_nmt_cmd(NmtCommandSpecifier::ResetComm, node)
    }

    /// Hands the start command for `node` (0 for all nodes) to the sender; `Err` when
    /// the sender refused it.
    pub fn nmt_start(&mut self, node: u8) -> (r: Result<(), ()>)
        ensures
            final(self).table() == old(self).table(),
            final(self).received() == old(self).received(),
            final(self).handed() == old(self).handed().push(
                (NmtCommand { cs: NmtCommandSpecifier::Start, node }).spec_to_message(),
            ),
    {
        self.send_nmt_cmd(NmtCommandSpecifier::Start, node)
    }

    /// Hands the stop command for `node` (0 for all nodes) to the sender; `Err` when
    /// the sender refused it.
    pub fn nmt_stop(&mut self, node: u8) -> (r: Result<(), ()>)
        ensures
            final(self).table() == old(self).table(),
            final(self).received() == old(self).received(),
            final(self).handed() == old(self).handed().push(
                (NmtCommand { cs: NmtCommandSpecifier::Stop, node }).spec_to_message(),
            ),
    {
        self.send_nmt_cmd(NmtCommandSpecifier::Stop, node)
    }
}

impl<S: CanSender, R: CanReceiver> NmtMaster<S, R> {
    /// Receives and records every frame waiting in the receiver, until it has none (after at
    /// most 2^64 - 1 frames): the frames taken from the receiver are added to `received`, and
    /// the table afterwards is the table with those frames recorded in the order they came.
    /// Nothing is handed to the sender. Which frames come is the receiver's matter.
    pub fn process_rx(&mut self)
        ensures
            final(self).spec_sender() == old(self).spec_sender(),
            final(self).handed() == old(self).handed(),
            final(self).table().len() == old(self).table().len(),
            final(self).received().len() >= old(self).received().len(),
            final(self).received().take(old(self).received().len() as int) == old(self).received(),
            final(self).drained() || final(self).received().len() - old(self).received().len() == u64::MAX,
            frames_recorded(
                old(self).table(),
                final(self).table(),
                final(self).received().skip(old(self).received().len() as int),
            ),
    {
        let ghost n = self.table().len();
        let ghost start = self.table();
        let ghost start_received = self.received();
        let ghost mut taken: Seq<CanMessage> = Seq::empty();
        proof {
            lemma_frames_recorded_none(start);
        }
        let mut budget: u64 = u64::MAX;
        while budget > 0
            invariant
                self.spec_sender() == old(self).spec_sender(),
                self.handed() == old(self).handed(),
                self.table().len() == n,
                self.received() == start_received + taken,
                taken.len() + budget == u64::MAX,
                frames_recorded(start, self.table(), taken),
            ensures
                self.spec_sender() == old(self).spec_sender(),
                self.handed() == old(self).handed(),
                self.table().len() == n,
                self.received() == start_received + taken,
                self.drained() || taken.len() == u64::MAX,
                frames_recorded(start, self.table(), taken),
            decreases budget,
        {
            match self.receiver.try_recv() {
                Some(msg) => {
                    proof {
                        self.received@ = self.received@.push(msg);
                        self.drained@ = false;
                        assert(self.received@ == start_received + taken.push(msg));
                    }
                    let ghost mid = self.table();
                    self.handle_message(msg);
                    proof {
                        lemma_frames_recorded_push(start, mid, self.table(), taken, msg);
                        taken = taken.push(msg);
                    }
                },
                None => {
                    proof {
                        self.drained@ = true;
                    }
                    break;
                },
            }
            budget = budget - 1;
        }
        assert(self.received().take(start_received.len() as int) =~= start_received);
        assert(self.received().skip(start_received.len() as int) =~= taken);
    }

    /// Receives and records the waiting frames (as `process_rx`), then returns the nodes
    /// detected: the slots before the first empty one.
    pub fn get_nodes(&mut self) -> (r: &[Node])
        ensures
            final(self).spec_sender() == old(self).spec_sender(),
            final(self).handed() == old(self).handed(),
            final(self).table().len() == old(self).table().len(),
            final(self).received().len() >= old(self).received().len(),
            final(self).received().take(old(self).received().len() as int) == old(self).received(),
            final(self).drained() || final(self).received().len() - old(self).received().len() == u64::MAX,
            frames_recorded(
                old(self).table(),
                final(self).table(),
                final(self).received().skip(old(self).received().len() as int),
            ),
            listed(final(self).table(), r@.len() as int),
            r@ == final(self).table().take(r@.len() as int),
    {
        self.process_rx();
        self.listed_nodes()
    }
}

} // verus!
