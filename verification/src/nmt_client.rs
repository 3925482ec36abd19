//! An NMT client for one node: the commands sent to that node.
use vstd::prelude::*;
use crate::blocking::nmt_master::send_outcome;
use crate::can::{CanMessage, CanSender};
use crate::protocol::errors::MessageError;
use crate::protocol::nmt::{NmtCommand, NmtCommandSpecifier};
use crate::protocol::zencan_message::{classifiable, ZencanMessage};

verus! {

/// A client that commands the NMT state of one node, with the sender and receiver a driver uses.
pub struct NmtClient<S, R> {
    /// The sender of frames to the bus
    pub sender: S,
    /// The receiver of frames from the bus
    pub receiver: R,
    /// The node that is commanded
    pub node_id: u8,
    /// The frames handed to the sender, oldest first
    pub handed: Ghost<Seq<CanMessage>>,
}

impl<S, R> NmtClient<S, R> {
    /// Creates a client for a node.
    pub fn new(sender: S, receiver: R, node_id: u8) -> (r: Self)
        ensures
            r.sender == sender,
            r.receiver == receiver,
            r.node_id == node_id,
            r.handed@ == Seq::<CanMessage>::empty(),
    {
        NmtClient { sender, receiver, node_id, handed: Ghost(Seq::empty()) }
    }

    /// Returns the frame of an NMT command for the client's node.
    pub fn command_frame(&self, cs: NmtCommandSpecifier) -> (r: CanMessage)
        ensures
            r == (NmtCommand { cs, node: self.node_id }).spec_to_message(),
    {
        CanMessage::from(NmtCommand { cs, node: self.node_id })
    }
}

impl<S: CanSender, R> NmtClient<S, R> {
    /// Hands the frame of NMT command `cs` for the client's node to the sender; `Err` when the
    /// sender refused it.
    fn send_nmt_cmd(&mut self, cs: NmtCommandSpecifier) -> (r: Result<(), ()>)
        ensures
            final(self).node_id == old(self).node_id,
            final(self).handed@ == old(self).handed@.push((NmtCommand { cs, node: old(self).node_id }).spec_to_message()),
    {
        let frame = self.command_frame(cs);
        proof {
            self.handed@ = self.handed@.push(frame);
        }
        let sent = self.sender.send(frame);
        send_outcome(sent)
    }

    /// Hands the application reset command for the client's node to the sender; `Err` when the
    /// sender refused it.
    pub fn nmt_reset_app(&mut self) -> (r: Result<(), ()>)
        ensures
            final(self).node_id == old(self).node_id,
            final(self).handed@ == old(self).handed@.push(
                (NmtCommand { cs: NmtCommandSpecifier::ResetApp, node: old(self).node_id }).spec_to_message(),
            ),
    {
        self.send_nmt_cmd(NmtCommandSpecifier::ResetApp)
    }

    /// Hands the communications reset command for the client's node to the sender; `Err` when the
    /// sender refused it.
    pub fn nmt_reset_comms(&mut self) -> (r: Result<(), ()>)
        ensures
            final(self).node_id == old(self).node_id,
            final(self).handed@ == old(self).handed@.push(
                (NmtCommand { cs: NmtCommandSpecifier::ResetComm, node: old(self).node_id }).spec_to_message(),
            ),
    {
        self.send_nmt_cmd(NmtCommandSpecifier::ResetComm)
    }

    /// Hands the start command for the client's node to the sender; `Err` when the
    /// sender refused it.
    pub fn nmt_start(&mut self) -> (r: Result<(), ()>)
        ensures
            final(self).node_id == old(self).node_id,
            final(self).handed@ == old(self).handed@.push(
                (NmtCommand { cs: NmtCommandSpecifier::Start, node: old(self).node_id }).spec_to_message(),
            ),
    {
        self.send_nmt_cmd(NmtCommandSpecifier::Start)
    }

    /// Hands the stop command for the client's node to the sender; `Err` when the
    /// sender refused it.
    pub fn nmt_stop(&mut self) -> (r: Result<(), ()>)
        ensures
            final(self).node_id == old(self).node_id,
            final(self).handed@ == old(self).handed@.push(
                (NmtCommand { cs: NmtCommandSpecifier::Stop, node: old(self).node_id }).spec_to_message(),
            ),
    {
        self.send_nmt_cmd(NmtCommandSpecifier::Stop)
    }

    /// Hands the pre-operational command for the client's node to the sender; `Err` when the
    /// sender refused it.
    pub fn nmt_preop(&mut self) -> (r: Result<(), ()>)
        ensures
            final(self).node_id == old(self).node_id,
            final(self).handed@ == old(self).handed@.push(
                (NmtCommand { cs: NmtCommandSpecifier::EnterPreOp, node: old(self).node_id }).spec_to_message(),
            ),
    {
        self.send_nmt_cmd(NmtCommandSpecifier::EnterPreOp)
    }
}

/// Where a wait for a heartbeat stands after a frame.
#[derive(Clone, Copy, Debug, PartialEq, Eq, Structural)]
pub enum HeartbeatWait {
    /// A heartbeat came: the wait is over
    Seen,
    /// Another standard message came: the wait goes on
    Waiting,
}

/// What a frame received while waiting for a heartbeat means: a heartbeat ends the wait,
/// another standard message lets it go on, and a frame that is no standard message ends it
/// with the error.
pub fn heartbeat_wait_step(msg: CanMessage) -> (r: Result<HeartbeatWait, MessageError>)
    requires
        classifiable(msg),
    ensures
        r == (match ZencanMessage::spec_try_from(msg) {
            Ok(ZencanMessage::Heartbeat(_)) => Ok::<HeartbeatWait, MessageError>(HeartbeatWait::Seen),
            Ok(_) => Ok(HeartbeatWait::Waiting),
            Err(e) => Err(e),
        }),
{
    match ZencanMessage::try_from(msg) {
        Ok(ZencanMessage::Heartbeat(_)) => Ok(HeartbeatWait::Seen),
        Ok(_) => Ok(HeartbeatWait::Waiting),
        Err(e) => Err(e),
    }
}

} // verus!
