//! The NMT protocol: node states and state commands.
use vstd::prelude::*;
use crate::can::{CanId, CanMessage, zeros};
use super::cob_id::nmt_cmd_id;
use super::errors::MessageError;

verus! {

/// The NMT states of a node.
#[derive(Copy, Clone, Debug, PartialEq, Eq, Structural)]
pub enum NmtState {
    /// Bootup; a node passes through it into PreOperational at once
    Bootup,
    /// The node has been stopped
    Stopped,
    /// The normal operating state
    Operational,
    /// The node waits for a command to start operating
    PreOperational,
}

/// The error of converting a byte that names no NMT state.
#[derive(Clone, Copy, Debug, PartialEq, Eq, Structural)]
pub struct InvalidNmtStateError(pub u8);

impl NmtState {
    /// The byte that stands for the state on the bus.
    pub open spec fn spec_raw(self) -> u8 {
        match self {
            NmtState::Bootup => 0,
            NmtState::Stopped => 4,
            NmtState::Operational => 5,
            NmtState::PreOperational => 127,
        }
    }

    /// The state named by a byte, if any.
    pub open spec fn spec_from_raw(value: u8) -> Result<NmtState, InvalidNmtStateError> {
        if value == 0 {
            Ok(NmtState::Bootup)
        } else if value == 4 {
            Ok(NmtState::Stopped)
        } else if value == 5 {
            Ok(NmtState::Operational)
        } else if value == 127 {
            Ok(NmtState::PreOperational)
        } else {
            Err(InvalidNmtStateError(value))
        }
    }

    /// Returns the byte that stands for the state on the bus.
    pub fn raw(&self) -> (r: u8)
        ensures
            r == self.spec_raw(),
    {
        match self {
            NmtState::Bootup => 0,
            NmtState::Stopped => 4,
            NmtState::Operational => 5,
            NmtState::PreOperational => 127,
        }
    }

    /// The name of the state.
    pub open spec fn spec_name(self) -> Seq<char> {
        match self {
            NmtState::Bootup => "Bootup"@,
            NmtState::Stopped => "Stopped"@,
            NmtState::Operational => "Operational"@,
            NmtState::PreOperational => "PreOperational"@,
        }
    }

    /// Returns the name of the state.
    pub fn name(&self) -> (s: &'static str)
        ensures
            s@ == self.spec_name(),
    {
        match self {
            NmtState::Bootup => "Bootup",
            NmtState::Stopped => "Stopped",
            NmtState::Operational => "Operational",
            NmtState::PreOperational => "PreOperational",
        }
    }
}

impl TryFrom<u8> for NmtState {
    type Error = InvalidNmtStateError;

    fn try_from(value: u8) -> (r: Result<NmtState, InvalidNmtStateError>) {
        match value {
            0 => Ok(NmtState::Bootup),
            4 => Ok(NmtState::Stopped),
            5 => Ok(NmtState::Operational),
            127 => Ok(NmtState::PreOperational),
            _ => Err(InvalidNmtStateError(value)),
        }
    }
}

impl vstd::std_specs::convert::TryFromSpecImpl<u8> for NmtState {
    open spec fn obeys_try_from_spec() -> bool {
        true
    }

    open spec fn try_from_spec(value: u8) -> Result<NmtState, InvalidNmtStateError> {
        NmtState::spec_from_raw(value)
    }
}

/// Reading back the byte of a state gives the state.
pub proof fn lemma_nmt_state_roundtrip(state: NmtState)
    ensures
        NmtState::spec_from_raw(state.spec_raw()) == Ok::<NmtState, InvalidNmtStateError>(state),
{
}

/// The NMT state transition command specifier.
#[derive(Copy, Clone, Debug, PartialEq, Eq, Structural)]
pub enum NmtCommandSpecifier {
    /// Transition to Operational
    Start,
    /// Transition to Stopped
    Stop,
    /// Transition to PreOperational
    EnterPreOp,
    /// Reset the application
    ResetApp,
    /// Reset communications
    ResetComm,
}

impl NmtCommandSpecifier {
    /// The byte that stands for the command on the bus.
    pub open spec fn spec_raw(self) -> u8 {
        match self {
            NmtCommandSpecifier::Start => 1,
            NmtCommandSpecifier::Stop => 2,
            NmtCommandSpecifier::EnterPreOp => 128,
            NmtCommandSpecifier::ResetApp => 129,
            NmtCommandSpecifier::ResetComm => 130,
        }
    }

    /// The command named by a byte.
    pub open spec fn spec_from_byte(b: u8) -> Result<NmtCommandSpecifier, MessageError> {
        if b == 1 {
            Ok(NmtCommandSpecifier::Start)
        } else if b == 2 {
            Ok(NmtCommandSpecifier::Stop)
        } else if b == 128 {
            Ok(NmtCommandSpecifier::EnterPreOp)
        } else if b == 129 {
            Ok(NmtCommandSpecifier::ResetApp)
        } else if b == 130 {
            Ok(NmtCommandSpecifier::ResetComm)
        } else {
            Err(MessageError::InvalidField)
        }
    }

    /// Returns the byte that stands for the command on the bus.
    pub fn raw(&self) -> (r: u8)
        ensures
            r == self.spec_raw(),
    {
        match self {
            NmtCommandSpecifier::Start => 1,
            NmtCommandSpecifier::Stop => 2,
            NmtCommandSpecifier::EnterPreOp => 128,
            NmtCommandSpecifier::ResetApp => 129,
            NmtCommandSpecifier::ResetComm => 130,
        }
    }

    /// Creates the command from the byte transmitted in the message.
    pub fn from_byte(b: u8) -> (r: Result<NmtCommandSpecifier, MessageError>)
        ensures
            r == Self::spec_from_byte(b),
    {
        match b {
            1 => Ok(NmtCommandSpecifier::Start),
            2 => Ok(NmtCommandSpecifier::Stop),
            128 => Ok(NmtCommandSpecifier::EnterPreOp),
            129 => Ok(NmtCommandSpecifier::ResetApp),
            130 => Ok(NmtCommandSpecifier::ResetComm),
            _ => Err(MessageError::InvalidField),
        }
    }
}

/// An NMT command message.
#[derive(Clone, Copy, Debug, PartialEq, Eq, Structural)]
pub struct NmtCommand {
    /// The kind of command
    pub cs: NmtCommandSpecifier,
    /// The node it applies to; 0 addresses all nodes
    pub node: u8,
}

impl NmtCommand {
    /// The command carried by a frame.
    pub open spec fn spec_try_from(msg: CanMessage) -> Result<NmtCommand, MessageError> {
        if msg.id != nmt_cmd_id() {
            Err(MessageError::UnexpectedId { cob_id: msg.id, expected: nmt_cmd_id() })
        } else if msg.dlc >= 2 {
            match NmtCommandSpecifier::spec_from_byte(msg.data[0]) {
                Ok(cs) => Ok(NmtCommand { cs, node: msg.data[1] }),
                Err(e) => Err(e),
            }
        } else {
            Err(MessageError::MessageTooShort)
        }
    }

    /// The frame of a command.
    pub open spec fn spec_to_message(self) -> CanMessage {
        CanMessage {
            data: [self.cs.spec_raw(), self.node, 0, 0, 0, 0, 0, 0],
            dlc: 2,
            rtr: false,
            id: nmt_cmd_id(),
        }
    }

    /// Reads the command out of a frame.
    pub fn try_from(msg: CanMessage) -> (r: Result<NmtCommand, MessageError>)
        requires
            msg.wf(),
        ensures
            r == Self::spec_try_from(msg),
    {
        let payload = msg.data();
        if msg.id() != nmt_cmd_id() {
            Err(MessageError::UnexpectedId { cob_id: msg.id(), expected: nmt_cmd_id() })
        } else if payload.len() >= 2 {
            let cmd = NmtCommandSpecifier::from_byte(payload[0])?;
            let node = payload[1];
            Ok(NmtCommand { cs: cmd, node })
        } else {
            Err(MessageError::MessageTooShort)
        }
    }
}

impl From<NmtCommand> for CanMessage {
    fn from(cmd: NmtCommand) -> (msg: CanMessage) {
        let data = [cmd.cs.raw(), cmd.node, 0, 0, 0, 0, 0, 0];
        CanMessage { data, dlc: 2, rtr: false, id: nmt_cmd_id() }
    }
}

impl vstd::std_specs::convert::FromSpecImpl<NmtCommand> for CanMessage {
    open spec fn obeys_from_spec() -> bool {
        true
    }

    open spec fn from_spec(cmd: NmtCommand) -> CanMessage {
        cmd.spec_to_message()
    }
}

/// Reading a command out of its frame gives the command back.
pub proof fn lemma_nmt_command_roundtrip(cmd: NmtCommand)
    ensures
        NmtCommand::spec_try_from(cmd.spec_to_message()) == Ok::<NmtCommand, MessageError>(cmd),
{
}


/// The NMT command specifier under its older name.
pub type NmtCommandCmd = NmtCommandSpecifier;

/// The NMT state codes of CiA 301 on the bus: Bootup 0, Stopped 4, Operational 5,
/// PreOperational 127; a byte reads as a state exactly when it is one of these codes, and then
/// as the state with that code.
pub proof fn lemma_nmt_state_codes(b: u8)
    ensures
        NmtState::Bootup.spec_raw() == 0,
        NmtState::Stopped.spec_raw() == 4,
        NmtState::Operational.spec_raw() == 5,
        NmtState::PreOperational.spec_raw() == 127,
        NmtState::spec_from_raw(b) is Ok <==> (b == 0 || b == 4 || b == 5 || b == 127),
        NmtState::spec_from_raw(b) matches Ok(s) ==> s.spec_raw() == b,
        NmtState::spec_from_raw(b) matches Err(e) ==> e.0 == b,
{
}

/// The NMT command specifiers of CiA 301 on the bus: Start 1, Stop 2, EnterPreOp 128,
/// ResetApp 129, ResetComm 130; a byte reads as a command exactly when it is one of these, and
/// then as the command with that byte.
pub proof fn lemma_nmt_command_codes(b: u8)
    ensures
        NmtCommandSpecifier::Start.spec_raw() == 1,
        NmtCommandSpecifier::Stop.spec_raw() == 2,
        NmtCommandSpecifier::EnterPreOp.spec_raw() == 128,
        NmtCommandSpecifier::ResetApp.spec_raw() == 129,
        NmtCommandSpecifier::ResetComm.spec_raw() == 130,
        NmtCommandSpecifier::spec_from_byte(b) is Ok <==> (b == 1 || b == 2 || b == 128 || b == 129 || b == 130),
        NmtCommandSpecifier::spec_from_byte(b) matches Ok(c) ==> c.spec_raw() == b,
{
}

/// An NMT command frame is two bytes on COB ID 0: the command specifier, then the node.
pub proof fn lemma_nmt_command_frame(cmd: NmtCommand)
    ensures
        cmd.spec_to_message().id == CanId::Std(0),
        cmd.spec_to_message().dlc == 2,
        cmd.spec_to_message().data[0] == cmd.cs.spec_raw(),
        cmd.spec_to_message().data[1] == cmd.node,
{
}

} // verus!
