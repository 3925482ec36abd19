//! Node IDs.
use vstd::prelude::*;

verus! {

/// The node ID of a CANopen node: 1 to 127 for a configured node, 255 for an unconfigured one.
#[derive(Debug, Clone, Copy, PartialEq, Eq, Structural)]
pub enum NodeId {
    /// The node has no ID yet (255)
    Unconfigured,
    /// A configured node ID
    Configured(ConfiguredId),
}

/// A u8 that holds a valid node ID.
#[derive(Debug, Clone, Copy, PartialEq, Eq, Structural)]
pub struct ConfiguredId(u8);

/// The error of converting a u8 that is no valid node ID.
#[derive(Debug, Clone, Copy, PartialEq, Eq, Structural)]
pub struct InvalidNodeIdError;

/// The values of a configured node ID: 1 to 127.
pub open spec fn valid_configured_id(value: u8) -> bool {
    0 < value && value < 128
}

/// The values that `NodeId::new` accepts: a configured node ID, or 255 for an unconfigured node.
pub open spec fn accepted_node_id(value: u8) -> bool {
    valid_configured_id(value) || value == 255
}

impl ConfiguredId {
    /// The number held.
    pub closed spec fn spec_raw(self) -> u8 {
        self.0
    }

    /// Creates a ConfiguredId; fails unless the value is 1 to 127.
    pub fn new(value: u8) -> (r: Result<ConfiguredId, InvalidNodeIdError>)
        ensures
            r is Ok <==> valid_configured_id(value),
            r matches Ok(id) ==> id.spec_raw() == value,
    {
        if value > 0 && value < 128 {
            Ok(ConfiguredId(value))
        } else {
            Err(InvalidNodeIdError)
        }
    }

    /// Returns the node ID as a u8.
    pub fn raw(&self) -> (r: u8)
        ensures
            r == self.spec_raw(),
    {
        self.0
    }
}

impl NodeId {
    /// The node ID as a u8.
    pub open spec fn spec_raw(self) -> u8 {
        match self {
            NodeId::Unconfigured => 255,
            NodeId::Configured(id) => id.spec_raw(),
        }
    }

    /// Creates a NodeId from a u8; fails unless it is 1 to 127 or 255.
    pub fn new(value: u8) -> (r: Result<NodeId, InvalidNodeIdError>)
        ensures
            r is Ok <==> accepted_node_id(value),
            r matches Ok(id) ==> id.spec_raw() == value,
            r matches Ok(id) ==> (id is Unconfigured <==> value == 255),
    {
        if value == 255 {
            Ok(NodeId::Unconfigured)
        } else {
            match ConfiguredId::new(value) {
                Ok(id) => Ok(NodeId::Configured(id)),
                Err(e) => Err(e),
            }
        }
    }

    /// Returns the node ID as a u8.
    pub fn raw(&self) -> (r: u8)
        ensures
            r == self.spec_raw(),
    {
        match self {
            NodeId::Unconfigured => 255,
            NodeId::Configured(id) => id.0,
        }
    }

    /// Returns true for a configured node ID.
    pub fn is_configured(&self) -> (b: bool)
        ensures
            b == (*self is Configured),
    {
        match self {
            NodeId::Configured(_) => true,
            NodeId::Unconfigured => false,
        }
    }

    /// Returns true for the unconfigured node ID.
    pub fn is_unconfigured(&self) -> (b: bool)
        ensures
            b == (*self is Unconfigured),
    {
        match self {
            NodeId::Configured(_) => false,
            NodeId::Unconfigured => true,
        }
    }

    /// Converts a u8 without range checks: 255 is unconfigured, every other value configured.
    pub fn try_from(value: u8) -> (r: Result<NodeId, InvalidNodeIdError>)
        ensures
            r matches Ok(id) && id.spec_raw() == value,
            r matches Ok(id) && (id is Unconfigured <==> value == 255),
    {
        if value == 255 {
            Ok(NodeId::Unconfigured)
        } else {
            Ok(NodeId::Configured(ConfiguredId(value)))
        }
    }
}

/// The text of an InvalidNodeIdError.
impl InvalidNodeIdError {
    /// Describes the error.
    pub fn message(&self) -> (r: &'static str)
        ensures
            r@ == "Invalid node ID"@,
    {
        "Invalid node ID"
    }
}

} // verus!
