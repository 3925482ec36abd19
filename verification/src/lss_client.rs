//! An LSS client bound to the identity of one node: the requests of each configuration command,
//! and what the node's answer to a command means.
use vstd::prelude::*;
use crate::can::CanMessage;
use crate::lss_master::LssError;
use crate::protocol::cob_id::{lss_req_id, lss_resp_id};
use crate::protocol::lss::{LssIdentity, LssRequest, LssResponse};
use crate::protocol::node_id::{accepted_node_id, NodeId};

verus! {

/// The command specifier of StoreConfiguration.
pub const STORE_CONFIGURATION_CS: u8 = 0x17;

/// An LSS client for the node with one identity, with the sender and receiver a driver uses.
pub struct LssClient<S, R> {
    /// The sender of frames to the bus
    pub sender: S,
    /// The receiver of frames from the bus
    pub receiver: R,
    /// The identity of the node the client configures
    pub identity: LssIdentity,
}

impl<S, R> LssClient<S, R> {
    /// Creates a client for the node with `identity`.
    pub fn new(sender: S, receiver: R, identity: LssIdentity) -> (r: Self)
        ensures
            r.sender == sender,
            r.receiver == receiver,
            r.identity == identity,
    {
        LssClient { sender, receiver, identity }
    }

    /// The requests that put the client's node into configuration mode, in order: all nodes to
    /// waiting, then the vendor, product, revision and serial of the identity. Only the last one
    /// is answered, by the node that recognized its identity (see
    /// [`configuration_mode_outcome`]).
    pub fn enter_configuration_mode(&self) -> (r: [LssRequest; 5])
        ensures
            r@ == seq![
                LssRequest::SwitchModeGlobal { mode: 0 },
                LssRequest::SwitchStateVendor { vendor_id: self.identity.vendor_id },
                LssRequest::SwitchStateProduct { product_code: self.identity.product_code },
                LssRequest::SwitchStateRevision { revision: self.identity.revision },
                LssRequest::SwitchStateSerial { serial: self.identity.serial },
            ],
    {
        let id = self.identity;
        let r = [
            LssRequest::SwitchModeGlobal { mode: 0 },
            LssRequest::SwitchStateVendor { vendor_id: id.vendor_id },
            LssRequest::SwitchStateProduct { product_code: id.product_code },
            LssRequest::SwitchStateRevision { revision: id.revision },
            LssRequest::SwitchStateSerial { serial: id.serial },
        ];
        assert(r@ =~= seq![
            LssRequest::SwitchModeGlobal { mode: 0 },
            LssRequest::SwitchStateVendor { vendor_id: id.vendor_id },
            LssRequest::SwitchStateProduct { product_code: id.product_code },
            LssRequest::SwitchStateRevision { revision: id.revision },
            LssRequest::SwitchStateSerial { serial: id.serial },
        ]);
        r
    }

    /// The request that puts every node, the client's one among them, back into waiting mode;
    /// it is not answered.
    pub fn exit_configuration_mode(&self) -> (r: LssRequest)
        ensures
            r == (LssRequest::SwitchModeGlobal { mode: 0 }),
    {
        LssRequest::SwitchModeGlobal { mode: 0 }
    }

    /// The request that sets entry `index` of baud rate table `table` (0 is the standard table)
    /// on the node in configuration mode; see [`baud_rate_outcome`].
    pub fn set_baud_rate(&self, table: u8, index: u8) -> (r: LssRequest)
        ensures
            r == (LssRequest::ConfigureBitTiming { table, index }),
    {
        LssRequest::ConfigureBitTiming { table, index }
    }

    /// The request that sets the node ID of the node in configuration mode, or
    /// `InvalidNodeIdError` for a value that is no node ID (1 to 127, or 255 for unconfigured);
    /// see [`node_id_outcome`].
    pub fn set_node_id(&self, node_id: u8) -> (r: Result<LssRequest, LssError>)
        ensures
            accepted_node_id(node_id) ==> r == Ok::<LssRequest, LssError>(LssRequest::ConfigureNodeId { node_id }),
            !accepted_node_id(node_id) ==> r == Err::<LssRequest, LssError>(LssError::InvalidNodeIdError),
    {
        match NodeId::new(node_id) {
            Ok(id) => Ok(LssRequest::ConfigureNodeId { node_id: id.raw() }),
            Err(_) => Err(LssError::InvalidNodeIdError),
        }
    }

    /// The frame that commands the node in configuration mode to store its configuration; see
    /// [`store_config_ack`] and [`store_config_outcome`].
    pub fn store_config(&self) -> (r: CanMessage)
        ensures
            r.id == lss_req_id(),
            r.wf(),
            r.payload() == seq![STORE_CONFIGURATION_CS, 0u8, 0u8, 0u8, 0u8, 0u8, 0u8, 0u8],
    {
        let data = [STORE_CONFIGURATION_CS, 0u8, 0u8, 0u8, 0u8, 0u8, 0u8, 0u8];
        let r = CanMessage::new(lss_req_id(), &data);
        assert(r.payload() =~= seq![STORE_CONFIGURATION_CS, 0u8, 0u8, 0u8, 0u8, 0u8, 0u8, 0u8]);
        r
    }

    /// The request that makes the configured baud rate active after `delay` milliseconds; it is
    /// not answered.
    pub fn activate_baud_rate(&self, delay: u16) -> (r: LssRequest)
        ensures
            r == (LssRequest::ActivateBitTiming { delay }),
    {
        LssRequest::ActivateBitTiming { delay }
    }
}

/// What the answer to the serial of an identity means: the node recognized its identity, or no
/// node did in time.
pub fn configuration_mode_outcome(resp: Option<LssResponse>) -> (r: Result<(), LssError>)
    ensures
        r == (if resp == Some(LssResponse::SwitchStateResponse) {
            Ok::<(), LssError>(())
        } else {
            Err::<(), LssError>(LssError::Timeout)
        }),
{
    match resp {
        Some(LssResponse::SwitchStateResponse) => Ok(()),
        _ => Err(LssError::Timeout),
    }
}

/// What the answer to a bit timing command means: an acknowledgement with error 0 accepts it,
/// another error code refuses it, and anything else counts as no answer.
pub fn baud_rate_outcome(resp: Option<LssResponse>) -> (r: Result<(), LssError>)
    ensures
        r == (match resp {
            Some(LssResponse::ConfigureBitTimingAck { error, spec_error }) => if error == 0 {
                Ok::<(), LssError>(())
            } else {
                Err(LssError::BitTimingConfigError { error, spec_error })
            },
            _ => Err(LssError::Timeout),
        }),
{
    match resp {
        Some(LssResponse::ConfigureBitTimingAck { error, spec_error }) => if error == 0 {
            Ok(())
        } else {
            Err(LssError::BitTimingConfigError { error, spec_error })
        },
        _ => Err(LssError::Timeout),
    }
}

/// What the answer to a node ID command means: an acknowledgement with error 0 accepts it,
/// another error code refuses it, and anything else counts as no answer.
pub fn node_id_outcome(resp: Option<LssResponse>) -> (r: Result<(), LssError>)
    ensures
        r == (match resp {
            Some(LssResponse::ConfigureNodeIdAck { error, spec_error }) => if error == 0 {
                Ok::<(), LssError>(())
            } else {
                Err(LssError::NodeIdConfigError { error, spec_error })
            },
            _ => Err(LssError::Timeout),
        }),
{
    match resp {
        Some(LssResponse::ConfigureNodeIdAck { error, spec_error }) => if error == 0 {
            Ok(())
        } else {
            Err(LssError::NodeIdConfigError { error, spec_error })
        },
        _ => Err(LssError::Timeout),
    }
}

/// The error code and manufacturer code of a frame that acknowledges StoreConfiguration: an LSS
/// response whose first byte is the command specifier, with at least three bytes.
pub fn store_config_ack(msg: &CanMessage) -> (r: Option<(u8, u8)>)
    requires
        msg.wf(),
    ensures
        r == (if msg.id == lss_resp_id() && msg.payload().len() >= 3 && msg.payload()[0] == STORE_CONFIGURATION_CS {
            Some((msg.payload()[1], msg.payload()[2]))
        } else {
            None
        }),
{
    let d = msg.data();
    if msg.id == lss_resp_id() && d.len() >= 3 && d[0] == STORE_CONFIGURATION_CS {
        Some((d[1], d[2]))
    } else {
        None
    }
}

/// What the acknowledgement of StoreConfiguration means: error 0 accepts it, another error code
/// refuses it, and none counts as no answer.
pub fn store_config_outcome(ack: Option<(u8, u8)>) -> (r: Result<(), LssError>)
    ensures
        r == (match ack {
            Some((error, spec_error)) => if error == 0 {
                Ok::<(), LssError>(())
            } else {
                Err(LssError::NodeStoreConfigError { error, spec_error })
            },
            None => Err(LssError::Timeout),
        }),
{
    match ack {
        Some((error, spec_error)) => if error == 0 {
            Ok(())
        } else {
            Err(LssError::NodeStoreConfigError { error, spec_error })
        },
        None => Err(LssError::Timeout),
    }
}

} // verus!
