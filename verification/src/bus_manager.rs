//! What a bus manager knows of the nodes it has seen, and how a node scan reads its outcome.
use vstd::prelude::*;
use std::collections::HashMap;
use std::time::Instant;
use crate::can::CanMessage;
use crate::nmt_master::{heartbeat_of, heartbeat_of_spec, now};
use crate::protocol::lss::LssIdentity;
use crate::protocol::nmt::NmtState;
use crate::protocol::node_id::{accepted_node_id, NodeId};
use crate::cli_values::{lossy_text, utf8_lossy};
use crate::object_model::object_ids;
use crate::sdo_client::SdoClientError;
use crate::le_bytes::le_u32;
use crate::sdo_ops::{asks_read, IdentityRead, ObjectAccess, OpStep};

verus! {

broadcast use vstd::std_specs::hash::group_hash_axioms;

/// What is known of a node on the bus.
#[derive(Debug)]
pub struct NodeInfo {
    /// The node ID
    pub node_id: u8,
    /// The identity, once read
    pub identity: Option<LssIdentity>,
    /// The device name, once read
    pub device_name: Option<String>,
    /// The software version, once read
    pub software_version: Option<String>,
    /// The hardware version, once read
    pub hardware_version: Option<String>,
    /// When the node was last seen
    pub last_seen: Instant,
    /// The last NMT state reported
    pub nmt_state: Option<NmtState>,
}

impl NodeInfo {
    /// Creates the record of a node of which nothing is known yet.
    pub fn new(node_id: u8) -> (r: NodeInfo)
        ensures
            r.node_id == node_id,
            r.identity is None,
            r.device_name is None,
            r.software_version is None,
            r.hardware_version is None,
            r.nmt_state is None,
    {
        NodeInfo {
            node_id,
            last_seen: now(),
            device_name: None,
            identity: None,
            software_version: None,
            hardware_version: None,
            nmt_state: None,
        }
    }

    /// Merges newer information: each part that `info` holds replaces the known one, the
    /// others stay; the node is marked as seen now.
    pub fn update(&mut self, info: &NodeInfo)
        ensures
            final(self).node_id == old(self).node_id,
            final(self).identity == (if info.identity is Some { info.identity } else { old(self).identity }),
            final(self).device_name == (if info.device_name is Some {
                info.device_name
            } else {
                old(self).device_name
            }),
            final(self).software_version == (if info.software_version is Some {
                info.software_version
            } else {
                old(self).software_version
            }),
            final(self).hardware_version == (if info.hardware_version is Some {
                info.hardware_version
            } else {
                old(self).hardware_version
            }),
            final(self).nmt_state == (if info.nmt_state is Some { info.nmt_state } else { old(self).nmt_state }),
    {
        if let Some(name) = &info.device_name {
            self.device_name = Some(name.clone());
        }
        if info.identity.is_some() {
            self.identity = info.identity;
        }
        if let Some(version) = &info.software_version {
            self.software_version = Some(version.clone());
        }
        if let Some(version) = &info.hardware_version {
            self.hardware_version = Some(version.clone());
        }
        if info.nmt_state.is_some() {
            self.nmt_state = info.nmt_state;
        }
        self.last_seen = now();
    }
}

impl Clone for NodeInfo {
    /// Copies every part, the texts by value.
    fn clone(&self) -> (r: Self)
        ensures
            r == *self,
    {
        let device_name = match &self.device_name {
            Some(t) => Some(t.clone()),
            None => None,
        };
        let software_version = match &self.software_version {
            Some(t) => Some(t.clone()),
            None => None,
        };
        let hardware_version = match &self.hardware_version {
            Some(t) => Some(t.clone()),
            None => None,
        };
        NodeInfo {
            node_id: self.node_id,
            identity: self.identity,
            device_name,
            software_version,
            hardware_version,
            last_seen: self.last_seen,
            nmt_state: self.nmt_state,
        }
    }
}

/// The number of slots of a node table: one for each 8-bit node ID.
pub const NODE_SLOTS: usize = 256;

/// The known nodes in slot order, skipping the empty slots.
pub open spec fn known_list(slots: Seq<Option<NodeInfo>>) -> Seq<NodeInfo>
    decreases slots.len(),
{
    if slots.len() == 0 {
        Seq::empty()
    } else {
        let rest = known_list(slots.drop_last());
        match slots.last() {
            Some(n) => rest.push(n),
            None => rest,
        }
    }
}

/// Slots where each node sits at the slot of its ID.
pub open spec fn slots_keyed(slots: Seq<Option<NodeInfo>>) -> bool {
    forall|k: int| 0 <= k < slots.len() ==> (#[trigger] slots[k] matches Some(n) ==> n.node_id == k)
}

/// Every node listed from keyed slots has an ID below the number of slots.
proof fn lemma_known_list_below(slots: Seq<Option<NodeInfo>>)
    requires
        slots_keyed(slots),
    ensures
        forall|i: int| 0 <= i < known_list(slots).len() ==> #[trigger] known_list(slots)[i].node_id < slots.len(),
    decreases slots.len(),
{
    if slots.len() > 0 {
        let init = slots.drop_last();
        assert(slots_keyed(init)) by {
            assert forall|k: int| 0 <= k < init.len() implies (#[trigger] init[k] matches Some(n) ==> n.node_id == k) by {
                assert(init[k] == slots[k]);
            }
        }
        lemma_known_list_below(init);
    }
}

/// The nodes listed from keyed slots are in increasing order of node ID.
proof fn lemma_known_list_sorted(slots: Seq<Option<NodeInfo>>)
    requires
        slots_keyed(slots),
    ensures
        forall|i: int, j: int|
            0 <= i < j < known_list(slots).len() ==> #[trigger] known_list(slots)[i].node_id < #[trigger] known_list(
                slots,
            )[j].node_id,
    decreases slots.len(),
{
    if slots.len() > 0 {
        let init = slots.drop_last();
        assert(slots_keyed(init)) by {
            assert forall|k: int| 0 <= k < init.len() implies (#[trigger] init[k] matches Some(n) ==> n.node_id == k) by {
                assert(init[k] == slots[k]);
            }
        }
        lemma_known_list_sorted(init);
        lemma_known_list_below(init);
        assert(slots.last() == slots[slots.len() - 1]);
    }
}

/// The node known under each 8-bit ID, in ID order: a slot for each ID, holding the node the
/// map has under that ID.
pub open spec fn map_slots(m: Map<u8, NodeInfo>) -> Seq<Option<NodeInfo>> {
    Seq::new(NODE_SLOTS as nat, |k: int| if m.contains_key(k as u8) { Some(m[k as u8]) } else { None })
}

/// The nodes a bus manager knows of, keyed by node ID.
pub struct KnownNodes {
    nodes: HashMap<u8, NodeInfo>,
}

impl KnownNodes {
    /// The known nodes by node ID.
    pub closed spec fn known(&self) -> Map<u8, NodeInfo> {
        self.nodes@
    }

    /// The known nodes as slots indexed by node ID.
    pub open spec fn slots(&self) -> Seq<Option<NodeInfo>> {
        map_slots(self.known())
    }

    /// Each node is known under its own ID.
    pub closed spec fn wf(&self) -> bool {
        forall|k: u8| #[trigger] self.nodes@.contains_key(k) ==> self.nodes@[k].node_id == k
    }

    /// A table in order has its slots keyed.
    proof fn lemma_slots_keyed(&self)
        requires
            self.wf(),
        ensures
            slots_keyed(self.slots()),
            self.slots().len() == NODE_SLOTS,
    {
        assert forall|k: int| 0 <= k < self.slots().len() implies (#[trigger] self.slots()[k] matches Some(n)
            ==> n.node_id == k) by {
            if self.nodes@.contains_key(k as u8) {
                assert((k as u8) as int == k);
            }
        }
    }

    /// Creates a table that knows of no node.
    pub fn new() -> (r: KnownNodes)
        ensures
            r.wf(),
            r.known() == Map::<u8, NodeInfo>::empty(),
            forall|k: int| 0 <= k < NODE_SLOTS ==> #[trigger] r.slots()[k] is None,
    {
        KnownNodes { nodes: HashMap::new() }
    }

    /// Records a frame: a heartbeat of a valid node ID makes the node known (with no state yet)
    /// the first time, and afterwards sets its state and marks it as seen now; other frames
    /// change nothing.
    pub fn on_heartbeat(&mut self, msg: &CanMessage)
        requires
            old(self).wf(),
        ensures
            final(self).wf(),
            match heartbeat_of_spec(*msg) {
                Some(h) if accepted_node_id(h.node) => {
                    &&& forall|k: int| 0 <= k < NODE_SLOTS && k != h.node ==> #[trigger] final(self).slots()[k] == old(self).slots()[k]
                    &&& match old(self).slots()[h.node as int] {
                        None => final(self).slots()[h.node as int] matches Some(n) && n.node_id == h.node
                            && n.identity is None && n.device_name is None && n.software_version is None
                            && n.hardware_version is None && n.nmt_state is None,
                        Some(o) => final(self).slots()[h.node as int] matches Some(n) && n == (NodeInfo {
                            nmt_state: Some(h.state),
                            last_seen: n.last_seen,
                            ..o
                        }),
                    }
                },
                _ => final(self).slots() == old(self).slots(),
            },
    {
        let h = match heartbeat_of(msg) {
            Some(h) => h,
            None => return,
        };
        let id = match NodeId::new(h.node) {
            Ok(id) => id,
            Err(_) => return,
        };
        let k: u8 = id.raw();
        let ghost before = self.nodes@;
        let slot = self.nodes.remove(&k);
        assert(self.nodes@ == before.remove(k));
        let updated = match slot {
            None => NodeInfo::new(k),
            Some(mut n) => {
                n.nmt_state = Some(h.state);
                n.last_seen = now();
                n
            },
        };
        self.nodes.insert(k, updated);
        assert(self.nodes@ == before.insert(k, updated));
        assert forall|j: int| 0 <= j < NODE_SLOTS && j != h.node implies #[trigger] self.slots()[j] == old(
            self,
        ).slots()[j] by {
            assert((j as u8) != k);
        }
    }

    /// Records a node found by a scan, in place of what was known of it.
    pub fn record(&mut self, node: NodeInfo)
        requires
            old(self).wf(),
        ensures
            final(self).wf(),
            final(self).known() == old(self).known().insert(node.node_id, node),
            final(self).slots() == old(self).slots().update(node.node_id as int, Some(node)),
    {
        let ghost n = node;
        let k = node.node_id;
        self.nodes.insert(k, node);
        assert(self.slots() =~= old(self).slots().update(n.node_id as int, Some(n))) by {
            assert forall|j: int| 0 <= j < NODE_SLOTS && j != n.node_id implies #[trigger] self.slots()[j] == old(
                self,
            ).slots()[j] by {
                assert((j as u8) != k);
            }
        }
    }

    /// Returns the known nodes in increasing order of node ID.
    pub fn node_list(&self) -> (r: Vec<NodeInfo>)
        requires
            self.wf(),
        ensures
            r@ == known_list(self.slots()),
            forall|i: int, j: int| 0 <= i < j < r@.len() ==> #[trigger] r@[i].node_id < #[trigger] r@[j].node_id,
    {
        let ghost slots = self.slots();
        let mut r: Vec<NodeInfo> = Vec::new();
        let mut i: usize = 0;
        while i < NODE_SLOTS
            invariant
                i <= NODE_SLOTS,
                slots == self.slots(),
                slots.len() == NODE_SLOTS,
                r@ == known_list(slots.take(i as int)),
            decreases NODE_SLOTS - i,
        {
            assert(slots.take(i as int + 1).drop_last() =~= slots.take(i as int));
            let k = i as u8;
            assert(k as int == i);
            match self.nodes.get(&k) {
                Some(n) => r.push(n.clone()),
                None => {},
            }
            i = i + 1;
        }
        assert(slots.take(slots.len() as int) =~= slots);
        proof {
            self.lemma_slots_keyed();
            lemma_known_list_sorted(slots);
        }
        r
    }
}

/// A node found by a bus scan.
#[derive(Clone, Copy, Debug, PartialEq, Eq, Structural)]
pub struct BusNode {
    /// The node ID (1-127)
    pub node_id: u8,
    /// The identity of the node
    pub identity: LssIdentity,
}

/// An error of a bus scan.
#[derive(Debug)]
pub enum ScannerError {
    /// A node answered but its identity could not be read
    IdentityReadFailed {
        /// The node
        node_id: u8,
        /// The SDO error
        source: SdoClientError,
    },
    /// Two nodes answered on the same node ID
    DuplicateNodeDetected {
        /// The node ID
        node_id: u8,
    },
    /// Unknown error
    UnknownError,
}

/// No frame was waiting.
#[derive(Clone, Copy, Debug, PartialEq, Eq, Structural)]
pub struct NoMsgError;

/// Reads the outcome of reading a node's identity during a scan: the node with its identity;
/// no node when nothing answered; a duplicate when the answers belonged to another request (two
/// nodes answer on one ID, so a later read finds the extra answer of an earlier one); any other
/// error as a failed read.
pub fn scan_outcome(node_id: u8, identity: Result<LssIdentity, SdoClientError>) -> (r: Result<
    Option<BusNode>,
    ScannerError,
>)
    ensures
        match identity {
            Ok(id) => r == Ok::<Option<BusNode>, ScannerError>(Some(BusNode { node_id, identity: id })),
            Err(SdoClientError::NoResponse) => r == Ok::<Option<BusNode>, ScannerError>(None),
            Err(SdoClientError::MismatchedObjectIndex { .. }) => r matches Err(
                ScannerError::DuplicateNodeDetected { node_id: n },
            ) && n == node_id,
            Err(e) => r matches Err(ScannerError::IdentityReadFailed { node_id: n, source }) && n == node_id
                && source == e,
        },
{
    match identity {
        Ok(id) => Ok(Some(BusNode { node_id, identity: id })),
        Err(SdoClientError::NoResponse) => Ok(None),
        Err(SdoClientError::MismatchedObjectIndex { .. }) => Err(ScannerError::DuplicateNodeDetected { node_id }),
        Err(e) => Err(ScannerError::IdentityReadFailed { node_id, source: e }),
    }
}

/// The stages of a node scan.
#[derive(Clone, Copy, Debug, PartialEq, Eq, Structural)]
pub enum ScanStage {
    /// Reading the identity (object 0x1018, subs 1 to 4)
    Identity,
    /// Reading the device name (object 0x1008)
    DeviceName,
    /// Reading the software version (object 0x100A)
    SoftwareVersion,
    /// Reading the hardware version (object 0x1009)
    HardwareVersion,
    /// Done
    Done,
}

/// Scans one node ID: reads the identity, the device name and the two versions. No answer to
/// the identity or the device name means there is no node; any other failed read leaves that
/// part unknown.
pub struct NodeScan {
    /// The node ID scanned
    pub node_id: u8,
    /// The stage
    pub stage: ScanStage,
    /// The read of the identity
    pub identity_read: IdentityRead,
    /// The identity, once read
    pub identity: Option<LssIdentity>,
    /// The device name, once read
    pub device_name: Option<String>,
    /// The software version, once read
    pub software_version: Option<String>,
}

/// The text of an uploaded string: `None` for a failed read.
pub open spec fn read_text(outcome: Result<Vec<u8>, SdoClientError>) -> Option<Seq<char>> {
    match outcome {
        Ok(b) => Some(utf8_lossy(b@)),
        Err(_) => None,
    }
}

/// An optional text has the view `t`.
pub open spec fn text_is(s: Option<String>, t: Option<Seq<char>>) -> bool {
    match (s, t) {
        (Some(a), Some(b)) => a@ == b,
        (None, None) => true,
        _ => false,
    }
}

impl NodeScan {
    /// The scan is consistent: the identity read is running while the identity is read.
    pub open spec fn wf(&self) -> bool {
        self.stage == ScanStage::Identity ==> self.identity_read.wf()
    }

    /// Starts scanning `node_id`: asks for sub 1 of the identity.
    pub fn start(node_id: u8) -> (r: (NodeScan, OpStep<Option<NodeInfo>>))
        ensures
            r.0.wf(),
            r.0.node_id == node_id,
            r.0.stage == ScanStage::Identity,
            r.0.identity_read.read_so_far() == Seq::<u32>::empty(),
            asks_read(r.1, object_ids::IDENTITY, 1),
    {
        let (identity_read, _) = IdentityRead::start();
        let step = OpStep::Access(ObjectAccess::Read { index: object_ids::IDENTITY, sub: 1 });
        let s = NodeScan {
            node_id,
            stage: ScanStage::Identity,
            identity_read,
            identity: None,
            device_name: None,
            software_version: None,
        };
        (s, step)
    }

    fn finish(&self, hardware_version: Option<String>) -> (r: OpStep<Option<NodeInfo>>)
        ensures
            r matches OpStep::Done(Ok(Some(n))) && n.node_id == self.node_id && n.identity == self.identity
                && n.device_name == self.device_name && n.software_version == self.software_version
                && n.hardware_version == hardware_version && n.nmt_state is None,
    {
        let device_name = match &self.device_name {
            Some(t) => Some(t.clone()),
            None => None,
        };
        let software_version = match &self.software_version {
            Some(t) => Some(t.clone()),
            None => None,
        };
        OpStep::Done(
            Ok(
                Some(
                    NodeInfo {
                        node_id: self.node_id,
                        identity: self.identity,
                        device_name,
                        software_version,
                        hardware_version,
                        nmt_state: None,
                        last_seen: now(),
                    },
                ),
            ),
        )
    }

    /// Reports the outcome of the last read, and returns the next step.
    pub fn on_read(&mut self, outcome: Result<Vec<u8>, SdoClientError>) -> (r: OpStep<Option<NodeInfo>>)
        requires
            old(self).wf(),
            old(self).stage != ScanStage::Done,
        ensures
            final(self).wf(),
            final(self).node_id == old(self).node_id,
            (match old(self).stage {
                ScanStage::Identity => match outcome {
                    Err(SdoClientError::NoResponse) => r == OpStep::<Option<NodeInfo>>::Done(Ok(None)),
                    Ok(b) if b@.len() == 4 && old(self).identity_read.read_so_far().len() < 3 => {
                        &&& final(self).stage == ScanStage::Identity
                        &&& final(self).identity_read.read_so_far() == old(self).identity_read.read_so_far().push(
                            le_u32(b@[0], b@[1], b@[2], b@[3]),
                        )
                        &&& asks_read(r, object_ids::IDENTITY, (old(self).identity_read.read_so_far().len() + 2) as u8)
                    },
                    Ok(b) if b@.len() == 4 => {
                        let s = old(self).identity_read.read_so_far();
                        &&& final(self).stage == ScanStage::DeviceName
                        &&& final(self).identity == Some(
                            LssIdentity {
                                vendor_id: s[0],
                                product_code: s[1],
                                revision: s[2],
                                serial: le_u32(b@[0], b@[1], b@[2], b@[3]),
                            },
                        )
                        &&& asks_read(r, object_ids::DEVICE_NAME, 0)
                    },
                    _ => final(self).stage == ScanStage::DeviceName && final(self).identity is None && asks_read(
                        r,
                        object_ids::DEVICE_NAME,
                        0,
                    ),
                },
                ScanStage::DeviceName => match outcome {
                    Err(SdoClientError::NoResponse) => r == OpStep::<Option<NodeInfo>>::Done(Ok(None)),
                    _ => final(self).stage == ScanStage::SoftwareVersion && text_is(final(self).device_name, read_text(outcome))
                        && final(self).identity == old(self).identity && asks_read(r, object_ids::SOFTWARE_VERSION, 0),
                },
                ScanStage::SoftwareVersion => final(self).stage == ScanStage::HardwareVersion
                    && text_is(final(self).software_version, read_text(outcome))
                    && final(self).identity == old(self).identity && final(self).device_name == old(self).device_name
                    && asks_read(r, object_ids::HARDWARE_VERSION, 0),
                ScanStage::HardwareVersion => final(self).stage == ScanStage::Done && (r matches OpStep::Done(Ok(Some(n)))
                    && n.node_id == old(self).node_id && n.identity == old(self).identity && n.device_name == old(self).device_name
                    && n.software_version == old(self).software_version && text_is(n.hardware_version, read_text(outcome))
                    && n.nmt_state is None),
                _ => true,
            }),
    {
        match self.stage {
            ScanStage::Identity => {
                let step = self.identity_read.on_read(outcome);
                match step {
                    OpStep::Access(a) => OpStep::Access(a),
                    OpStep::Done(Ok(id)) => {
                        self.identity = Some(id);
                        self.stage = ScanStage::DeviceName;
                        OpStep::Access(ObjectAccess::Read { index: object_ids::DEVICE_NAME, sub: 0 })
                    },
                    OpStep::Done(Err(SdoClientError::NoResponse)) => {
                        self.stage = ScanStage::Done;
                        OpStep::Done(Ok(None))
                    },
                    OpStep::Done(Err(_)) => {
                        self.identity = None;
                        self.stage = ScanStage::DeviceName;
                        OpStep::Access(ObjectAccess::Read { index: object_ids::DEVICE_NAME, sub: 0 })
                    },
                }
            },
            ScanStage::DeviceName => {
                match outcome {
                    Ok(b) => {
                        self.device_name = Some(lossy_text(b.as_slice()));
                    },
                    Err(SdoClientError::NoResponse) => {
                        self.stage = ScanStage::Done;
                        return OpStep::Done(Ok(None));
                    },
                    Err(_) => {
                        self.device_name = None;
                    },
                }
                self.stage = ScanStage::SoftwareVersion;
                OpStep::Access(ObjectAccess::Read { index: object_ids::SOFTWARE_VERSION, sub: 0 })
            },
            ScanStage::SoftwareVersion => {
                self.software_version = match outcome {
                    Ok(b) => Some(lossy_text(b.as_slice())),
                    Err(_) => None,
                };
                self.stage = ScanStage::HardwareVersion;
                OpStep::Access(ObjectAccess::Read { index: object_ids::HARDWARE_VERSION, sub: 0 })
            },
            ScanStage::HardwareVersion => {
                let hardware_version = match outcome {
                    Ok(b) => Some(lossy_text(b.as_slice())),
                    Err(_) => None,
                };
                self.stage = ScanStage::Done;
                self.finish(hardware_version)
            },
            ScanStage::Done => OpStep::Done(Ok(None)),
        }
    }
}

} // verus!
