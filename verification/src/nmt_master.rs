//! Tracking of the nodes on a bus from their heartbeats.
use vstd::prelude::*;
use std::time::Instant;
use crate::can::{CanId, CanMessage, CanReceiver};
use crate::protocol::nmt::NmtState;
use crate::protocol::zencan_message::{is_heartbeat_id, spec_heartbeat, ZencanMessage};
use crate::protocol::errors::MessageError;
use crate::protocol::heartbeat::Heartbeat;

verus! {

#[verifier::external_type_specification]
#[verifier::external_body]
pub struct ExInstant(std::time::Instant);

/// Calls `std::time::Instant::now`; nothing is stated of the time it returns.
#[verifier::external_body]
pub(crate) fn now() -> Instant {
    Instant::now()
}

/// The number of node slots: one for each node ID from 1 to 127.
pub const MAX_NODES: usize = 127;

/// A node detected on the bus.
#[derive(Copy, Clone, Debug)]
pub struct Node {
    /// The ID of the node; 0 marks an empty slot
    pub id: u8,
    /// The last NMT state reported by the node
    pub state: NmtState,
    /// The time when the last heartbeat was received from the node
    pub last_status: Instant,
    /// The toggle bit of the last heartbeat
    pub last_toggle: bool,
}

impl Default for Node {
    fn default() -> (r: Node)
        ensures
            r.id == 0,
            r.state == NmtState::Bootup,
            r.last_toggle,
    {
        Node { id: 0, state: NmtState::Bootup, last_status: now(), last_toggle: true }
    }
}

/// A heartbeat of `node` is recorded in slot `i`: the first that holds `node`, is empty, or
/// holds a higher ID.
pub open spec fn stops_at(nodes: Seq<Node>, node: u8, i: int) -> bool {
    nodes[i].id == node || nodes[i].id == 0 || nodes[i].id > node
}

/// Slot `i` is the first slot where a heartbeat of `node` stops.
pub open spec fn first_stop(nodes: Seq<Node>, node: u8, i: int) -> bool {
    &&& 0 <= i < nodes.len()
    &&& stops_at(nodes, node, i)
    &&& forall|k: int| 0 <= k < i ==> !stops_at(nodes, node, k)
}

/// The entry a heartbeat of `node` with `state` and `toggle` leaves in the table.
pub open spec fn heartbeat_entry(e: Node, node: u8, state: NmtState, toggle: bool) -> bool {
    e.id == node && e.state == state && e.last_toggle == toggle
}

/// `new` is `old` with slot `i` replaced and every other slot kept.
pub open spec fn replaced_at(old: Seq<Node>, new: Seq<Node>, i: int) -> bool {
    &&& new.len() == old.len()
    &&& forall|k: int| 0 <= k < old.len() && k != i ==> new[k] == old[k]
}

/// `new` is `old` with an entry put in slot `i`, the entries from there on moved one slot up
/// and the last one dropped.
pub open spec fn inserted_at(old: Seq<Node>, new: Seq<Node>, i: int) -> bool {
    &&& new.len() == old.len()
    &&& forall|k: int| 0 <= k < i ==> new[k] == old[k]
    &&& forall|k: int| i < k < old.len() ==> new[k] == old[k - 1]
}

/// Some slot stops a heartbeat of `node`, which is no empty-slot marker.
pub open spec fn heartbeat_stops(old: Seq<Node>, node: u8) -> bool {
    node != 0 && exists|i: int| 0 <= i < old.len() && stops_at(old, node, i)
}

/// `new` is `old` after a heartbeat of `node` with `state` and `toggle`. Node 0 marks an empty
/// slot, so its heartbeat changes nothing. Otherwise, at the slot where the heartbeat stops: a
/// slot that holds `node` takes the state and toggle; an empty slot or one with a higher ID
/// takes the node, and the entries from there on move one slot up (the last slot leaves).
/// Where no slot stops, nothing changes.
pub open spec fn heartbeat_recorded(old: Seq<Node>, new: Seq<Node>, node: u8, state: NmtState, toggle: bool) -> bool {
    &&& new.len() == old.len()
    &&& heartbeat_stops(old, node) ==> exists|i: int|
        #![trigger first_stop(old, node, i)]
        first_stop(old, node, i) && heartbeat_entry(new[i], node, state, toggle)
            && (if old[i].id == node { replaced_at(old, new, i) } else { inserted_at(old, new, i) })
    &&& !heartbeat_stops(old, node) ==> new == old
}

/// The node table is in order: IDs from 1 to 127, ascending, with the empty slots last.
pub open spec fn table_wf(nodes: Seq<Node>) -> bool {
    &&& nodes.len() == MAX_NODES
    &&& forall|i: int| 0 <= i < nodes.len() ==> nodes[i].id <= 127
    &&& forall|i: int, j: int|
        0 <= i < j < nodes.len() && nodes[j].id != 0 ==> nodes[i].id != 0 && nodes[i].id < nodes[j].id
}

/// The first `n` slots hold nodes, and slot `n` is empty or past the end.
pub open spec fn listed(nodes: Seq<Node>, n: int) -> bool {
    &&& 0 <= n <= nodes.len()
    &&& forall|k: int| 0 <= k < n ==> nodes[k].id != 0
    &&& (n == nodes.len() || nodes[n].id == 0)
}

/// Returns a table of empty slots.
pub fn empty_table() -> (r: Vec<Node>)
    ensures
        r@.len() == MAX_NODES,
        forall|i: int| 0 <= i < r@.len() ==> r@[i].id == 0,
{
    let empty = Node::default();
    let mut nodes: Vec<Node> = Vec::new();
    let mut i: usize = 0;
    while i < MAX_NODES
        invariant
            i <= MAX_NODES,
            nodes@.len() == i,
            empty.id == 0,
            forall|k: int| 0 <= k < nodes@.len() ==> nodes@[k].id == 0,
        decreases MAX_NODES - i,
    {
        nodes.push(empty);
        i = i + 1;
    }
    nodes
}

/// Records a heartbeat in a node table: updates the node's entry, or inserts it before the
/// first higher node, moving the later entries up one slot.
pub fn record_heartbeat(nodes: &mut Vec<Node>, node: u8, state: NmtState, toggle: bool)
    ensures
        heartbeat_recorded(old(nodes)@, final(nodes)@, node, state, toggle),
{
    if node == 0 {
        return;
    }
    let n = nodes.len();
    let mut i: usize = 0;
    while i < n
        invariant
            i <= n,
            n == nodes@.len(),
            node != 0,
            nodes@ == old(nodes)@,
            forall|k: int| 0 <= k < i ==> !stops_at(nodes@, node, k),
        decreases n - i,
    {
        let id = nodes[i].id;
        if id == node {
            let mut entry = nodes[i];
            entry.last_status = now();
            entry.last_toggle = toggle;
            entry.state = state;
            nodes.set(i, entry);
            assert(stops_at(old(nodes)@, node, i as int));
            assert(heartbeat_stops(old(nodes)@, node));
            assert(first_stop(old(nodes)@, node, i as int));
            assert(heartbeat_entry(nodes@[i as int], node, state, toggle));
            assert(replaced_at(old(nodes)@, nodes@, i as int));
            return;
        } else if id == 0 || id > node {
            let mut j: usize = n - 1;
            while j > i
                invariant
                    i <= j < n,
                    n == nodes@.len(),
                    id == old(nodes)@[i as int].id,
                    forall|k: int| 0 <= k <= j ==> nodes@[k] == old(nodes)@[k],
                    forall|k: int| j < k < n ==> nodes@[k] == old(nodes)@[k - 1],
                decreases j,
            {
                let moved = nodes[j - 1];
                nodes.set(j, moved);
                j = j - 1;
            }
            nodes.set(i, Node { id: node, state, last_status: now(), last_toggle: toggle });
            assert(stops_at(old(nodes)@, node, i as int));
            assert(heartbeat_stops(old(nodes)@, node));
            assert(first_stop(old(nodes)@, node, i as int));
            assert(heartbeat_entry(nodes@[i as int], node, state, toggle));
            assert(inserted_at(old(nodes)@, nodes@, i as int));
            return;
        }
        i = i + 1;
    }
    assert(!heartbeat_stops(old(nodes)@, node));
}

/// Returns the number of listed nodes: the slots before the first empty one.
pub fn listed_count(nodes: &Vec<Node>) -> (n: usize)
    ensures
        listed(nodes@, n as int),
{
    let mut i: usize = 0;
    while i < nodes.len()
        invariant
            i <= nodes@.len(),
            forall|k: int| 0 <= k < i ==> nodes@[k].id != 0,
        decreases nodes@.len() - i,
    {
        if nodes[i].id == 0 {
            return i;
        }
        i = i + 1;
    }
    i
}

/// Returns the heartbeat carried by a frame on a heartbeat COB ID, as the frame classification
/// reads it; other frames give None.
pub fn heartbeat_of(msg: &CanMessage) -> (r: Option<Heartbeat>)
    ensures
        r matches Some(h) ==> is_heartbeat_id(msg.id) && spec_heartbeat(*msg) == Ok::<
            ZencanMessage,
            MessageError,
        >(ZencanMessage::Heartbeat(h)),
        r is None ==> !is_heartbeat_id(msg.id) || spec_heartbeat(*msg) is Err,
{
    let raw = msg.id.raw();
    if raw & 0xFFFF_FF80u32 != 0x700u32 {
        return None;
    }
    let node = (raw & 0x7fu32) as u8;
    let toggle = msg.data[0] & 0x80u8 != 0;
    match NmtState::try_from(msg.data[0] & 0x7fu8) {
        Ok(state) => Some(Heartbeat { node, toggle, state }),
        Err(_) => None,
    }
}

/// In a table in order, the IDs of two listed slots differ by at least their distance.
proof fn lemma_ids_gap(nodes: Seq<Node>, a: int, b: int)
    requires
        table_wf(nodes),
        0 <= a <= b < nodes.len(),
        nodes[b].id != 0,
    ensures
        nodes[b].id >= nodes[a].id + (b - a),
        nodes[a].id >= 1 + a,
    decreases b,
{
    if b > a {
        assert(nodes[b - 1].id != 0 && nodes[b - 1].id < nodes[b].id);
        lemma_ids_gap(nodes, a, b - 1);
    } else if a > 0 {
        assert(nodes[a - 1].id != 0 && nodes[a - 1].id < nodes[a].id);
        lemma_ids_gap(nodes, a - 1, a - 1);
    }
}

/// The node is listed in the table.
pub open spec fn lists(nodes: Seq<Node>, id: u8) -> bool {
    id != 0 && exists|i: int| 0 <= i < nodes.len() && nodes[i].id == id
}

/// The IDs listed in the table.
pub open spec fn listed_ids(nodes: Seq<Node>) -> Set<u8> {
    Set::new(|id: u8| lists(nodes, id))
}

/// Every entry of a node other than `node` in `a` is in `b`.
pub open spec fn others_kept(a: Seq<Node>, b: Seq<Node>, node: u8) -> bool {
    forall|j: int| 0 <= j < a.len() && a[j].id != 0 && a[j].id != node ==> exists|k: int|
        0 <= k < b.len() && #[trigger] b[k] == a[j]
}

/// Inserting `node` at the slot where its heartbeat stops, when the node is missing, keeps the
/// table in order and loses no listed node.
#[verifier::spinoff_prover]
#[verifier::rlimit(30)]
proof fn lemma_insert_in_order(old: Seq<Node>, new: Seq<Node>, node: u8, state: NmtState, toggle: bool, i: int)
    requires
        table_wf(old),
        1 <= node <= 127,
        first_stop(old, node, i),
        old[i].id != node,
        heartbeat_entry(new[i], node, state, toggle),
        inserted_at(old, new, i),
    ensures
        table_wf(new),
        others_kept(old, new, node),
        others_kept(new, old, node),
{
    let len = old.len() as int;
    if old[len - 1].id != 0 {
        assert(old[i].id != 0);
        lemma_ids_gap(old, i, len - 1);
        if i > 0 {
            assert(!stops_at(old, node, i - 1));
            lemma_ids_gap(old, i - 1, i - 1);
        }
        assert(false);
    }
    assert forall|a: int, b: int| 0 <= a < b < new.len() && new[b].id != 0 implies new[a].id != 0 && new[a].id
        < new[b].id by {
        if b == i {
            assert(!stops_at(old, node, a));
        } else if b > i {
            assert(new[b] == old[b - 1]);
            assert(old[b - 1].id != 0);
            if a < i {
                assert(new[a] == old[a]);
                assert(!stops_at(old, node, a));
            } else if a == i {
                if i < b - 1 {
                    assert(old[i].id != 0 && old[i].id < old[b - 1].id);
                }
            } else {
                assert(new[a] == old[a - 1]);
                assert(old[a - 1].id != 0 && old[a - 1].id < old[b - 1].id);
            }
        } else {
            assert(new[a] == old[a] && new[b] == old[b]);
        }
    }
    assert forall|j: int| 0 <= j < old.len() && old[j].id != 0 && old[j].id != node implies exists|k: int|
        0 <= k < new.len() && #[trigger] new[k] == old[j] by {
        if j < i {
            assert(new[j] == old[j]);
        } else {
            assert(j + 1 < len);
            assert(new[j + 1] == old[j]);
        }
    }
    assert forall|k: int| 0 <= k < new.len() && new[k].id != 0 && new[k].id != node implies exists|j: int|
        0 <= j < old.len() && #[trigger] old[j] == new[k] by {
        if k < i {
            assert(old[k] == new[k]);
        } else if k > i {
            assert(old[k - 1] == new[k]);
        }
    }
}

/// Listing follows from keeping the entries of the other nodes and holding `node`.
proof fn lemma_lists_from_kept(old: Seq<Node>, new: Seq<Node>, node: u8, i: int)
    requires
        node != 0,
        0 <= i < new.len(),
        new[i].id == node,
        others_kept(old, new, node),
        others_kept(new, old, node),
    ensures
        listed_ids(new) == listed_ids(old).insert(node),
{
    assert forall|id: u8| lists(new, id) <==> (lists(old, id) || id == node) by {
        if lists(old, id) && id != node {
            let j = choose|j: int| 0 <= j < old.len() && old[j].id == id;
            let k = choose|k: int| 0 <= k < new.len() && #[trigger] new[k] == old[j];
            assert(new[k].id == id);
        }
        if lists(new, id) && id != node {
            let k = choose|k: int| 0 <= k < new.len() && new[k].id == id;
            let j = choose|j: int| 0 <= j < old.len() && #[trigger] old[j] == new[k];
            assert(old[j].id == id);
        }
    }
    assert(listed_ids(new) =~= listed_ids(old).insert(node));
}

/// Recording a heartbeat of a node from 1 to 127 keeps the table in order; afterwards the
/// table lists the nodes it listed before and the node, each once (the table is in order), the
/// node with the state and toggle of the heartbeat and every other node with the entry it had.
#[verifier::spinoff_prover]
#[verifier::rlimit(30)]
pub proof fn lemma_heartbeat_recorded_in_order(
    old: Seq<Node>,
    new: Seq<Node>,
    node: u8,
    state: NmtState,
    toggle: bool,
)
    requires
        table_wf(old),
        heartbeat_recorded(old, new, node, state, toggle),
        1 <= node <= 127,
    ensures
        table_wf(new),
        exists|i: int| 0 <= i < new.len() && heartbeat_entry(new[i], node, state, toggle),
        listed_ids(new) == listed_ids(old).insert(node),
        others_kept(old, new, node),
        others_kept(new, old, node),
{
    if !heartbeat_stops(old, node) {
        assert forall|k: int| 0 <= k < old.len() implies old[k].id != 0 by {
            assert(!stops_at(old, node, k));
        }
        lemma_ids_gap(old, 126, 126);
        assert(stops_at(old, node, 126));
        assert(false);
    }
    let i = choose|i: int|
        #![trigger first_stop(old, node, i)]
        first_stop(old, node, i) && heartbeat_entry(new[i], node, state, toggle)
            && (if old[i].id == node { replaced_at(old, new, i) } else { inserted_at(old, new, i) });
    if old[i].id != node {
        lemma_insert_in_order(old, new, node, state, toggle, i);
    } else {
        assert forall|a: int, b: int| 0 <= a < b < new.len() && new[b].id != 0 implies new[a].id != 0 && new[a].id
            < new[b].id by {
            assert(old[a].id == new[a].id && old[b].id == new[b].id);
        }
        assert forall|j: int| 0 <= j < old.len() && old[j].id != 0 && old[j].id != node implies exists|k: int|
            0 <= k < new.len() && #[trigger] new[k] == old[j] by {
            assert(new[j] == old[j]);
        }
        assert forall|k: int| 0 <= k < new.len() && new[k].id != 0 && new[k].id != node implies exists|j: int|
            0 <= j < old.len() && #[trigger] old[j] == new[k] by {
            assert(old[k] == new[k]);
        }
    }
    lemma_lists_from_kept(old, new, node, i);
}

/// A frame on COB ID 0x700 plus a node ID below 128 is a heartbeat of that node whose first
/// byte holds the state code in its low seven bits and the toggle in its top bit: 0 Bootup,
/// 4 Stopped, 5 Operational, 127 PreOperational; any other code is no heartbeat.
pub proof fn lemma_heartbeat_frame_reads(msg: CanMessage, node: u8)
    requires
        node < 128,
        msg.id == CanId::Std((0x700 + node) as u16),
    ensures
        ({
            let code = msg.data[0] % 128;
            let toggle = msg.data[0] >= 128;
            &&& code == 0 ==> heartbeat_of_spec(msg) == Some(Heartbeat { node, toggle, state: NmtState::Bootup })
            &&& code == 4 ==> heartbeat_of_spec(msg) == Some(Heartbeat { node, toggle, state: NmtState::Stopped })
            &&& code == 5 ==> heartbeat_of_spec(msg) == Some(Heartbeat { node, toggle, state: NmtState::Operational })
            &&& code == 127 ==> heartbeat_of_spec(msg) == Some(
                Heartbeat { node, toggle, state: NmtState::PreOperational },
            )
            &&& !(code == 0 || code == 4 || code == 5 || code == 127) ==> heartbeat_of_spec(msg) is None
        }),
{
    let raw: u32 = (0x700 + node) as u32;
    assert(msg.id.spec_raw() == raw);
    assert(raw & 0xFFFF_FF80u32 == 0x700u32 && (raw & 0x7fu32) as u8 == node) by (bit_vector)
        requires
            raw == 0x700 + node,
            node < 128,
    ;
    let x = msg.data[0];
    assert((x & 0x7fu8) == x % 128 && ((x & 0x80u8) != 0) == (x >= 128)) by (bit_vector);
}

/// `after` is `before` after a master records a frame: a heartbeat is recorded, any other frame
/// leaves the table as it was.
pub open spec fn frame_recorded(before: Seq<Node>, after: Seq<Node>, msg: CanMessage) -> bool {
    match heartbeat_of_spec(msg) {
        Some(h) => heartbeat_recorded(before, after, h.node, h.state, h.toggle),
        None => after == before,
    }
}

/// The tables `tables` run from `before` to `after`, each the one before it with the next of
/// the frames recorded.
pub open spec fn recording_run(tables: Seq<Seq<Node>>, frames: Seq<CanMessage>) -> bool {
    &&& tables.len() == frames.len() + 1
    &&& forall|i: int| 0 <= i < frames.len() ==> #[trigger] frame_recorded(tables[i], tables[i + 1], frames[i])
}

/// `after` is `before` after a master records the frames, in order.
pub open spec fn frames_recorded(before: Seq<Node>, after: Seq<Node>, frames: Seq<CanMessage>) -> bool {
    exists|tables: Seq<Seq<Node>>|
        #[trigger] recording_run(tables, frames) && tables[0] == before && tables[frames.len() as int] == after
}

/// Recording no frame leaves the table.
pub proof fn lemma_frames_recorded_none(table: Seq<Node>)
    ensures
        frames_recorded(table, table, Seq::empty()),
{
    let tables = seq![table];
    assert(recording_run(tables, Seq::<CanMessage>::empty()));
}

/// Recording one more frame after some frames is recording them all.
pub proof fn lemma_frames_recorded_push(
    before: Seq<Node>,
    mid: Seq<Node>,
    after: Seq<Node>,
    frames: Seq<CanMessage>,
    msg: CanMessage,
)
    requires
        frames_recorded(before, mid, frames),
        frame_recorded(mid, after, msg),
    ensures
        frames_recorded(before, after, frames.push(msg)),
{
    let tables = choose|tables: Seq<Seq<Node>>|
        #[trigger] recording_run(tables, frames) && tables[0] == before && tables[frames.len() as int] == mid;
    let all = frames.push(msg);
    let ts = tables.push(after);
    assert forall|i: int| 0 <= i < all.len() implies #[trigger] frame_recorded(ts[i], ts[i + 1], all[i]) by {
        if i < frames.len() {
            assert(frame_recorded(tables[i], tables[i + 1], frames[i]));
        }
    }
    assert(recording_run(ts, all));
}

/// The frame is a heartbeat of node `id`.
pub open spec fn heartbeat_from(msg: CanMessage, id: u8) -> bool {
    heartbeat_of_spec(msg) matches Some(h) && h.node == id
}

/// The nodes whose heartbeats are among the first `n` frames (node 0 marks no node).
pub open spec fn heard_upto(frames: Seq<CanMessage>, n: int) -> Set<u8> {
    Set::new(|id: u8| id != 0 && exists|i: int| 0 <= i < n && #[trigger] heartbeat_from(frames[i], id))
}

/// The nodes whose heartbeats are among the frames.
pub open spec fn heard(frames: Seq<CanMessage>) -> Set<u8> {
    heard_upto(frames, frames.len() as int)
}

/// A heartbeat names a node from 0 to 127.
proof fn lemma_heartbeat_node_bounded(msg: CanMessage)
    ensures
        heartbeat_of_spec(msg) matches Some(h) ==> h.node <= 127,
{
    let raw = msg.id.spec_raw();
    assert(((raw & 0x7fu32) as u8) <= 127u8) by (bit_vector);
}

/// One recording step of a run: the frame `n - 1` adds its node, if it is a heartbeat.
#[verifier::spinoff_prover]
#[verifier::rlimit(30)]
proof fn lemma_step_lists(
    first: Set<u8>,
    before: Seq<Node>,
    after: Seq<Node>,
    frames: Seq<CanMessage>,
    n: int,
)
    requires
        1 <= n <= frames.len(),
        frame_recorded(before, after, frames[n - 1]),
        table_wf(before),
        listed_ids(before) == first.union(heard_upto(frames, n - 1)),
    ensures
        table_wf(after),
        listed_ids(after) == first.union(heard_upto(frames, n)),
{
    let m = frames[n - 1];
    lemma_heartbeat_node_bounded(m);
    match heartbeat_of_spec(m) {
        Some(h) => {
            assert(heartbeat_from(frames[n - 1], h.node));
            if h.node != 0 {
                lemma_heartbeat_recorded_in_order(before, after, h.node, h.state, h.toggle);
                assert(heard_upto(frames, n) =~= heard_upto(frames, n - 1).insert(h.node));
            } else {
                assert(!heartbeat_stops(before, 0));
                assert(heard_upto(frames, n) =~= heard_upto(frames, n - 1));
            }
        },
        None => {
            assert(heard_upto(frames, n) =~= heard_upto(frames, n - 1));
        },
    }
    assert(listed_ids(after) =~= first.union(heard_upto(frames, n)));
}

/// Along a run of recordings from a table in order, every table is in order and lists the
/// nodes of the first table and the nodes heard so far.
proof fn lemma_run_lists(tables: Seq<Seq<Node>>, frames: Seq<CanMessage>, n: int)
    requires
        recording_run(tables, frames),
        table_wf(tables[0]),
        0 <= n <= frames.len(),
    ensures
        table_wf(tables[n]),
        listed_ids(tables[n]) == listed_ids(tables[0]).union(heard_upto(frames, n)),
    decreases n,
{
    if n == 0 {
        assert(listed_ids(tables[0]).union(heard_upto(frames, 0)) =~= listed_ids(tables[0]));
    } else {
        lemma_run_lists(tables, frames, n - 1);
        let k = n - 1;
        assert(frame_recorded(tables[k], tables[k + 1], frames[k]));
        lemma_step_lists(listed_ids(tables[0]), tables[k], tables[k + 1], frames, n);
    }
}

/// The last heartbeat of node `id` among the first `n` frames.
pub open spec fn last_heartbeat(frames: Seq<CanMessage>, n: int, id: u8) -> Option<Heartbeat>
    decreases n,
{
    if n <= 0 {
        None
    } else if heartbeat_from(frames[n - 1], id) {
        heartbeat_of_spec(frames[n - 1])
    } else {
        last_heartbeat(frames, n - 1, id)
    }
}

/// Every listed entry of `after` holds the state and toggle of the last heartbeat of its node
/// among the first `n` frames, or, for a node not heard, is an entry of `before`.
pub open spec fn entries_follow(before: Seq<Node>, after: Seq<Node>, frames: Seq<CanMessage>, n: int) -> bool {
    forall|k: int|
        0 <= k < after.len() && after[k].id != 0 ==> match #[trigger] last_heartbeat(frames, n, after[k].id) {
            Some(h) => after[k].state == h.state && after[k].last_toggle == h.toggle,
            None => exists|j: int| 0 <= j < before.len() && before[j] == after[k],
        }
}

/// A recorded heartbeat of a node keeps the entries following the frames.
#[verifier::rlimit(30)]
proof fn lemma_heartbeat_entries(
    first: Seq<Node>,
    before: Seq<Node>,
    after: Seq<Node>,
    frames: Seq<CanMessage>,
    n: int,
    h: Heartbeat,
)
    requires
        1 <= n <= frames.len(),
        heartbeat_of_spec(frames[n - 1]) == Some(h),
        1 <= h.node <= 127,
        heartbeat_recorded(before, after, h.node, h.state, h.toggle),
        table_wf(before),
        entries_follow(first, before, frames, n - 1),
    ensures
        entries_follow(first, after, frames, n),
{
    lemma_heartbeat_recorded_in_order(before, after, h.node, h.state, h.toggle);
    let i = choose|i: int| 0 <= i < after.len() && heartbeat_entry(after[i], h.node, h.state, h.toggle);
    assert forall|k: int| 0 <= k < after.len() && after[k].id != 0 implies match #[trigger] last_heartbeat(
        frames,
        n,
        after[k].id,
    ) {
        Some(g) => after[k].state == g.state && after[k].last_toggle == g.toggle,
        None => exists|j: int| 0 <= j < first.len() && first[j] == after[k],
    } by {
        lemma_entry_after_heartbeat(first, before, after, frames, n, h, i, k);
    }
}

/// The entry in slot `k` after a recorded heartbeat follows the frames.
proof fn lemma_entry_after_heartbeat(
    first: Seq<Node>,
    before: Seq<Node>,
    after: Seq<Node>,
    frames: Seq<CanMessage>,
    n: int,
    h: Heartbeat,
    i: int,
    k: int,
)
    requires
        1 <= n <= frames.len(),
        heartbeat_of_spec(frames[n - 1]) == Some(h),
        table_wf(after),
        0 <= i < after.len(),
        heartbeat_entry(after[i], h.node, h.state, h.toggle),
        0 <= k < after.len(),
        after[k].id != 0,
        others_kept(after, before, h.node),
        entries_follow(first, before, frames, n - 1),
    ensures
        match last_heartbeat(frames, n, after[k].id) {
            Some(g) => after[k].state == g.state && after[k].last_toggle == g.toggle,
            None => exists|j: int| 0 <= j < first.len() && first[j] == after[k],
        },
{
    let id = after[k].id;
    if id == h.node {
        if k < i {
            assert(after[k].id < after[i].id);
        } else if i < k {
            assert(after[i].id < after[k].id);
        }
        assert(heartbeat_from(frames[n - 1], id));
    } else {
        let j = choose|j: int| 0 <= j < before.len() && #[trigger] before[j] == after[k];
        assert(!heartbeat_from(frames[n - 1], id));
        assert(before[j].id == id);
        match last_heartbeat(frames, n - 1, before[j].id) {
            Some(g) => {},
            None => {
                let q = choose|q: int| 0 <= q < first.len() && first[q] == before[j];
                assert(first[q] == after[k]);
            },
        }
    }
}

/// A frame that records nothing keeps the entries following the frames.
proof fn lemma_unchanged_entries(first: Seq<Node>, table: Seq<Node>, frames: Seq<CanMessage>, n: int)
    requires
        1 <= n <= frames.len(),
        heartbeat_of_spec(frames[n - 1]) matches Some(h) ==> h.node == 0,
        entries_follow(first, table, frames, n - 1),
    ensures
        entries_follow(first, table, frames, n),
{
    assert forall|k: int| 0 <= k < table.len() && table[k].id != 0 implies #[trigger] last_heartbeat(
        frames,
        n,
        table[k].id,
    ) == last_heartbeat(frames, n - 1, table[k].id) by {
        assert(!heartbeat_from(frames[n - 1], table[k].id));
    }
}

/// One recording step keeps the entries following the frames.
proof fn lemma_step_entries(
    first: Seq<Node>,
    before: Seq<Node>,
    after: Seq<Node>,
    frames: Seq<CanMessage>,
    n: int,
)
    requires
        1 <= n <= frames.len(),
        frame_recorded(before, after, frames[n - 1]),
        table_wf(before),
        entries_follow(first, before, frames, n - 1),
    ensures
        entries_follow(first, after, frames, n),
{
    let m = frames[n - 1];
    lemma_heartbeat_node_bounded(m);
    match heartbeat_of_spec(m) {
        Some(h) => {
            if h.node != 0 {
                lemma_heartbeat_entries(first, before, after, frames, n, h);
            } else {
                assert(!heartbeat_stops(before, 0));
                lemma_unchanged_entries(first, before, frames, n);
            }
        },
        None => {
            lemma_unchanged_entries(first, before, frames, n);
        },
    }
}

/// Along a run of recordings from a table in order, the entries follow the frames so far.
proof fn lemma_run_entries(tables: Seq<Seq<Node>>, frames: Seq<CanMessage>, n: int)
    requires
        recording_run(tables, frames),
        table_wf(tables[0]),
        0 <= n <= frames.len(),
    ensures
        entries_follow(tables[0], tables[n], frames, n),
    decreases n,
{
    if n == 0 {
        assert forall|k: int| 0 <= k < tables[0].len() && tables[0][k].id != 0 implies match #[trigger] last_heartbeat(
            frames,
            0,
            tables[0][k].id,
        ) {
            Some(h) => tables[0][k].state == h.state && tables[0][k].last_toggle == h.toggle,
            None => exists|j: int| 0 <= j < tables[0].len() && tables[0][j] == tables[0][k],
        } by {
            assert(tables[0][k] == tables[0][k]);
        }
    } else {
        lemma_run_entries(tables, frames, n - 1);
        lemma_run_lists(tables, frames, n - 1);
        let k = n - 1;
        assert(frame_recorded(tables[k], tables[k + 1], frames[k]));
        lemma_step_entries(tables[0], tables[k], tables[k + 1], frames, n);
    }
}

/// Recording frames in a table in order keeps it in order, and afterwards the table lists the
/// nodes it listed before and every node heard in the frames, each once, in increasing ID
/// order; each node heard has the state and toggle of its last heartbeat, and each other node
/// the entry it had.
pub proof fn lemma_frames_list_heard(before: Seq<Node>, after: Seq<Node>, frames: Seq<CanMessage>)
    requires
        table_wf(before),
        frames_recorded(before, after, frames),
    ensures
        table_wf(after),
        listed_ids(after) == listed_ids(before).union(heard(frames)),
        entries_follow(before, after, frames, frames.len() as int),
{
    let tables = choose|tables: Seq<Seq<Node>>|
        #[trigger] recording_run(tables, frames) && tables[0] == before && tables[frames.len() as int] == after;
    lemma_run_lists(tables, frames, frames.len() as int);
    lemma_run_entries(tables, frames, frames.len() as int);
}

/// An NMT master that keeps the table of nodes seen on the bus.
pub struct NmtMaster<R> {
    /// The receiver of frames from the bus
    pub receiver: R,
    nodes: Vec<Node>,
    received: Ghost<Seq<CanMessage>>,
    drained: Ghost<bool>,
}

impl<R> NmtMaster<R> {
    /// The node table.
    pub closed spec fn table(&self) -> Seq<Node> {
        self.nodes@
    }

    /// The receiver.
    pub closed spec fn spec_receiver(&self) -> R {
        self.receiver
    }

    /// The frames this master has taken from its receiver, oldest first.
    pub closed spec fn received(&self) -> Seq<CanMessage> {
        self.received@
    }

    /// The last time this master asked its receiver for a frame, the receiver had none.
    pub closed spec fn drained(&self) -> bool {
        self.drained@
    }

    /// Creates a master with an empty node table.
    pub fn new(receiver: R) -> (r: Self)
        ensures
            r.table().len() == MAX_NODES,
            table_wf(r.table()),
            listed(r.table(), 0),
            r.spec_receiver() == receiver,
            r.received() == Seq::<CanMessage>::empty(),
            !r.drained(),
    {
        let nodes = empty_table();
        NmtMaster { receiver, nodes, received: Ghost(Seq::empty()), drained: Ghost(false) }
    }

    /// Records a frame: a heartbeat updates the node table; other frames are ignored.
    pub fn handle_message(&mut self, msg: CanMessage)
        ensures
            final(self).spec_receiver() == old(self).spec_receiver(),
            final(self).received() == old(self).received(),
            final(self).drained() == old(self).drained(),
            match heartbeat_of_spec(msg) {
                Some(h) => heartbeat_recorded(old(self).table(), final(self).table(), h.node, h.state, h.toggle),
                None => final(self).table() == old(self).table(),
            },
    {
        if let Some(h) = heartbeat_of(&msg) {
            record_heartbeat(&mut self.nodes, h.node, h.state, h.toggle);
        }
    }

    /// Returns the nodes recorded so far, without receiving: the slots before the first empty
    /// one.
    pub fn listed_nodes(&self) -> (r: &[Node])
        ensures
            listed(self.table(), r@.len() as int),
            r@ == self.table().take(r@.len() as int),
    {
        let n = listed_count(&self.nodes);
        let all = self.nodes.as_slice();
        let r = vstd::slice::slice_subrange(all, 0, n);
        assert(r@ =~= self.nodes@.take(n as int));
        r
    }
}

impl<R: CanReceiver> NmtMaster<R> {
    /// Receives and records every frame waiting in the receiver, until it has none (after at
    /// most 2^64 - 1 frames): the frames taken from the receiver are added to `received`, and
    /// the table afterwards is the table with those frames recorded in the order they came.
    /// Which frames come is the receiver's matter.
    pub fn process_rx(&mut self)
        ensures
            final(self).table().len() == old(self).table().len(),
            final(self).received().len() >= old(self).received().len(),
            final(self).received().take(old(self).received().len() as int) == old(self).received(),
            final(self).drained() || final(self).received().len() - old(self).received().len() == u64::MAX,
            frames_recorded(
                old(self).table(),
                final(self).table(),
                final(self).received().skip(old(self).received().len() as int),
            ),
    {
        let ghost n = self.table().len();
        let ghost start = self.table();
        let ghost start_received = self.received();
        let ghost mut taken: Seq<CanMessage> = Seq::empty();
        proof {
            lemma_frames_recorded_none(start);
        }
        let mut budget: u64 = u64::MAX;
        while budget > 0
            invariant
                self.table().len() == n,
                self.received() == start_received + taken,
                taken.len() + budget == u64::MAX,
                frames_recorded(start, self.table(), taken),
            ensures
                self.table().len() == n,
                self.received() == start_received + taken,
                self.drained() || taken.len() == u64::MAX,
                frames_recorded(start, self.table(), taken),
            decreases budget,
        {
            match self.receiver.try_recv() {
                Some(msg) => {
                    proof {
                        self.received@ = self.received@.push(msg);
                        self.drained@ = false;
                        assert(self.received@ == start_received + taken.push(msg));
                    }
                    let ghost mid = self.table();
                    self.handle_message(msg);
                    proof {
                        lemma_frames_recorded_push(start, mid, self.table(), taken, msg);
                        taken = taken.push(msg);
                    }
                },
                None => {
                    proof {
                        self.drained@ = true;
                    }
                    break;
                },
            }
            budget = budget - 1;
        }
        assert(self.received().take(start_received.len() as int) =~= start_received);
        assert(self.received().skip(start_received.len() as int) =~= taken);
    }

    /// Receives and records the waiting frames (as `process_rx`), then returns the nodes
    /// detected: the slots before the first empty one.
    pub fn get_nodes(&mut self) -> (r: &[Node])
        ensures
            final(self).table().len() == old(self).table().len(),
            final(self).received().len() >= old(self).received().len(),
            final(self).received().take(old(self).received().len() as int) == old(self).received(),
            final(self).drained() || final(self).received().len() - old(self).received().len() == u64::MAX,
            frames_recorded(
                old(self).table(),
                final(self).table(),
                final(self).received().skip(old(self).received().len() as int),
            ),
            listed(final(self).table(), r@.len() as int),
            r@ == final(self).table().take(r@.len() as int),
    {
        self.process_rx();
        self.listed_nodes()
    }
}

/// The heartbeat a frame carries: the frame is on a heartbeat COB ID and holds a valid state.
pub open spec fn heartbeat_of_spec(msg: CanMessage) -> Option<Heartbeat> {
    if is_heartbeat_id(msg.id) {
        match spec_heartbeat(msg) {
            Ok(ZencanMessage::Heartbeat(h)) => Some(h),
            _ => None,
        }
    } else {
        None
    }
}


/// The heartbeat frame of a node from 1 to 127, handled by a master whose table is in order,
/// leaves the table in order and lists the node with the heartbeat's state.
pub proof fn lemma_heartbeat_frame_lists_node(old: Seq<Node>, new: Seq<Node>, h: Heartbeat)
    requires
        table_wf(old),
        1 <= h.node <= 127,
        match heartbeat_of_spec(h.spec_to_message()) {
            Some(g) => heartbeat_recorded(old, new, g.node, g.state, g.toggle),
            None => new == old,
        },
    ensures
        table_wf(new),
        exists|i: int| 0 <= i < new.len() && new[i].id == h.node && new[i].state == h.state,
{
    crate::protocol::zencan_message::lemma_heartbeat_classified(h);
    assert(is_heartbeat_id(h.spec_to_message().id));
    assert(heartbeat_of_spec(h.spec_to_message()) == Some(h));
    lemma_heartbeat_recorded_in_order(old, new, h.node, h.state, h.toggle);
}

} // verus!
