//! Operations of an SDO client on the objects of a node: writing sequences of sub objects (a
//! PDO configuration, a COB ID, the save command, typed values), reading the identity, the
//! configuration of a PDO, and typed values.
//!
//! An operation asks for one access at a time; the caller performs it (as an SDO transfer) and
//! hands back the outcome, until the operation is done with its result or the first error. The
//! configuration of a PDO read back after it was configured is the configuration
//! (`lemma_configure_then_read_back`).
use vstd::prelude::*;
use crate::can::CanId;
use crate::le_bytes::{le_u16, le_u32, u32_le, u32_to_le};
use crate::object_model::object_ids;
use crate::object_model::pdo::{
    cob_word, lemma_pdo_config_readback, pdo_config_from, pdo_writes, rpdo_indices, spec_cob_word,
    spec_from_cob_word, spec_mapping_of, spec_pdo_writes, spec_rpdo_indices, spec_tpdo_indices, tpdo_indices,
    value_after, writes_to, written_value, ObjectWrite, PdoCommParameter, PdoConfig, PdoMapping,
};
use crate::object_model::time_types::{time_bytes, TimeDifference, TimeOfDay};
use crate::object_model::values::SAVE_CMD;
use crate::protocol::lss::LssIdentity;
use crate::cli_values::{lossy_text, utf8_lossy};
use crate::sdo_client::{
    decode_bool, decode_time_difference, decode_time_of_day, decode_u32, decode_u8, SdoClient, SdoClientError,
};

verus! {

/// A write of bytes to a sub object.
#[derive(Clone, Debug)]
pub struct RawWrite {
    /// The object index
    pub index: u16,
    /// The sub index
    pub sub: u8,
    /// The bytes written
    pub data: Vec<u8>,
}

/// A write as index, sub index and bytes.
pub open spec fn raw_view(w: RawWrite) -> (u16, u8, Seq<u8>) {
    (w.index, w.sub, w.data@)
}

/// The bytes an object write stores: one byte, or four little-endian bytes.
pub open spec fn object_write_bytes(w: ObjectWrite) -> (u16, u8, Seq<u8>) {
    match w {
        ObjectWrite::U8 { index, sub, value } => (index, sub, seq![value]),
        ObjectWrite::U32 { index, sub, value } => (index, sub, u32_le(value)),
    }
}

/// An access to a sub object that an operation asks for.
#[derive(Clone, Debug)]
pub enum ObjectAccess {
    /// Write these bytes, then report the outcome
    Write {
        /// The object index
        index: u16,
        /// The sub index
        sub: u8,
        /// The bytes
        data: Vec<u8>,
    },
    /// Read the sub object, then report the bytes or the error
    Read {
        /// The object index
        index: u16,
        /// The sub index
        sub: u8,
    },
}

/// What an operation asks for next.
#[derive(Debug)]
pub enum OpStep<T> {
    /// Perform this access and report its outcome
    Access(ObjectAccess),
    /// The operation is over
    Done(Result<T, SdoClientError>),
}

/// The step asks to write `w`.
pub open spec fn asks_write(step: OpStep<()>, w: (u16, u8, Seq<u8>)) -> bool {
    step matches OpStep::Access(ObjectAccess::Write { index, sub, data }) && (index, sub, data@) == w
}

/// The step asks to read sub object `index`/`sub`.
pub open spec fn asks_read<T>(step: OpStep<T>, index: u16, sub: u8) -> bool {
    step matches OpStep::Access(ObjectAccess::Read { index: i, sub: s }) && i == index && s == sub
}

/// `r` is a write sequence of `writes` that has just started: it asks for the first write, or
/// is done at once when there is none.
pub open spec fn write_started(r: (WriteSequence, OpStep<()>), writes: Seq<(u16, u8, Seq<u8>)>) -> bool {
    &&& r.0.wf()
    &&& r.0.writes() == writes
    &&& writes.len() > 0 ==> r.0.asked() == 1 && asks_write(r.1, writes[0])
    &&& writes.len() == 0 ==> r.1 matches OpStep::Done(Ok(()))
}

/// Writes sub objects in order, and stops at the first error.
pub struct WriteSequence {
    writes: Vec<RawWrite>,
    next: usize,
}

impl WriteSequence {
    /// The writes, as index, sub index and bytes.
    pub closed spec fn writes(&self) -> Seq<(u16, u8, Seq<u8>)> {
        Seq::new(self.writes@.len(), |i: int| raw_view(self.writes@[i]))
    }

    /// The number of writes asked for so far.
    pub closed spec fn asked(&self) -> nat {
        self.next as nat
    }

    /// The sequence is consistent.
    pub closed spec fn wf(&self) -> bool {
        self.next <= self.writes@.len()
    }

    fn ask(&mut self) -> (r: OpStep<()>)
        requires
            old(self).wf(),
        ensures
            final(self).wf(),
            final(self).writes() == old(self).writes(),
            old(self).asked() < old(self).writes().len() ==> final(self).asked() == old(self).asked() + 1
                && asks_write(r, old(self).writes()[old(self).asked() as int]),
            old(self).asked() == old(self).writes().len() ==> final(self).asked() == old(self).asked() && r
                matches OpStep::Done(Ok(())),
    {
        if self.next < self.writes.len() {
            let w = &self.writes[self.next];
            let data = vstd::slice::slice_to_vec(w.data.as_slice());
            let step = OpStep::Access(ObjectAccess::Write { index: w.index, sub: w.sub, data });
            self.next = self.next + 1;
            step
        } else {
            OpStep::Done(Ok(()))
        }
    }

    /// Starts writing the sub objects in order.
    pub fn start(writes: Vec<RawWrite>) -> (r: (WriteSequence, OpStep<()>))
        ensures
            write_started(r, Seq::new(writes@.len(), |i: int| raw_view(writes@[i]))),
    {
        let mut s = WriteSequence { writes, next: 0 };
        let step = s.ask();
        (s, step)
    }

    /// Starts a sequence of one write.
    fn single(index: u16, sub: u8, data: Vec<u8>) -> (r: (WriteSequence, OpStep<()>))
        ensures
            write_started(r, seq![(index, sub, data@)]),
    {
        let writes = vec![RawWrite { index, sub, data }];
        let r = WriteSequence::start(writes);
        assert(r.0.writes() =~= seq![(index, sub, data@)]);
        r
    }

    /// Reports the outcome of the last write: an error ends the sequence with it; otherwise the
    /// next write is asked for, or the sequence is done.
    pub fn on_written(&mut self, outcome: Result<(), SdoClientError>) -> (r: OpStep<()>)
        requires
            old(self).wf(),
        ensures
            final(self).wf(),
            final(self).writes() == old(self).writes(),
            (match outcome {
                Err(e) => r == OpStep::<()>::Done(Err(e)),
                Ok(_) => if old(self).asked() < old(self).writes().len() {
                    final(self).asked() == old(self).asked() + 1 && asks_write(
                        r,
                        old(self).writes()[old(self).asked() as int],
                    )
                } else {
                    r matches OpStep::Done(Ok(()))
                },
            }),
    {
        match outcome {
            Err(e) => OpStep::Done(Err(e)),
            Ok(()) => self.ask(),
        }
    }
}

/// Returns an object write as a write of bytes.
pub fn raw_write_of(w: ObjectWrite) -> (r: RawWrite)
    ensures
        raw_view(r) == object_write_bytes(w),
{
    match w {
        ObjectWrite::U8 { index, sub, value } => {
            let data = vec![value];
            assert(data@ =~= seq![value]);
            RawWrite { index, sub, data }
        },
        ObjectWrite::U32 { index, sub, value } => {
            let data = vstd::slice::slice_to_vec(&u32_to_le(value));
            RawWrite { index, sub, data }
        },
    }
}

/// Returns object writes as writes of bytes.
pub fn raw_writes_of(ws: &Vec<ObjectWrite>) -> (r: Vec<RawWrite>)
    ensures
        r@.len() == ws@.len(),
        forall|i: int| 0 <= i < ws@.len() ==> raw_view(#[trigger] r@[i]) == object_write_bytes(ws@[i]),
{
    let mut r: Vec<RawWrite> = Vec::new();
    let mut i: usize = 0;
    while i < ws.len()
        invariant
            i <= ws@.len(),
            r@.len() == i,
            forall|k: int| 0 <= k < i ==> raw_view(#[trigger] r@[k]) == object_write_bytes(ws@[k]),
        decreases ws@.len() - i,
    {
        r.push(raw_write_of(ws[i]));
        i = i + 1;
    }
    r
}

/// The stages of reading a PDO configuration.
#[derive(Clone, Copy, Debug, PartialEq, Eq, Structural)]
pub enum PdoReadStage {
    /// Reading the COB ID word (comm sub 1)
    CobId,
    /// Reading the transmission type (comm sub 2)
    TransmissionType,
    /// Reading the number of mappings (mapping sub 0)
    Count,
    /// Reading the mappings (mapping subs 1 to the count)
    Mappings,
    /// Done
    Done,
}

/// Reads the configuration of a PDO: COB ID word, transmission type, number of mappings, then
/// each mapping; a read of the wrong size or a failed read ends it with the error.
pub struct PdoConfigRead {
    /// The communication object index
    pub comm_index: u16,
    /// The mapping object index
    pub mapping_index: u16,
    /// The stage
    pub stage: PdoReadStage,
    /// The COB ID word read
    pub cob: u32,
    /// The transmission type read
    pub transmission_type: u8,
    /// The number of mappings read
    pub count: u8,
    /// The mapping values read so far
    pub values: Vec<u32>,
}

impl PdoConfigRead {
    /// The read is consistent: no mapping is read before the count, and no more than it.
    pub open spec fn wf(&self) -> bool {
        &&& self.values@.len() <= self.count
        &&& (self.stage == PdoReadStage::Mappings ==> self.values@.len() < self.count)
        &&& (self.stage == PdoReadStage::CobId || self.stage == PdoReadStage::TransmissionType
            || self.stage == PdoReadStage::Count ==> self.values@.len() == 0)
    }

    /// The configuration once all parts are read.
    pub open spec fn config_ok(&self, c: PdoConfig, values: Seq<u32>) -> bool {
        &&& c.comm == spec_from_cob_word(self.cob, self.transmission_type)
        &&& c.mappings@.len() == values.len()
        &&& forall|i: int| 0 <= i < values.len() ==> c.mappings@[i] == spec_mapping_of(#[trigger] values[i])
    }

    /// The read ended with an error because a value had the wrong size.
    pub open spec fn ends_wrong_size(new: PdoConfigRead, r: OpStep<PdoConfig>) -> bool {
        r matches OpStep::Done(Err(SdoClientError::UnexpectedSize)) && new.stage == PdoReadStage::Done
    }

    /// What reading the bytes `b` does in the stage of `prev`: the new state is `new` and the
    /// next step is `r`.
    pub open spec fn read_step(prev: PdoConfigRead, new: PdoConfigRead, b: Seq<u8>, r: OpStep<PdoConfig>) -> bool {
        match prev.stage {
            PdoReadStage::CobId => if b.len() == 4 {
                &&& new.cob == le_u32(b[0], b[1], b[2], b[3])
                &&& new.stage == PdoReadStage::TransmissionType
                &&& new.values@ == prev.values@
                &&& asks_read(r, prev.comm_index, 2)
            } else {
                Self::ends_wrong_size(new, r)
            },
            PdoReadStage::TransmissionType => if b.len() == 1 {
                &&& new.transmission_type == b[0]
                &&& new.cob == prev.cob
                &&& new.stage == PdoReadStage::Count
                &&& new.values@ == prev.values@
                &&& asks_read(r, prev.mapping_index, 0)
            } else {
                Self::ends_wrong_size(new, r)
            },
            PdoReadStage::Count => if b.len() == 1 {
                &&& new.count == b[0]
                &&& new.cob == prev.cob
                &&& new.transmission_type == prev.transmission_type
                &&& new.values@ == prev.values@
                &&& b[0] == 0 ==> new.stage == PdoReadStage::Done && (r matches OpStep::Done(Ok(c))
                    && new.config_ok(c, Seq::empty()))
                &&& b[0] > 0 ==> new.stage == PdoReadStage::Mappings && asks_read(r, prev.mapping_index, 1)
            } else {
                Self::ends_wrong_size(new, r)
            },
            PdoReadStage::Mappings => if b.len() == 4 {
                &&& new.values@ == prev.values@.push(le_u32(b[0], b[1], b[2], b[3]))
                &&& new.cob == prev.cob
                &&& new.transmission_type == prev.transmission_type
                &&& new.count == prev.count
                &&& new.values@.len() == prev.count ==> new.stage == PdoReadStage::Done && (r matches OpStep::Done(
                    Ok(c),
                ) && new.config_ok(c, new.values@))
                &&& new.values@.len() < prev.count ==> new.stage == PdoReadStage::Mappings && asks_read(
                    r,
                    prev.mapping_index,
                    (new.values@.len() + 1) as u8,
                )
            } else {
                Self::ends_wrong_size(new, r)
            },
            PdoReadStage::Done => false,
        }
    }

    /// Starts reading the configuration of the PDO with these objects.
    pub fn start(comm_index: u16, mapping_index: u16) -> (r: (PdoConfigRead, OpStep<PdoConfig>))
        ensures
            r.0.wf(),
            r.0.stage == PdoReadStage::CobId,
            r.0.comm_index == comm_index,
            r.0.mapping_index == mapping_index,
            asks_read(r.1, comm_index, 1),
    {
        let s = PdoConfigRead {
            comm_index,
            mapping_index,
            stage: PdoReadStage::CobId,
            cob: 0,
            transmission_type: 0,
            count: 0,
            values: Vec::new(),
        };
        (s, OpStep::Access(ObjectAccess::Read { index: comm_index, sub: 1 }))
    }

    fn finish(&self) -> (r: OpStep<PdoConfig>)
        ensures
            r matches OpStep::Done(Ok(c)) && self.config_ok(c, self.values@),
    {
        OpStep::Done(Ok(pdo_config_from(self.cob, self.transmission_type, self.values.as_slice())))
    }

    /// Reports the outcome of the last read, and returns the next step: an error ends the read
    /// with it; the bytes read advance the stage as `read_step` says.
    pub fn on_read(&mut self, outcome: Result<Vec<u8>, SdoClientError>) -> (r: OpStep<PdoConfig>)
        requires
            old(self).wf(),
            old(self).stage != PdoReadStage::Done,
        ensures
            final(self).wf(),
            final(self).comm_index == old(self).comm_index,
            final(self).mapping_index == old(self).mapping_index,
            (match outcome {
                Err(e) => r == OpStep::<PdoConfig>::Done(Err(e)) && final(self).stage == PdoReadStage::Done,
                Ok(b) => Self::read_step(*old(self), *final(self), b@, r),
            }),
    {
        let bytes = match outcome {
            Err(e) => {
                self.stage = PdoReadStage::Done;
                return OpStep::Done(Err(e));
            },
            Ok(b) => b,
        };
        match self.stage {
            PdoReadStage::CobId => match decode_u32(bytes.as_slice()) {
                Err(e) => {
                    self.stage = PdoReadStage::Done;
                    OpStep::Done(Err(e))
                },
                Ok(v) => {
                    self.cob = v;
                    self.stage = PdoReadStage::TransmissionType;
                    OpStep::Access(ObjectAccess::Read { index: self.comm_index, sub: 2 })
                },
            },
            PdoReadStage::TransmissionType => match decode_u8(bytes.as_slice()) {
                Err(e) => {
                    self.stage = PdoReadStage::Done;
                    OpStep::Done(Err(e))
                },
                Ok(v) => {
                    self.transmission_type = v;
                    self.stage = PdoReadStage::Count;
                    OpStep::Access(ObjectAccess::Read { index: self.mapping_index, sub: 0 })
                },
            },
            PdoReadStage::Count => match decode_u8(bytes.as_slice()) {
                Err(e) => {
                    self.stage = PdoReadStage::Done;
                    OpStep::Done(Err(e))
                },
                Ok(v) => {
                    self.count = v;
                    if v == 0 {
                        self.stage = PdoReadStage::Done;
                        self.finish()
                    } else {
                        self.stage = PdoReadStage::Mappings;
                        OpStep::Access(ObjectAccess::Read { index: self.mapping_index, sub: 1 })
                    }
                },
            },
            PdoReadStage::Mappings => match decode_u32(bytes.as_slice()) {
                Err(e) => {
                    self.stage = PdoReadStage::Done;
                    OpStep::Done(Err(e))
                },
                Ok(v) => {
                    self.values.push(v);
                    if self.values.len() == self.count as usize {
                        self.stage = PdoReadStage::Done;
                        self.finish()
                    } else {
                        let sub = (self.values.len() + 1) as u8;
                        OpStep::Access(ObjectAccess::Read { index: self.mapping_index, sub })
                    }
                },
            },
            PdoReadStage::Done => OpStep::Done(Err(SdoClientError::MalformedResponse)),
        }
    }
}

/// Reads the four words of the identity object (subs 1 to 4) and stops at the first error.
pub struct IdentityRead {
    values: Vec<u32>,
}

impl IdentityRead {
    /// The words read so far.
    pub closed spec fn read_so_far(&self) -> Seq<u32> {
        self.values@
    }

    /// A word is still to be read.
    pub open spec fn wf(&self) -> bool {
        self.read_so_far().len() < 4
    }

    /// Starts reading the identity: asks for sub 1.
    pub fn start() -> (r: (IdentityRead, OpStep<LssIdentity>))
        ensures
            r.0.wf(),
            r.0.read_so_far() == Seq::<u32>::empty(),
            asks_read(r.1, object_ids::IDENTITY, 1),
    {
        (IdentityRead { values: Vec::new() }, OpStep::Access(ObjectAccess::Read { index: object_ids::IDENTITY, sub: 1 }))
    }

    /// Reports the outcome of the last read: an error or a value that is not four bytes ends the
    /// read; the fourth word gives the identity; otherwise the next sub is asked for.
    pub fn on_read(&mut self, outcome: Result<Vec<u8>, SdoClientError>) -> (r: OpStep<LssIdentity>)
        requires
            old(self).wf(),
        ensures
            (match outcome {
                Err(e) => r == OpStep::<LssIdentity>::Done(Err(e)),
                Ok(b) => if b@.len() != 4 {
                    r == OpStep::<LssIdentity>::Done(Err(SdoClientError::UnexpectedSize))
                } else {
                    let v = le_u32(b@[0], b@[1], b@[2], b@[3]);
                    let s = old(self).read_so_far();
                    &&& final(self).read_so_far() == s.push(v)
                    &&& s.len() == 3 ==> r == OpStep::<LssIdentity>::Done(
                        Ok((LssIdentity { vendor_id: s[0], product_code: s[1], revision: s[2], serial: v })),
                    )
                    &&& s.len() < 3 ==> final(self).wf() && asks_read(r, object_ids::IDENTITY, (s.len() + 2) as u8)
                },
            }),
    {
        let bytes = match outcome {
            Err(e) => return OpStep::Done(Err(e)),
            Ok(b) => b,
        };
        match decode_u32(bytes.as_slice()) {
            Err(e) => OpStep::Done(Err(e)),
            Ok(v) => {
                self.values.push(v);
                if self.values.len() == 4 {
                    OpStep::Done(Ok(LssIdentity::new(self.values[0], self.values[1], self.values[2], self.values[3])))
                } else {
                    let sub = (self.values.len() + 1) as u8;
                    OpStep::Access(ObjectAccess::Read { index: object_ids::IDENTITY, sub })
                }
            },
        }
    }
}

/// The writes of object writes, as index, sub index and bytes.
pub open spec fn writes_bytes(ws: Seq<ObjectWrite>) -> Seq<(u16, u8, Seq<u8>)> {
    Seq::new(ws.len(), |i: int| object_write_bytes(ws[i]))
}

/// The communication object index of PDO `pdo_num` counted from `base` (its low 16 bits are
/// taken).
pub open spec fn pdo_comm_index(base: u16, pdo_num: usize) -> u16 {
    (base + pdo_num as u16) as u16
}

/// Returns the communication object index of PDO `pdo_num` counted from `base`.
fn comm_index_of(base: u16, pdo_num: usize) -> (r: u16)
    requires
        base as int + (pdo_num as u16) as int <= 0xffff,
    ensures
        r == pdo_comm_index(base, pdo_num),
{
    #[verifier::truncate]
    let n = pdo_num as u16;
    base + n
}

impl<S, R> SdoClient<S, R> {
    fn store_pdo_config(&self, comm_index: u16, mapping_index: u16, cfg: &PdoConfig) -> (r: (WriteSequence, OpStep<()>))
        requires
            cfg.mappings@.len() < 0x40,
        ensures
            write_started(r, writes_bytes(spec_pdo_writes(comm_index, mapping_index, cfg.comm, cfg.mappings@))),
    {
        let ws = pdo_writes(comm_index, mapping_index, cfg);
        let raw = raw_writes_of(&ws);
        let r = WriteSequence::start(raw);
        assert(r.0.writes() =~= writes_bytes(ws@));
        r
    }

    /// Configures transmit PDO `pdo_num` (objects 0x1800 and 0x1A00 plus the number): disables
    /// it, clears its mappings, writes the mappings and their number, then writes the
    /// communication parameters again if the configuration enables the PDO.
    pub fn configure_tpdo(&self, pdo_num: usize, cfg: &PdoConfig) -> (r: (WriteSequence, OpStep<()>))
        requires
            (pdo_num as u16) as int + 0x1a00 <= 0xffff,
            cfg.mappings@.len() < 0x40,
        ensures
            write_started(
                r,
                writes_bytes(
                    spec_pdo_writes(spec_tpdo_indices(pdo_num).0, spec_tpdo_indices(pdo_num).1, cfg.comm, cfg.mappings@),
                ),
            ),
    {
        let (comm, mapping) = tpdo_indices(pdo_num);
        self.store_pdo_config(comm, mapping, cfg)
    }

    /// Configures receive PDO `pdo_num` (objects 0x1400 and 0x1600 plus the number), as
    /// `configure_tpdo` does.
    pub fn configure_rpdo(&self, pdo_num: usize, cfg: &PdoConfig) -> (r: (WriteSequence, OpStep<()>))
        requires
            (pdo_num as u16) as int + 0x1600 <= 0xffff,
            cfg.mappings@.len() < 0x40,
        ensures
            write_started(
                r,
                writes_bytes(
                    spec_pdo_writes(spec_rpdo_indices(pdo_num).0, spec_rpdo_indices(pdo_num).1, cfg.comm, cfg.mappings@),
                ),
            ),
    {
        let (comm, mapping) = rpdo_indices(pdo_num);
        self.store_pdo_config(comm, mapping, cfg)
    }

    /// Sets the COB ID word (sub 1 of object 0x1400 plus the number) of receive PDO `pdo_num`.
    pub fn set_rpdo_cob_id(&self, pdo_num: usize, cob_id: CanId, valid: bool, rtr_disabled: bool) -> (r: (
        WriteSequence,
        OpStep<()>,
    ))
        requires
            (pdo_num as u16) as int + 0x1400 <= 0xffff,
        ensures
            write_started(r, seq![(pdo_comm_index(0x1400, pdo_num), 1u8, u32_le(spec_cob_word(cob_id, valid, rtr_disabled)))]),
    {
        let comm = comm_index_of(0x1400, pdo_num);
        let word = cob_word(cob_id, valid, rtr_disabled);
        WriteSequence::single(comm, 1, vstd::slice::slice_to_vec(&u32_to_le(word)))
    }

    /// Sets the COB ID word (sub 1 of object 0x1800 plus the number) of transmit PDO `pdo_num`.
    pub fn set_tpdo_cob_id(&self, pdo_num: usize, cob_id: CanId, valid: bool, rtr_disabled: bool) -> (r: (
        WriteSequence,
        OpStep<()>,
    ))
        requires
            (pdo_num as u16) as int + 0x1800 <= 0xffff,
        ensures
            write_started(r, seq![(pdo_comm_index(0x1800, pdo_num), 1u8, u32_le(spec_cob_word(cob_id, valid, rtr_disabled)))]),
    {
        let comm = comm_index_of(0x1800, pdo_num);
        let word = cob_word(cob_id, valid, rtr_disabled);
        WriteSequence::single(comm, 1, vstd::slice::slice_to_vec(&u32_to_le(word)))
    }

    /// Commands the node to save its objects: writes the save command to sub 1 of object 0x1010.
    pub fn save_objects(&self) -> (r: (WriteSequence, OpStep<()>))
        ensures
            write_started(r, seq![(object_ids::SAVE_OBJECTS, 1u8, u32_le(SAVE_CMD))]),
    {
        WriteSequence::single(object_ids::SAVE_OBJECTS, 1, vstd::slice::slice_to_vec(&u32_to_le(SAVE_CMD)))
    }

    /// Writes a boolean to a sub object: one byte, 1 for true and 0 for false.
    pub fn write_bool(&self, index: u16, sub: u8, value: bool) -> (r: (WriteSequence, OpStep<()>))
        ensures
            write_started(r, seq![(index, sub, seq![if value { 1u8 } else { 0u8 }])]),
    {
        let b = crate::sdo_client::bool_bytes(value);
        WriteSequence::single(index, sub, vstd::slice::slice_to_vec(&b))
    }

    /// Writes a time of day to a sub object, as its six bytes.
    pub fn write_time_of_day(&self, index: u16, sub: u8, data: TimeOfDay) -> (r: (WriteSequence, OpStep<()>))
        ensures
            write_started(r, seq![(index, sub, time_bytes(data.spec_ms(), data.spec_days()))]),
    {
        let b = data.to_le_bytes();
        WriteSequence::single(index, sub, vstd::slice::slice_to_vec(&b))
    }

    /// Writes a time difference to a sub object, as its six bytes.
    pub fn write_time_difference(&self, index: u16, sub: u8, data: TimeDifference) -> (r: (WriteSequence, OpStep<()>))
        ensures
            write_started(r, seq![(index, sub, time_bytes(data.spec_ms(), data.spec_days()))]),
    {
        let b = data.to_le_bytes();
        WriteSequence::single(index, sub, vstd::slice::slice_to_vec(&b))
    }

    /// Reads the identity object (object 0x1018, subs 1 to 4).
    pub fn read_identity(&self) -> (r: (IdentityRead, OpStep<LssIdentity>))
        ensures
            r.0.wf(),
            r.0.read_so_far() == Seq::<u32>::empty(),
            asks_read(r.1, object_ids::IDENTITY, 1),
    {
        IdentityRead::start()
    }

    /// Reads the configuration of receive PDO `pdo_num` (objects 0x1400 and 0x1600 plus the
    /// number).
    pub fn read_rpdo_config(&self, pdo_num: usize) -> (r: (PdoConfigRead, OpStep<PdoConfig>))
        requires
            (pdo_num as u16) as int + 0x1600 <= 0xffff,
        ensures
            r.0.wf(),
            r.0.stage == PdoReadStage::CobId,
            r.0.comm_index == spec_rpdo_indices(pdo_num).0,
            r.0.mapping_index == spec_rpdo_indices(pdo_num).1,
            asks_read(r.1, spec_rpdo_indices(pdo_num).0, 1),
    {
        let (comm, mapping) = rpdo_indices(pdo_num);
        PdoConfigRead::start(comm, mapping)
    }

    /// Reads the configuration of transmit PDO `pdo_num` (objects 0x1800 and 0x1A00 plus the
    /// number).
    pub fn read_tpdo_config(&self, pdo_num: usize) -> (r: (PdoConfigRead, OpStep<PdoConfig>))
        requires
            (pdo_num as u16) as int + 0x1a00 <= 0xffff,
        ensures
            r.0.wf(),
            r.0.stage == PdoReadStage::CobId,
            r.0.comm_index == spec_tpdo_indices(pdo_num).0,
            r.0.mapping_index == spec_tpdo_indices(pdo_num).1,
            asks_read(r.1, spec_tpdo_indices(pdo_num).0, 1),
    {
        let (comm, mapping) = tpdo_indices(pdo_num);
        PdoConfigRead::start(comm, mapping)
    }
}

/// A read of one sub object as a boolean: one byte, true unless it is zero.
pub struct BoolRead;

impl BoolRead {
    /// Reports the outcome of the read: an error ends it; a single byte gives the boolean, any
    /// other size `UnexpectedSize`.
    pub fn on_read(&mut self, outcome: Result<Vec<u8>, SdoClientError>) -> (r: OpStep<bool>)
        ensures
            (match outcome {
                Err(e) => r == OpStep::<bool>::Done(Err(e)),
                Ok(b) => if b@.len() == 1 {
                    r == OpStep::<bool>::Done(Ok(b@[0] != 0))
                } else {
                    r == OpStep::<bool>::Done(Err(SdoClientError::UnexpectedSize))
                },
            }),
    {
        match outcome {
            Err(e) => OpStep::Done(Err(e)),
            Ok(b) => OpStep::Done(decode_bool(b.as_slice())),
        }
    }
}

/// A read of one sub object as a time of day.
pub struct TimeOfDayRead;

impl TimeOfDayRead {
    /// Reports the outcome of the read: an error ends it; six bytes give the time of day
    /// (milliseconds, then days), any other size `UnexpectedSize`.
    pub fn on_read(&mut self, outcome: Result<Vec<u8>, SdoClientError>) -> (r: OpStep<TimeOfDay>)
        ensures
            (match outcome {
                Err(e) => r == OpStep::<TimeOfDay>::Done(Err(e)),
                Ok(b) => if b@.len() == 6 {
                    r matches OpStep::Done(Ok(t)) && t.spec_ms() == le_u32(b@[0], b@[1], b@[2], b@[3])
                        && t.spec_days() == le_u16(b@[4], b@[5])
                } else {
                    r == OpStep::<TimeOfDay>::Done(Err(SdoClientError::UnexpectedSize))
                },
            }),
    {
        match outcome {
            Err(e) => OpStep::Done(Err(e)),
            Ok(b) => OpStep::Done(decode_time_of_day(b.as_slice())),
        }
    }
}

/// A read of one sub object as a time difference.
pub struct TimeDifferenceRead;

impl TimeDifferenceRead {
    /// Reports the outcome of the read: an error ends it; six bytes give the time difference
    /// (milliseconds, then days), any other size `UnexpectedSize`.
    pub fn on_read(&mut self, outcome: Result<Vec<u8>, SdoClientError>) -> (r: OpStep<TimeDifference>)
        ensures
            (match outcome {
                Err(e) => r == OpStep::<TimeDifference>::Done(Err(e)),
                Ok(b) => if b@.len() == 6 {
                    r matches OpStep::Done(Ok(t)) && t.spec_ms() == le_u32(b@[0], b@[1], b@[2], b@[3])
                        && t.spec_days() == le_u16(b@[4], b@[5])
                } else {
                    r == OpStep::<TimeDifference>::Done(Err(SdoClientError::UnexpectedSize))
                },
            }),
    {
        match outcome {
            Err(e) => OpStep::Done(Err(e)),
            Ok(b) => OpStep::Done(decode_time_difference(b.as_slice())),
        }
    }
}

/// A read of one sub object as text.
pub struct TextRead;

impl TextRead {
    /// Reports the outcome of the read: an error ends it; the bytes give their text as UTF-8,
    /// each invalid sequence replaced.
    pub fn on_read(&mut self, outcome: Result<Vec<u8>, SdoClientError>) -> (r: OpStep<String>)
        ensures
            (match outcome {
                Err(e) => r == OpStep::<String>::Done(Err(e)),
                Ok(b) => r matches OpStep::Done(Ok(t)) && t@ == utf8_lossy(b@),
            }),
    {
        match outcome {
            Err(e) => OpStep::Done(Err(e)),
            Ok(b) => OpStep::Done(Ok(lossy_text(b.as_slice()))),
        }
    }
}

impl<S, R> SdoClient<S, R> {
    /// Reads a sub object as a boolean.
    pub fn read_bool(&self, index: u16, sub: u8) -> (r: (BoolRead, OpStep<bool>))
        ensures
            asks_read(r.1, index, sub),
    {
        (BoolRead, OpStep::Access(ObjectAccess::Read { index, sub }))
    }

    /// Reads a sub object as a time of day.
    pub fn read_time_of_day(&self, index: u16, sub: u8) -> (r: (TimeOfDayRead, OpStep<TimeOfDay>))
        ensures
            asks_read(r.1, index, sub),
    {
        (TimeOfDayRead, OpStep::Access(ObjectAccess::Read { index, sub }))
    }

    /// Reads a sub object as a time difference.
    pub fn read_time_difference(&self, index: u16, sub: u8) -> (r: (TimeDifferenceRead, OpStep<TimeDifference>))
        ensures
            asks_read(r.1, index, sub),
    {
        (TimeDifferenceRead, OpStep::Access(ObjectAccess::Read { index, sub }))
    }

    /// Reads a sub object as UTF-8 text.
    pub fn read_utf8(&self, index: u16, sub: u8) -> (r: (TextRead, OpStep<String>))
        ensures
            asks_read(r.1, index, sub),
    {
        (TextRead, OpStep::Access(ObjectAccess::Read { index, sub }))
    }

    /// Reads a visible string sub object, as UTF-8 text.
    pub fn read_visible_string(&self, index: u16, sub: u8) -> (r: (TextRead, OpStep<String>))
        ensures
            asks_read(r.1, index, sub),
    {
        self.read_utf8(index, sub)
    }

    /// Reads the device name (object 0x1008).
    pub fn read_device_name(&self) -> (r: (TextRead, OpStep<String>))
        ensures
            asks_read(r.1, object_ids::DEVICE_NAME, 0),
    {
        self.read_visible_string(object_ids::DEVICE_NAME, 0)
    }

    /// Reads the software version (object 0x100A).
    pub fn read_software_version(&self) -> (r: (TextRead, OpStep<String>))
        ensures
            asks_read(r.1, object_ids::SOFTWARE_VERSION, 0),
    {
        self.read_visible_string(object_ids::SOFTWARE_VERSION, 0)
    }

    /// Reads the hardware version (object 0x1009).
    pub fn read_hardware_version(&self) -> (r: (TextRead, OpStep<String>))
        ensures
            asks_read(r.1, object_ids::HARDWARE_VERSION, 0),
    {
        self.read_visible_string(object_ids::HARDWARE_VERSION, 0)
    }
}

/// The bytes held by sub object `index`/`sub` after the writes, in order, on bytes `init`.
pub open spec fn bytes_after(ws: Seq<ObjectWrite>, index: u16, sub: u8, init: Seq<u8>) -> Seq<u8>
    decreases ws.len(),
{
    if ws.len() == 0 {
        init
    } else {
        bytes_after(
            ws.drop_first(),
            index,
            sub,
            if writes_to(ws[0], index, sub) {
                object_write_bytes(ws[0]).2
            } else {
                init
            },
        )
    }
}

/// The bytes of a value: four little-endian bytes when `wide`, else its low byte.
pub open spec fn value_bytes(wide: bool, v: u32) -> Seq<u8> {
    if wide {
        u32_le(v)
    } else {
        seq![v as u8]
    }
}

/// Every write of the sequence to `index`/`sub` is of 32 bits when `wide`, of 8 bits else.
pub open spec fn writes_of_width(ws: Seq<ObjectWrite>, index: u16, sub: u8, wide: bool) -> bool {
    forall|k: int| 0 <= k < ws.len() && writes_to(#[trigger] ws[k], index, sub) ==> (ws[k] is U32) == wide
}

/// Bytes that hold a value stay the bytes of the value the writes leave, when the writes to
/// the sub object are all of one width.
proof fn lemma_bytes_follow_value(ws: Seq<ObjectWrite>, index: u16, sub: u8, wide: bool, b: Seq<u8>, v: u32)
    requires
        writes_of_width(ws, index, sub, wide),
        b == value_bytes(wide, v),
    ensures
        bytes_after(ws, index, sub, b) == value_bytes(wide, value_after(ws, index, sub, v)),
    decreases ws.len(),
{
    if ws.len() > 0 {
        let rest = ws.drop_first();
        assert(writes_of_width(rest, index, sub, wide)) by {
            assert forall|k: int| 0 <= k < rest.len() && writes_to(#[trigger] rest[k], index, sub) implies (rest[k] is U32)
                == wide by {
                assert(rest[k] == ws[k + 1]);
            }
        }
        if writes_to(ws[0], index, sub) {
            assert((ws[0] is U32) == wide);
            match ws[0] {
                ObjectWrite::U8 { value, .. } => {
                    assert(value_bytes(wide, value as u32) =~= seq![value]);
                },
                ObjectWrite::U32 { .. } => {},
            }
            lemma_bytes_follow_value(rest, index, sub, wide, object_write_bytes(ws[0]).2, written_value(ws[0]));
        } else {
            lemma_bytes_follow_value(rest, index, sub, wide, b, v);
        }
    }
}

/// Once some write sets a sub object, the bytes it holds afterwards are those of the value the
/// writes leave, whatever it held before.
proof fn lemma_written_bytes(ws: Seq<ObjectWrite>, index: u16, sub: u8, wide: bool, j: int, b: Seq<u8>, v: u32)
    requires
        writes_of_width(ws, index, sub, wide),
        0 <= j < ws.len(),
        writes_to(ws[j], index, sub),
    ensures
        bytes_after(ws, index, sub, b) == value_bytes(wide, value_after(ws, index, sub, v)),
    decreases ws.len(),
{
    let rest = ws.drop_first();
    assert(writes_of_width(rest, index, sub, wide)) by {
        assert forall|k: int| 0 <= k < rest.len() && writes_to(#[trigger] rest[k], index, sub) implies (rest[k] is U32)
            == wide by {
            assert(rest[k] == ws[k + 1]);
        }
    }
    if writes_to(ws[0], index, sub) {
        assert((ws[0] is U32) == wide);
        match ws[0] {
            ObjectWrite::U8 { value, .. } => {
                assert(value_bytes(wide, value as u32) =~= seq![value]);
            },
            ObjectWrite::U32 { .. } => {},
        }
        lemma_bytes_follow_value(rest, index, sub, wide, object_write_bytes(ws[0]).2, written_value(ws[0]));
    } else {
        assert(j > 0);
        assert(rest[j - 1] == ws[j]);
        lemma_written_bytes(rest, index, sub, wide, j - 1, b, v);
    }
}

/// The writes of a PDO configuration: the COB ID word and the mappings are written as 32-bit
/// values, the transmission type and the mapping count as 8-bit ones, and each of these sub
/// objects is written.
proof fn lemma_pdo_write_widths(ci: u16, mi: u16, comm: PdoCommParameter, mappings: Seq<PdoMapping>)
    requires
        ci != mi,
        mappings.len() < 0x40,
    ensures
        ({
            let ws = spec_pdo_writes(ci, mi, comm, mappings);
            &&& ws.len() >= 4 + mappings.len()
            &&& writes_of_width(ws, ci, 1, true) && writes_to(ws[1], ci, 1)
            &&& writes_of_width(ws, ci, 2, false) && writes_to(ws[0], ci, 2)
            &&& writes_of_width(ws, mi, 0, false) && writes_to(ws[2], mi, 0)
            &&& forall|k: int| 0 <= k < mappings.len() ==> writes_of_width(ws, mi, (k + 1) as u8, true) && writes_to(
                #[trigger] ws[3 + k],
                mi,
                (k + 1) as u8,
            )
        }),
{
    let ws = spec_pdo_writes(ci, mi, comm, mappings);
    let n = mappings.len() as int;
    let d = 3 + n;
    let disable = crate::object_model::pdo::spec_comm_writes(ci, PdoCommParameter { valid: false, ..comm });
    let maps = crate::object_model::pdo::spec_mapping_writes(mi, mappings);
    assert(ws[0] == disable[0]);
    assert(ws[1] == disable[1]);
    assert forall|j: int| 3 <= j < d implies #[trigger] ws[j] == maps[j - 3] by {}
    assert forall|j: int| 0 <= j < ws.len() && writes_to(#[trigger] ws[j], ci, 1) implies (ws[j] is U32) == true by {
        if 3 <= j < d {
            assert(ws[j] == maps[j - 3]);
        }
    }
    assert forall|j: int| 0 <= j < ws.len() && writes_to(#[trigger] ws[j], ci, 2) implies (ws[j] is U32) == false by {
        if 3 <= j < d {
            assert(ws[j] == maps[j - 3]);
        }
    }
    assert forall|j: int| 0 <= j < ws.len() && writes_to(#[trigger] ws[j], mi, 0) implies (ws[j] is U32) == false by {
        if 3 <= j < d {
            assert(ws[j] == maps[j - 3]);
        }
    }
    assert forall|k: int| 0 <= k < n implies writes_of_width(ws, mi, (k + 1) as u8, true) && writes_to(
        #[trigger] ws[3 + k],
        mi,
        (k + 1) as u8,
    ) by {
        assert(ws[3 + k] == maps[k]);
        assert forall|j: int| 0 <= j < ws.len() && writes_to(#[trigger] ws[j], mi, (k + 1) as u8) implies (ws[j] is U32)
            == true by {
            if 3 <= j < d {
                assert(ws[j] == maps[j - 3]);
            }
        }
    }
}

/// One step of a PDO configuration read run against objects that hold what the writes `ws`
/// left on bytes `init`: where the step asks to read a sub object, the next state and step are
/// what `on_read` makes of the bytes that sub object holds.
pub open spec fn read_run_step(
    s: PdoConfigRead,
    step: OpStep<PdoConfig>,
    s2: PdoConfigRead,
    step2: OpStep<PdoConfig>,
    ws: Seq<ObjectWrite>,
    init: Seq<u8>,
) -> bool {
    match step {
        OpStep::Access(ObjectAccess::Read { index, sub }) => {
            &&& s2.comm_index == s.comm_index
            &&& s2.mapping_index == s.mapping_index
            &&& PdoConfigRead::read_step(s, s2, bytes_after(ws, index, sub, init), step2)
        },
        _ => true,
    }
}

/// Step `k` of a run of PDO configuration read states and steps against objects that hold what
/// the writes `ws` left on bytes `init`.
pub open spec fn read_run_at(
    states: Seq<PdoConfigRead>,
    steps: Seq<OpStep<PdoConfig>>,
    ws: Seq<ObjectWrite>,
    init: Seq<u8>,
    k: int,
) -> bool {
    read_run_step(states[k], steps[k], states[k + 1], steps[k + 1], ws, init)
}

/// The mapping reads of a run: after `k` of them the values read are the first `k` mapping
/// words, and the run asks for mapping sub `k + 1`.
proof fn lemma_mapping_reads(
    mi: u16,
    ws: Seq<ObjectWrite>,
    init: Seq<u8>,
    states: Seq<PdoConfigRead>,
    steps: Seq<OpStep<PdoConfig>>,
    cob: u32,
    tt: u8,
    ms: Seq<u32>,
    k: int,
)
    requires
        1 <= ms.len() < 0x40,
        states.len() == ms.len() + 4,
        steps.len() == states.len(),
        forall|i: int| 0 <= i < ms.len() ==> bytes_after(ws, mi, (i + 1) as u8, init) == #[trigger] u32_le(ms[i]),
        forall|j: int| 0 <= j < states.len() - 1 ==> #[trigger] read_run_at(states, steps, ws, init, j),
        states[3].stage == PdoReadStage::Mappings,
        states[3].values@ == Seq::<u32>::empty(),
        states[3].count == ms.len(),
        states[3].cob == cob,
        states[3].transmission_type == tt,
        states[3].mapping_index == mi,
        asks_read(steps[3], mi, 1),
        0 <= k < ms.len(),
    ensures
        states[3 + k].stage == PdoReadStage::Mappings,
        states[3 + k].values@ == ms.take(k),
        states[3 + k].count == ms.len(),
        states[3 + k].cob == cob,
        states[3 + k].transmission_type == tt,
        states[3 + k].mapping_index == mi,
        asks_read(steps[3 + k], mi, (k + 1) as u8),
    decreases k,
{
    if k == 0 {
        assert(ms.take(0) =~= Seq::<u32>::empty());
    } else {
        lemma_mapping_reads(mi, ws, init, states, steps, cob, tt, ms, k - 1);
        let j = 3 + k - 1;
        assert(read_run_at(states, steps, ws, init, j));
        let b = u32_le(ms[k - 1]);
        assert(bytes_after(ws, mi, k as u8, init) == b);
        crate::le_bytes::lemma_u32_le_roundtrip(ms[k - 1]);
        assert(ms.take(k - 1).push(ms[k - 1]) =~= ms.take(k));
    }
}

/// Configuring a PDO and reading its configuration back gives the configuration: a PDO
/// configuration read of the same objects, run against objects that hold what the writes of the
/// configuration left (on any earlier contents), ends after three reads and one read per
/// mapping with the configuration. This holds for a standard COB ID, or an extended one of at
/// most 29 bits.
pub proof fn lemma_configure_then_read_back(
    ci: u16,
    mi: u16,
    comm: PdoCommParameter,
    mappings: Seq<PdoMapping>,
    init: Seq<u8>,
    states: Seq<PdoConfigRead>,
    steps: Seq<OpStep<PdoConfig>>,
)
    requires
        ci != mi,
        mappings.len() < 0x40,
        comm.cob_id matches CanId::Extended(id) ==> id < 0x2000_0000,
        states.len() == mappings.len() + 4,
        steps.len() == states.len(),
        states[0].wf(),
        states[0].stage == PdoReadStage::CobId,
        states[0].comm_index == ci,
        states[0].mapping_index == mi,
        asks_read(steps[0], ci, 1),
        forall|k: int|
            0 <= k < states.len() - 1 ==> #[trigger] read_run_at(states, steps, spec_pdo_writes(ci, mi, comm, mappings), init, k),
    ensures
        steps.last() matches OpStep::Done(Ok(c)) && c.comm == comm && c.mappings@ == mappings,
{
    let ws = spec_pdo_writes(ci, mi, comm, mappings);
    let n = mappings.len() as int;
    lemma_pdo_config_readback(ci, mi, comm, mappings, 0);
    lemma_pdo_write_widths(ci, mi, comm, mappings);
    let v1 = value_after(ws, ci, 1, 0);
    let v2 = value_after(ws, ci, 2, 0);
    lemma_written_bytes(ws, ci, 1, true, 1, init, 0);
    lemma_written_bytes(ws, ci, 2, false, 0, init, 0);
    lemma_written_bytes(ws, mi, 0, false, 2, init, 0);
    crate::le_bytes::lemma_u32_le_roundtrip(v1);
    assert(value_bytes(false, v2) == seq![v2 as u8]);
    assert(value_bytes(false, value_after(ws, mi, 0, 0)) == seq![n as u8]);
    assert(states[0].values@ =~= Seq::<u32>::empty());
    // The COB ID word, the transmission type, then the mapping count.
    assert(read_run_at(states, steps, ws, init, 0));
    assert(states[1].cob == v1 && states[1].stage == PdoReadStage::TransmissionType);
    assert(read_run_at(states, steps, ws, init, 1));
    assert(states[2].transmission_type == v2 as u8 && states[2].stage == PdoReadStage::Count);
    assert(read_run_at(states, steps, ws, init, 2));
    assert(states[3].count == n);
    assert(spec_from_cob_word(v1, v2 as u8) == comm);
    if n == 0 {
        assert(steps.last() == steps[3]);
        assert(mappings =~= Seq::<PdoMapping>::empty());
        assert(steps[3] matches OpStep::Done(Ok(c)) && c.mappings@ =~= mappings);
    } else {
        let ms = Seq::new(n as nat, |i: int| value_after(ws, mi, (i + 1) as u8, 0));
        assert forall|i: int| 0 <= i < ms.len() implies bytes_after(ws, mi, (i + 1) as u8, init) == #[trigger] u32_le(
            ms[i],
        ) by {
            assert(writes_to(ws[3 + i], mi, (i + 1) as u8));
            lemma_written_bytes(ws, mi, (i + 1) as u8, true, 3 + i, init, 0);
        }
        lemma_mapping_reads(mi, ws, init, states, steps, v1, v2 as u8, ms, n - 1);
        let j = 3 + n - 1;
        assert(read_run_at(states, steps, ws, init, j));
        assert(bytes_after(ws, mi, n as u8, init) == u32_le(ms[n - 1]));
        crate::le_bytes::lemma_u32_le_roundtrip(ms[n - 1]);
        assert(ms.take(n - 1).push(ms[n - 1]) =~= ms);
        assert(steps.last() == steps[j + 1]);
        let c = steps[j + 1]->Done_0->Ok_0;
        let values = states[j + 1].values@;
        assert(values == ms);
        assert forall|i: int| 0 <= i < n implies c.mappings@[i] == mappings[i] by {
            assert(values[i] == ms[i]);
            assert(c.mappings@[i] == spec_mapping_of(values[i]));
            assert(spec_mapping_of(value_after(ws, mi, (i + 1) as u8, 0)) == mappings[i]);
        }
        assert(c.mappings@ =~= mappings);
    }
}

} // verus!
