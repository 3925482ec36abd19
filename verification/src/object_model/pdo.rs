//! PDO mapping and communication parameters.
use vstd::prelude::*;
use crate::can::CanId;

verus! {

/// One mapping of a PDO: a sub object placed in the PDO data bytes.
#[derive(Clone, Copy, Debug, PartialEq, Eq, Structural)]
pub struct PdoMapping {
    /// The object index
    pub index: u16,
    /// The object sub index
    pub sub: u8,
    /// The size of the mapped object in bits
    pub size: u8,
}

impl PdoMapping {
    /// The 32-bit value stored in a mapping object: index, sub and size from the top down.
    pub open spec fn spec_object_value(self) -> u32 {
        (self.index as u32 * 0x10000 + self.sub as u32 * 0x100 + self.size as u32) as u32
    }

    /// Returns the 32-bit value stored in a mapping object.
    pub fn to_object_value(&self) -> (r: u32)
        ensures
            r == self.spec_object_value(),
    {
        let r = ((self.index as u32) << 16u32) | ((self.sub as u32) << 8u32) | (self.size as u32);
        let index = self.index;
        let sub = self.sub;
        let size = self.size;
        assert(((index as u32) << 16u32) | ((sub as u32) << 8u32) | (size as u32) == (index as u32 * 0x10000
            + sub as u32 * 0x100 + size as u32) as u32) by (bit_vector);
        r
    }

    /// Reads a mapping from the 32-bit value stored in a mapping object.
    pub fn from_object_value(value: u32) -> (r: PdoMapping)
        ensures
            r.index == value / 0x10000,
            r.sub == (value / 0x100) % 0x100,
            r.size == value % 0x100,
    {
        let index = (value >> 16u32) as u16;
        let sub = ((value >> 8u32) & 0xffu32) as u8;
        let size = (value & 0xffu32) as u8;
        assert((value >> 16u32) as u16 == value / 0x10000 && ((value >> 8u32) & 0xffu32) as u8 == (value / 0x100)
            % 0x100 && (value & 0xffu32) as u8 == value % 0x100) by (bit_vector);
        PdoMapping { index, sub, size }
    }
}

/// Reading a mapping back from its object value gives the mapping.
pub proof fn lemma_pdo_mapping_roundtrip(m: PdoMapping)
    ensures
        m.spec_object_value() / 0x10000 == m.index,
        (m.spec_object_value() / 0x100) % 0x100 == m.sub,
        m.spec_object_value() % 0x100 == m.size,
{
}

/// The communication parameters of a PDO.
#[derive(Clone, Copy, Debug, PartialEq, Eq, Structural)]
pub struct PdoCommParameter {
    /// The PDO is enabled (the bit in the object is inverted: set when not valid)
    pub valid: bool,
    /// RTR is not allowed on this PDO
    pub rtr_disabled: bool,
    /// The COB ID on which the PDO is sent or received
    pub cob_id: CanId,
    /// When the PDO is sent or latched: 0 acyclic after SYNC, 1-240 every Nth SYNC, 254 event
    /// driven
    pub transmission_type: u8,
}

/// The COB ID word of a PDO communication object: the 29-bit ID, bit 29 for an extended ID,
/// bit 30 when RTR is disabled and bit 31 when the PDO is not valid.
pub open spec fn spec_cob_word(cob_id: CanId, valid: bool, rtr_disabled: bool) -> u32 {
    (cob_id.spec_raw() & 0x1FFF_FFFFu32) | (if valid { 0u32 } else { 0x8000_0000u32 }) | (if cob_id is Extended {
        0x2000_0000u32
    } else {
        0u32
    }) | (if rtr_disabled { 0x4000_0000u32 } else { 0u32 })
}

/// The communication parameters held in a COB ID word and a transmission type.
pub open spec fn spec_from_cob_word(cob_word: u32, transmission_type: u8) -> PdoCommParameter {
    let id = cob_word & 0x1FFF_FFFFu32;
    PdoCommParameter {
        valid: cob_word & 0x8000_0000u32 == 0,
        rtr_disabled: cob_word & 0x4000_0000u32 != 0,
        cob_id: if cob_word & 0x2000_0000u32 != 0 { CanId::Extended(id) } else { CanId::Std(id as u16) },
        transmission_type,
    }
}

/// Returns the COB ID word of a PDO communication object.
pub fn cob_word(cob_id: CanId, valid: bool, rtr_disabled: bool) -> (r: u32)
    ensures
        r == spec_cob_word(cob_id, valid, rtr_disabled),
{
    let mut cob_value = cob_id.raw() & 0x1FFF_FFFFu32;
    if !valid {
        cob_value = cob_value | 0x8000_0000u32;
    }
    if cob_id.is_extended() {
        cob_value = cob_value | 0x2000_0000u32;
    }
    if rtr_disabled {
        cob_value = cob_value | 0x4000_0000u32;
    }
    let raw = cob_id.raw();
    assert((raw & 0x1FFF_FFFFu32) | 0u32 | 0u32 | 0u32 == raw & 0x1FFF_FFFFu32) by (bit_vector);
    assert(forall|a: u32, b: u32, c: u32, d: u32| #![auto] ((a | b) | c) | d == ((a | b) | d) | c) by (bit_vector);
    assert(forall|a: u32| #![auto] a | 0u32 == a) by (bit_vector);
    cob_value
}

impl PdoCommParameter {
    /// Reads the communication parameters out of a COB ID word and a transmission type.
    pub fn from_cob_word(cob_word: u32, transmission_type: u8) -> (r: PdoCommParameter)
        ensures
            r == spec_from_cob_word(cob_word, transmission_type),
    {
        let valid = cob_word & 0x8000_0000u32 == 0;
        let rtr_disabled = cob_word & 0x4000_0000u32 != 0;
        let extended = cob_word & 0x2000_0000u32 != 0;
        let id = cob_word & 0x1FFF_FFFFu32;
        let cob_id = if extended {
            CanId::extended(id)
        } else {
            #[verifier::truncate]
            let small = id as u16;
            CanId::standard(small)
        };
        PdoCommParameter { valid, rtr_disabled, cob_id, transmission_type }
    }
}

/// The flag bits of a COB ID word sit above its 29 ID bits and do not disturb them.
proof fn lemma_cob_word_bits(raw: u32, v: u32, x: u32, r: u32)
    by (bit_vector)
    requires
        v == 0u32 || v == 0x8000_0000u32,
        x == 0u32 || x == 0x2000_0000u32,
        r == 0u32 || r == 0x4000_0000u32,
    ensures
        ((raw & 0x1FFF_FFFFu32) | v | x | r) & 0x8000_0000u32 == 0 <==> v == 0u32,
        ((raw & 0x1FFF_FFFFu32) | v | x | r) & 0x4000_0000u32 != 0 <==> r == 0x4000_0000u32,
        ((raw & 0x1FFF_FFFFu32) | v | x | r) & 0x2000_0000u32 != 0 <==> x == 0x2000_0000u32,
        ((raw & 0x1FFF_FFFFu32) | v | x | r) & 0x1FFF_FFFFu32 == raw & 0x1FFF_FFFFu32,
{
}

/// Reading the COB ID word of a PDO gives back its COB ID and flags, for a standard ID or an
/// extended ID of at most 29 bits.
pub proof fn lemma_cob_word_roundtrip(cob_id: CanId, valid: bool, rtr_disabled: bool, transmission_type: u8)
    requires
        cob_id matches CanId::Extended(id) ==> id < 0x2000_0000,
    ensures
        spec_from_cob_word(spec_cob_word(cob_id, valid, rtr_disabled), transmission_type) == (PdoCommParameter {
            valid,
            rtr_disabled,
            cob_id,
            transmission_type,
        }),
{
    let raw = cob_id.spec_raw();
    let v: u32 = if valid { 0u32 } else { 0x8000_0000u32 };
    let x: u32 = if cob_id is Extended { 0x2000_0000u32 } else { 0u32 };
    let r: u32 = if rtr_disabled { 0x4000_0000u32 } else { 0u32 };
    lemma_cob_word_bits(raw, v, x, r);
    match cob_id {
        CanId::Extended(id) => {
            assert(id < 0x2000_0000u32 ==> id & 0x1FFF_FFFFu32 == id) by (bit_vector);
        },
        CanId::Std(id) => {
            assert(((id as u32) & 0x1FFF_FFFFu32) as u16 == id) by (bit_vector);
        },
    }
}


/// The mapping a 32-bit mapping object value holds.
pub open spec fn spec_mapping_of(value: u32) -> PdoMapping {
    PdoMapping { index: (value / 0x10000) as u16, sub: ((value / 0x100) % 0x100) as u8, size: (value % 0x100) as u8 }
}

/// The configuration of one PDO: its communication parameters and its mappings.
#[derive(Clone, Debug)]
pub struct PdoConfig {
    /// The communication parameters
    pub comm: PdoCommParameter,
    /// The sub objects mapped into the PDO, in order
    pub mappings: Vec<PdoMapping>,
}

/// One write of a sub object that configuring a PDO takes.
#[derive(Clone, Copy, Debug, PartialEq, Eq, Structural)]
pub enum ObjectWrite {
    /// Write an 8-bit value
    U8 {
        /// The object index
        index: u16,
        /// The sub index
        sub: u8,
        /// The value
        value: u8,
    },
    /// Write a 32-bit value
    U32 {
        /// The object index
        index: u16,
        /// The sub index
        sub: u8,
        /// The value
        value: u32,
    },
}

/// The writes that set the communication parameters of a PDO: the transmission type (sub 2),
/// then the COB ID word (sub 1).
pub open spec fn spec_comm_writes(comm_index: u16, comm: PdoCommParameter) -> Seq<ObjectWrite> {
    seq![
        ObjectWrite::U8 { index: comm_index, sub: 2, value: comm.transmission_type },
        ObjectWrite::U32 { index: comm_index, sub: 1, value: spec_cob_word(comm.cob_id, comm.valid, comm.rtr_disabled) },
    ]
}

/// The writes of the mapping values, to subs 1, 2, ... in order.
pub open spec fn spec_mapping_writes(mapping_index: u16, mappings: Seq<PdoMapping>) -> Seq<ObjectWrite> {
    Seq::new(
        mappings.len(),
        |i: int| ObjectWrite::U32 { index: mapping_index, sub: (i + 1) as u8, value: mappings[i].spec_object_value() },
    )
}

/// The writes that configure a PDO: disable it, clear the mapping count, write the mappings, set
/// the mapping count, and then, when the configuration is valid, enable it.
pub open spec fn spec_pdo_writes(comm_index: u16, mapping_index: u16, comm: PdoCommParameter, mappings: Seq<PdoMapping>) -> Seq<ObjectWrite> {
    spec_comm_writes(comm_index, PdoCommParameter { valid: false, ..comm })
        + seq![ObjectWrite::U8 { index: mapping_index, sub: 0, value: 0 }]
        + spec_mapping_writes(mapping_index, mappings)
        + seq![ObjectWrite::U8 { index: mapping_index, sub: 0, value: mappings.len() as u8 }]
        + (if comm.valid { spec_comm_writes(comm_index, comm) } else { Seq::empty() })
}

/// Returns the writes that set the communication parameters of a PDO.
pub fn comm_writes(comm_index: u16, comm: PdoCommParameter) -> (r: Vec<ObjectWrite>)
    ensures
        r@ == spec_comm_writes(comm_index, comm),
{
    let word = cob_word(comm.cob_id, comm.valid, comm.rtr_disabled);
    let mut r: Vec<ObjectWrite> = Vec::new();
    r.push(ObjectWrite::U8 { index: comm_index, sub: 2, value: comm.transmission_type });
    r.push(ObjectWrite::U32 { index: comm_index, sub: 1, value: word });
    assert(r@ =~= spec_comm_writes(comm_index, comm));
    r
}

/// Returns the writes that configure a PDO from its configuration; the mapping count must fit in
/// the mapping object (less than 0x40).
pub fn pdo_writes(comm_index: u16, mapping_index: u16, cfg: &PdoConfig) -> (r: Vec<ObjectWrite>)
    requires
        cfg.mappings@.len() < 0x40,
    ensures
        r@ == spec_pdo_writes(comm_index, mapping_index, cfg.comm, cfg.mappings@),
{
    let disabled = PdoCommParameter { valid: false, ..cfg.comm };
    let mut r = comm_writes(comm_index, disabled);
    r.push(ObjectWrite::U8 { index: mapping_index, sub: 0, value: 0 });
    let ghost head = r@;
    let n = cfg.mappings.len();
    let mut i: usize = 0;
    while i < n
        invariant
            i <= n,
            n == cfg.mappings@.len(),
            n < 0x40,
            r@ == head + spec_mapping_writes(mapping_index, cfg.mappings@.take(i as int)),
        decreases n - i,
    {
        let value = cfg.mappings[i].to_object_value();
        r.push(ObjectWrite::U32 { index: mapping_index, sub: (i + 1) as u8, value });
        assert(spec_mapping_writes(mapping_index, cfg.mappings@.take(i + 1)) =~= spec_mapping_writes(
            mapping_index,
            cfg.mappings@.take(i as int),
        ).push(ObjectWrite::U32 { index: mapping_index, sub: (i + 1) as u8, value }));
        i = i + 1;
    }
    assert(cfg.mappings@.take(n as int) =~= cfg.mappings@);
    r.push(ObjectWrite::U8 { index: mapping_index, sub: 0, value: n as u8 });
    if cfg.comm.valid {
        let mut enable = comm_writes(comm_index, cfg.comm);
        r.append(&mut enable);
    }
    assert(r@ =~= spec_pdo_writes(comm_index, mapping_index, cfg.comm, cfg.mappings@));
    r
}

/// Returns the configuration of a PDO read back from its COB ID word, its transmission type, and
/// the values of its mapping objects.
pub fn pdo_config_from(cob_word: u32, transmission_type: u8, mapping_values: &[u32]) -> (r: PdoConfig)
    ensures
        r.comm == spec_from_cob_word(cob_word, transmission_type),
        r.mappings@.len() == mapping_values@.len(),
        forall|i: int| 0 <= i < mapping_values@.len() ==> r.mappings@[i] == spec_mapping_of(#[trigger] mapping_values@[i]),
{
    let mut mappings: Vec<PdoMapping> = Vec::new();
    let mut i: usize = 0;
    while i < mapping_values.len()
        invariant
            i <= mapping_values@.len(),
            mappings@.len() == i,
            forall|k: int| 0 <= k < i ==> mappings@[k] == spec_mapping_of(#[trigger] mapping_values@[k]),
        decreases mapping_values@.len() - i,
    {
        mappings.push(PdoMapping::from_object_value(mapping_values[i]));
        i = i + 1;
    }
    PdoConfig { comm: PdoCommParameter::from_cob_word(cob_word, transmission_type), mappings }
}

/// The communication and mapping object indices of transmit PDO `pdo_num`.
pub open spec fn spec_tpdo_indices(pdo_num: usize) -> (u16, u16) {
    ((0x1800 + pdo_num as u16) as u16, (0x1a00 + pdo_num as u16) as u16)
}

/// The communication and mapping object indices of receive PDO `pdo_num`.
pub open spec fn spec_rpdo_indices(pdo_num: usize) -> (u16, u16) {
    ((0x1400 + pdo_num as u16) as u16, (0x1600 + pdo_num as u16) as u16)
}

/// Returns the communication and mapping object indices of transmit PDO `pdo_num` (its low 16
/// bits are taken).
pub fn tpdo_indices(pdo_num: usize) -> (r: (u16, u16))
    requires
        (pdo_num as u16) as int + 0x1a00 <= 0xffff,
    ensures
        r == spec_tpdo_indices(pdo_num),
{
    #[verifier::truncate]
    let n = pdo_num as u16;
    (0x1800 + n, 0x1a00 + n)
}

/// Returns the communication and mapping object indices of receive PDO `pdo_num` (its low 16
/// bits are taken).
pub fn rpdo_indices(pdo_num: usize) -> (r: (u16, u16))
    requires
        (pdo_num as u16) as int + 0x1600 <= 0xffff,
    ensures
        r == spec_rpdo_indices(pdo_num),
{
    #[verifier::truncate]
    let n = pdo_num as u16;
    (0x1400 + n, 0x1600 + n)
}


/// A write sets sub object `index`/`sub`.
pub open spec fn writes_to(w: ObjectWrite, index: u16, sub: u8) -> bool {
    match w {
        ObjectWrite::U8 { index: i, sub: s, .. } => i == index && s == sub,
        ObjectWrite::U32 { index: i, sub: s, .. } => i == index && s == sub,
    }
}

/// The value a write stores.
pub open spec fn written_value(w: ObjectWrite) -> u32 {
    match w {
        ObjectWrite::U8 { value, .. } => value as u32,
        ObjectWrite::U32 { value, .. } => value,
    }
}

/// The value of sub object `index`/`sub` after the writes, in order, on a value `init`.
pub open spec fn value_after(ws: Seq<ObjectWrite>, index: u16, sub: u8, init: u32) -> u32
    decreases ws.len(),
{
    if ws.len() == 0 {
        init
    } else {
        value_after(
            ws.drop_first(),
            index,
            sub,
            if writes_to(ws[0], index, sub) {
                written_value(ws[0])
            } else {
                init
            },
        )
    }
}

proof fn lemma_value_after_concat(a: Seq<ObjectWrite>, b: Seq<ObjectWrite>, index: u16, sub: u8, init: u32)
    ensures
        value_after(a + b, index, sub, init) == value_after(b, index, sub, value_after(a, index, sub, init)),
    decreases a.len(),
{
    if a.len() > 0 {
        assert((a + b).drop_first() =~= a.drop_first() + b);
        lemma_value_after_concat(
            a.drop_first(),
            b,
            index,
            sub,
            if writes_to(a[0], index, sub) {
                written_value(a[0])
            } else {
                init
            },
        );
    }
}

proof fn lemma_value_after_untouched(ws: Seq<ObjectWrite>, index: u16, sub: u8, init: u32)
    requires
        forall|k: int| 0 <= k < ws.len() ==> !writes_to(#[trigger] ws[k], index, sub),
    ensures
        value_after(ws, index, sub, init) == init,
    decreases ws.len(),
{
    if ws.len() > 0 {
        assert(!writes_to(ws[0], index, sub));
        assert forall|k: int| 0 <= k < ws.drop_first().len() implies !writes_to(#[trigger] ws.drop_first()[k], index, sub) by {
            assert(ws.drop_first()[k] == ws[k + 1]);
        }
        lemma_value_after_untouched(ws.drop_first(), index, sub, init);
    }
}

proof fn lemma_value_after_last(ws: Seq<ObjectWrite>, j: int, index: u16, sub: u8, init: u32)
    requires
        0 <= j < ws.len(),
        writes_to(ws[j], index, sub),
        forall|k: int| j < k < ws.len() ==> !writes_to(#[trigger] ws[k], index, sub),
    ensures
        value_after(ws, index, sub, init) == written_value(ws[j]),
{
    let a = ws.take(j);
    let b = seq![ws[j]];
    let c = ws.skip(j + 1);
    assert(ws =~= (a + b) + c);
    assert forall|k: int| 0 <= k < c.len() implies !writes_to(#[trigger] c[k], index, sub) by {
        assert(c[k] == ws[k + j + 1]);
    }
    lemma_value_after_concat(a + b, c, index, sub, init);
    lemma_value_after_concat(a, b, index, sub, init);
    let x = value_after(a, index, sub, init);
    assert(b.drop_first() =~= Seq::<ObjectWrite>::empty());
    assert(value_after(b, index, sub, x) == value_after(b.drop_first(), index, sub, written_value(ws[j])));
    lemma_value_after_untouched(c, index, sub, written_value(ws[j]));
}

/// Configuring a PDO and reading it back gives the configuration: after the writes of the
/// configuration, the COB ID word and transmission type read as its communication parameters,
/// the mapping count is its number of mappings, and each mapping object holds its mapping. This
/// holds for a standard COB ID, or an extended one of at most 29 bits.
pub proof fn lemma_pdo_config_readback(
    comm_index: u16,
    mapping_index: u16,
    comm: PdoCommParameter,
    mappings: Seq<PdoMapping>,
    init: u32,
)
    requires
        comm_index != mapping_index,
        mappings.len() < 0x40,
        comm.cob_id matches CanId::Extended(id) ==> id < 0x2000_0000,
    ensures
        ({
            let ws = spec_pdo_writes(comm_index, mapping_index, comm, mappings);
            &&& spec_from_cob_word(
                value_after(ws, comm_index, 1, init),
                value_after(ws, comm_index, 2, init) as u8,
            ) == comm
            &&& value_after(ws, mapping_index, 0, init) == mappings.len()
            &&& forall|k: int|
                0 <= k < mappings.len() ==> spec_mapping_of(
                    #[trigger] value_after(ws, mapping_index, (k + 1) as u8, init),
                ) == mappings[k]
        }),
{
    let ws = spec_pdo_writes(comm_index, mapping_index, comm, mappings);
    let disable = spec_comm_writes(comm_index, PdoCommParameter { valid: false, ..comm });
    let clear = seq![ObjectWrite::U8 { index: mapping_index, sub: 0, value: 0 }];
    let maps = spec_mapping_writes(mapping_index, mappings);
    let count = seq![ObjectWrite::U8 { index: mapping_index, sub: 0, value: mappings.len() as u8 }];
    let enable = if comm.valid { spec_comm_writes(comm_index, comm) } else { Seq::empty() };
    let n = ws.len() as int;
    let d = 3 + maps.len() as int;
    assert(ws =~= disable + clear + maps + count + enable);
    assert forall|k: int| 3 <= k < d implies #[trigger] ws[k] == maps[k - 3] by {}
    // The COB ID word and the transmission type: the last write of each wins.
    let word_at: int = if comm.valid { d + 2 } else { 1 };
    let tt_at: int = if comm.valid { d + 1 } else { 0 };
    assert forall|k: int| word_at < k < n implies !writes_to(#[trigger] ws[k], comm_index, 1) by {
        if 3 <= k < d {
            assert(ws[k] == maps[k - 3]);
        }
    }
    lemma_value_after_last(ws, word_at, comm_index, 1, init);
    assert forall|k: int| tt_at < k < n implies !writes_to(#[trigger] ws[k], comm_index, 2) by {
        if 3 <= k < d {
            assert(ws[k] == maps[k - 3]);
        }
    }
    lemma_value_after_last(ws, tt_at, comm_index, 2, init);
    lemma_cob_word_roundtrip(comm.cob_id, comm.valid, comm.rtr_disabled, comm.transmission_type);
    // The mapping count: the count write is the last to sub 0.
    assert forall|k: int| d < k < n implies !writes_to(#[trigger] ws[k], mapping_index, 0) by {}
    lemma_value_after_last(ws, d, mapping_index, 0, init);
    // Each mapping: its write is the last to its sub.
    assert forall|k: int| 0 <= k < mappings.len() implies spec_mapping_of(
        #[trigger] value_after(ws, mapping_index, (k + 1) as u8, init),
    ) == mappings[k] by {
        let sub = (k + 1) as u8;
        assert forall|m: int| 3 + k < m < n implies !writes_to(#[trigger] ws[m], mapping_index, sub) by {
            if 3 <= m < d {
                assert(ws[m] == maps[m - 3]);
            }
        }
        assert(ws[3 + k] == maps[k]);
        lemma_value_after_last(ws, 3 + k, mapping_index, sub, init);
        lemma_pdo_mapping_roundtrip(mappings[k]);
    }
}

/// The COB ID word of a PDO communication object (CiA 301): the low 29 bits of the ID, plus
/// 2^29 for an extended ID, 2^30 when RTR is disabled and 2^31 when the PDO is not valid.
pub proof fn lemma_cob_word_layout(cob_id: CanId, valid: bool, rtr_disabled: bool)
    ensures
        spec_cob_word(cob_id, valid, rtr_disabled) == cob_id.spec_raw() % 0x2000_0000 + (if cob_id is Extended {
            0x2000_0000int
        } else {
            0int
        }) + (if rtr_disabled { 0x4000_0000int } else { 0int }) + (if valid { 0int } else { 0x8000_0000int }),
{
    let x = cob_id.spec_raw();
    let v: u32 = if valid { 0u32 } else { 0x8000_0000u32 };
    let e: u32 = if cob_id is Extended { 0x2000_0000u32 } else { 0u32 };
    let r: u32 = if rtr_disabled { 0x4000_0000u32 } else { 0u32 };
    assert(((x & 0x1FFF_FFFFu32) | v | e | r) as int == (x % 0x2000_0000) as int + e as int + r as int + v as int)
        by (bit_vector)
        requires
            v == 0 || v == 0x8000_0000u32,
            e == 0 || e == 0x2000_0000u32,
            r == 0 || r == 0x4000_0000u32,
    ;
}

/// A COB ID word is read with the PDO valid exactly when bit 31 is clear, RTR disabled exactly
/// when bit 30 is set, an extended ID exactly when bit 29 is set, and the ID in the low 29 bits.
pub proof fn lemma_cob_word_reads(word: u32, transmission_type: u8)
    ensures
        ({
            let p = spec_from_cob_word(word, transmission_type);
            &&& p.valid == (word < 0x8000_0000)
            &&& p.rtr_disabled == ((word / 0x4000_0000) % 2 == 1)
            &&& (p.cob_id is Extended) == ((word / 0x2000_0000) % 2 == 1)
            &&& p.cob_id.spec_raw() == (if (word / 0x2000_0000) % 2 == 1 {
                word % 0x2000_0000
            } else {
                (word % 0x2000_0000) % 0x10000
            })
            &&& p.transmission_type == transmission_type
        }),
{
    assert((word & 0x8000_0000u32 == 0) == (word < 0x8000_0000u32) && (word & 0x4000_0000u32 != 0) == ((word
        / 0x4000_0000u32) % 2 == 1) && (word & 0x2000_0000u32 != 0) == ((word / 0x2000_0000u32) % 2 == 1) && (word
        & 0x1FFF_FFFFu32) == word % 0x2000_0000u32 && ((word & 0x1FFF_FFFFu32) as u16) as u32 == (word
        & 0x1FFF_FFFFu32) % 0x10000) by (bit_vector);
}

} // verus!
