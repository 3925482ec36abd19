//! A node configuration: settings written to a running node, such as its PDOs.
use vstd::prelude::*;
pub use crate::object_model::pdo::PdoMapping;
use crate::le_bytes::{u16_le, u16_to_le, u32_le, u32_to_le};
use crate::object_model::pdo::{spec_from_cob_word, PdoCommParameter};
use crate::text::{parse_unsigned, parse_unsigned_text};

verus! {

/// The configuration of one PDO in a node configuration.
#[derive(Clone, Debug)]
pub struct PdoConfig {
    /// The COB ID word of the PDO
    pub cob: u32,
    /// The PDO is active
    pub enabled: bool,
    /// The sub objects mapped to the PDO
    pub mappings: Vec<PdoMapping>,
    /// When the PDO is sent or latched: 0 after a SYNC following an application event, 1-240
    /// every Nth SYNC, 254 event driven
    pub transmission_type: u8,
}

impl PdoConfig {
    /// Returns the configuration in the form that is written to a node: the communication
    /// parameters read from the COB ID word, valid when the PDO is enabled, and the mappings.
    pub fn to_pdo_config(&self) -> (r: crate::object_model::pdo::PdoConfig)
        ensures
            r.comm == (PdoCommParameter { valid: self.enabled, ..spec_from_cob_word(self.cob, self.transmission_type) }),
            r.mappings@ == self.mappings@,
    {
        let comm = PdoCommParameter::from_cob_word(self.cob, self.transmission_type);
        let mappings = vstd::slice::slice_to_vec(self.mappings.as_slice());
        crate::object_model::pdo::PdoConfig { comm: PdoCommParameter { valid: self.enabled, ..comm }, mappings }
    }
}

/// A value to be written to a sub object by a store command.
#[derive(Clone, Debug, PartialEq)]
pub enum StoreValue {
    /// An unsigned 32-bit value
    U32(u32),
    /// An unsigned 16-bit value
    U16(u16),
    /// An unsigned 8-bit value
    U8(u8),
    /// A signed 32-bit value
    I32(i32),
    /// A signed 16-bit value
    I16(i16),
    /// A signed 8-bit value
    I8(i8),
    /// A 32-bit float, as its bits
    F32(u32),
    /// A string
    String(String),
}

/// The bytes written for a store value: little-endian for numbers (a float by its bits), the
/// UTF-8 bytes for a string.
pub open spec fn store_bytes(v: StoreValue) -> Seq<u8> {
    match v {
        StoreValue::U32(x) => u32_le(x),
        StoreValue::U16(x) => u16_le(x),
        StoreValue::U8(x) => seq![x],
        StoreValue::I32(x) => u32_le(x as u32),
        StoreValue::I16(x) => u16_le(x as u16),
        StoreValue::I8(x) => seq![x as u8],
        StoreValue::F32(bits) => u32_le(bits),
        StoreValue::String(s) => vstd::utf8::encode_utf8(s@),
    }
}

impl StoreValue {
    /// Returns the bytes written for the value.
    pub fn raw(&self) -> (r: Vec<u8>)
        ensures
            r@ == store_bytes(*self),
    {
        match self {
            StoreValue::U32(v) => vstd::slice::slice_to_vec(&u32_to_le(*v)),
            StoreValue::U16(v) => vstd::slice::slice_to_vec(&u16_to_le(*v)),
            StoreValue::U8(v) => {
                let r = vec![*v];
                assert(r@ =~= seq![*v]);
                r
            },
            StoreValue::I32(v) => vstd::slice::slice_to_vec(&u32_to_le(*v as u32)),
            StoreValue::I16(v) => vstd::slice::slice_to_vec(&u16_to_le(*v as u16)),
            StoreValue::I8(v) => {
                let r = vec![*v as u8];
                assert(r@ =~= seq![*v as u8]);
                r
            },
            StoreValue::F32(bits) => vstd::slice::slice_to_vec(&u32_to_le(*bits)),
            StoreValue::String(t) => vstd::slice::slice_to_vec(t.as_str().as_bytes()),
        }
    }
}

/// A store command: write a value to a sub object.
#[derive(Clone, Debug, PartialEq)]
pub struct Store {
    /// The object index
    pub index: u16,
    /// The sub index
    pub sub: u8,
    /// The value written
    pub value: StoreValue,
}

impl Store {
    /// Returns the bytes written.
    pub fn raw_value(&self) -> (r: Vec<u8>)
        ensures
            r@ == store_bytes(self.value),
    {
        self.value.raw()
    }
}

/// The type named in a store command.
#[derive(Clone, Copy, Debug, PartialEq, Eq, Structural)]
pub enum StoreType {
    /// u32
    U32,
    /// u16
    U16,
    /// u8
    U8,
    /// i32
    I32,
    /// i16
    I16,
    /// i8
    I8,
    /// f32
    F32,
    /// string
    String,
}

/// The range an integer store value must lie in, when it does not.
#[derive(Clone, Copy, Debug, PartialEq, Eq, Structural)]
pub enum StoreRange {
    /// 0 to 2^32 - 1
    U32,
    /// 0 to 65535
    U16,
    /// 0 to 255
    U8,
    /// -2^31 to 2^31 - 1
    I32,
    /// -32768 to 32767
    I16,
    /// -128 to 127
    I8,
}

impl StoreRange {
    /// The description of the range expected.
    pub open spec fn spec_expected(self) -> Seq<char> {
        match self {
            StoreRange::U32 => "an integer in range [0..2^32]"@,
            StoreRange::U16 => "an integer in range [0..65536]"@,
            StoreRange::U8 => "an integer in range [0..256]"@,
            StoreRange::I32 => "an integer in range [-2^31..2^31]"@,
            StoreRange::I16 => "an integer in range [-32767..32768]"@,
            StoreRange::I8 => "an integer in range [-127..128]"@,
        }
    }

    /// Returns the description of the range expected.
    pub fn expected(&self) -> (r: &'static str)
        ensures
            r@ == self.spec_expected(),
    {
        match self {
            StoreRange::U32 => "an integer in range [0..2^32]",
            StoreRange::U16 => "an integer in range [0..65536]",
            StoreRange::U8 => "an integer in range [0..256]",
            StoreRange::I32 => "an integer in range [-2^31..2^31]",
            StoreRange::I16 => "an integer in range [-32767..32768]",
            StoreRange::I8 => "an integer in range [-127..128]",
        }
    }
}

/// The store value of an integer for an integer store type, or the range it is outside of.
pub open spec fn spec_integer_value(ty: StoreType, value: i64) -> Result<StoreValue, StoreRange> {
    match ty {
        StoreType::U32 => if 0 <= value <= u32::MAX { Ok(StoreValue::U32(value as u32)) } else { Err(StoreRange::U32) },
        StoreType::U16 => if 0 <= value <= u16::MAX { Ok(StoreValue::U16(value as u16)) } else { Err(StoreRange::U16) },
        StoreType::U8 => if 0 <= value <= u8::MAX { Ok(StoreValue::U8(value as u8)) } else { Err(StoreRange::U8) },
        StoreType::I32 => if i32::MIN <= value <= i32::MAX { Ok(StoreValue::I32(value as i32)) } else { Err(StoreRange::I32) },
        StoreType::I16 => if i16::MIN <= value <= i16::MAX { Ok(StoreValue::I16(value as i16)) } else { Err(StoreRange::I16) },
        _ => if i8::MIN <= value <= i8::MAX { Ok(StoreValue::I8(value as i8)) } else { Err(StoreRange::I8) },
    }
}

/// Converts an integer read for a store command of an integer type into its value; an integer
/// out of the type's range is refused with the range.
pub fn integer_value(ty: StoreType, value: i64) -> (r: Result<StoreValue, StoreRange>)
    requires
        !(ty is F32) && !(ty is String),
    ensures
        r == spec_integer_value(ty, value),
{
    match ty {
        StoreType::U32 => if 0 <= value && value <= 0xFFFF_FFFF {
            Ok(StoreValue::U32(value as u32))
        } else {
            Err(StoreRange::U32)
        },
        StoreType::U16 => if 0 <= value && value <= 0xFFFF {
            Ok(StoreValue::U16(value as u16))
        } else {
            Err(StoreRange::U16)
        },
        StoreType::U8 => if 0 <= value && value <= 0xFF {
            Ok(StoreValue::U8(value as u8))
        } else {
            Err(StoreRange::U8)
        },
        StoreType::I32 => if -0x8000_0000 <= value && value <= 0x7FFF_FFFF {
            Ok(StoreValue::I32(value as i32))
        } else {
            Err(StoreRange::I32)
        },
        StoreType::I16 => if -0x8000 <= value && value <= 0x7FFF {
            Ok(StoreValue::I16(value as i16))
        } else {
            Err(StoreRange::I16)
        },
        _ => if -0x80 <= value && value <= 0x7F {
            Ok(StoreValue::I8(value as i8))
        } else {
            Err(StoreRange::I8)
        },
    }
}

/// Why the keys of a PDO table could not be read as PDO numbers.
#[derive(Clone, Debug, PartialEq)]
pub enum PdoNumberError {
    /// This key is not a non-negative integer
    NotANumber(String),
    /// Two keys name the same number, such as "0" and "00"
    Duplicate,
}

/// The PDO number a key names: a decimal `usize`, with an optional `+`.
pub open spec fn key_number(k: Seq<char>) -> Option<nat> {
    parse_unsigned(k, 10, usize::MAX as nat)
}

/// Reads the keys of a PDO table as PDO numbers, in order. The first key that is no
/// non-negative integer is refused; once all are read, two keys of one number are refused.
pub fn pdo_numbers(keys: &[String]) -> (r: Result<Vec<usize>, PdoNumberError>)
    ensures
        (match r {
            Ok(ns) => {
                &&& ns@.len() == keys@.len()
                &&& forall|i: int| 0 <= i < keys@.len() ==> key_number(#[trigger] keys@[i]@) == Some(ns@[i] as nat)
                &&& forall|i: int, j: int| 0 <= i < j < ns@.len() ==> #[trigger] ns@[i] != #[trigger] ns@[j]
            },
            Err(PdoNumberError::NotANumber(k)) => exists|i: int|
                0 <= i < keys@.len() && #[trigger] key_number(keys@[i]@) is None && k@ == keys@[i]@ && forall|j: int|
                    0 <= j < i ==> #[trigger] key_number(keys@[j]@) is Some,
            Err(PdoNumberError::Duplicate) => {
                &&& forall|i: int| 0 <= i < keys@.len() ==> #[trigger] key_number(keys@[i]@) is Some
                &&& exists|i: int, j: int|
                    0 <= i < j < keys@.len() && #[trigger] key_number(keys@[i]@) == #[trigger] key_number(keys@[j]@)
            },
        }),
{
    let mut ns: Vec<usize> = Vec::new();
    let mut i: usize = 0;
    while i < keys.len()
        invariant
            i <= keys@.len(),
            ns@.len() == i,
            forall|k: int| 0 <= k < i ==> key_number(#[trigger] keys@[k]@) == Some(ns@[k] as nat),
        decreases keys@.len() - i,
    {
        match parse_unsigned_text(keys[i].as_str(), 10, usize::MAX as u64) {
            Some(v) => {
                ns.push(v as usize);
            },
            None => {
                let k = keys[i].clone();
                assert(key_number(keys@[i as int]@) is None);
                assert(forall|j: int| 0 <= j < i ==> #[trigger] key_number(keys@[j]@) is Some);
                return Err(PdoNumberError::NotANumber(k));
            },
        }
        i = i + 1;
    }
    let mut a: usize = 0;
    while a < ns.len()
        invariant
            a <= ns@.len(),
            ns@.len() == keys@.len(),
            forall|k: int| 0 <= k < keys@.len() ==> key_number(#[trigger] keys@[k]@) == Some(ns@[k] as nat),
            forall|x: int, y: int| 0 <= x < a && x < y < ns@.len() ==> #[trigger] ns@[x] != #[trigger] ns@[y],
        decreases ns@.len() - a,
    {
        let mut b: usize = a + 1;
        while b < ns.len()
            invariant
                a < ns@.len(),
                a < b <= ns@.len(),
                ns@.len() == keys@.len(),
                forall|k: int| 0 <= k < keys@.len() ==> key_number(#[trigger] keys@[k]@) == Some(ns@[k] as nat),
                forall|x: int, y: int| 0 <= x < a && x < y < ns@.len() ==> #[trigger] ns@[x] != #[trigger] ns@[y],
                forall|y: int| a < y < b ==> ns@[a as int] != #[trigger] ns@[y],
            decreases ns@.len() - b,
        {
            if ns[a] == ns[b] {
                assert(key_number(keys@[a as int]@) == key_number(keys@[b as int]@));
                return Err(PdoNumberError::Duplicate);
            }
            b = b + 1;
        }
        a = a + 1;
    }
    Ok(ns)
}

} // verus!
