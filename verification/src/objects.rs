//! Sub object descriptions with the numbered CANopen data types.
use vstd::prelude::*;
pub use crate::object_model::types::{AccessType, ObjectCode, ObjectId};
pub use crate::object_model::types::PdoMappable as PdoMapping;

verus! {

/// The data types by their CANopen numbers: Boolean 1, Int8 2, Int16 3, Int32 4, UInt8 5,
/// UInt16 6, UInt32 7, Real32 8, VisibleString 9, OctetString 0xa, UnicodeString 0xb,
/// TimeOfDay 0xc, TimeDifference 0xd, Domain 0xf; any other number is kept as `Other`.
#[derive(Clone, Copy, Debug, PartialEq, Eq, Structural)]
pub enum DataType {
    /// A boolean
    Boolean,
    /// Signed 8-bit
    Int8,
    /// Signed 16-bit
    Int16,
    /// Signed 32-bit
    Int32,
    /// Unsigned 8-bit
    UInt8,
    /// Unsigned 16-bit
    UInt16,
    /// Unsigned 32-bit
    UInt32,
    /// 32-bit float
    Real32,
    /// A visible string
    VisibleString,
    /// An octet string
    OctetString,
    /// A unicode string
    UnicodeString,
    /// A time of day
    TimeOfDay,
    /// A time difference
    TimeDifference,
    /// A domain
    Domain,
    /// Another type number
    Other(u16),
}

impl Default for DataType {
    fn default() -> (r: DataType)
        ensures
            r == DataType::Int8,
    {
        DataType::Int8
    }
}

impl DataType {
    /// The type a number stands for. The numbers of TimeOfDay (0xc) and TimeDifference (0xd)
    /// are read as `Other`.
    pub open spec fn spec_from_code(value: u16) -> DataType {
        if value == 1 {
            DataType::Boolean
        } else if value == 2 {
            DataType::Int8
        } else if value == 3 {
            DataType::Int16
        } else if value == 4 {
            DataType::Int32
        } else if value == 5 {
            DataType::UInt8
        } else if value == 6 {
            DataType::UInt16
        } else if value == 7 {
            DataType::UInt32
        } else if value == 8 {
            DataType::Real32
        } else if value == 9 {
            DataType::VisibleString
        } else if value == 0xa {
            DataType::OctetString
        } else if value == 0xb {
            DataType::UnicodeString
        } else if value == 0xf {
            DataType::Domain
        } else {
            DataType::Other(value)
        }
    }

    /// The number of a type.
    pub open spec fn spec_code(self) -> u16 {
        match self {
            DataType::Boolean => 1,
            DataType::Int8 => 2,
            DataType::Int16 => 3,
            DataType::Int32 => 4,
            DataType::UInt8 => 5,
            DataType::UInt16 => 6,
            DataType::UInt32 => 7,
            DataType::Real32 => 8,
            DataType::VisibleString => 9,
            DataType::OctetString => 0xa,
            DataType::UnicodeString => 0xb,
            DataType::TimeOfDay => 0xc,
            DataType::TimeDifference => 0xd,
            DataType::Domain => 0xf,
            DataType::Other(v) => v,
        }
    }

    /// Returns the number of the type.
    pub fn code(&self) -> (r: u16)
        ensures
            r == self.spec_code(),
    {
        match self {
            DataType::Boolean => 1,
            DataType::Int8 => 2,
            DataType::Int16 => 3,
            DataType::Int32 => 4,
            DataType::UInt8 => 5,
            DataType::UInt16 => 6,
            DataType::UInt32 => 7,
            DataType::Real32 => 8,
            DataType::VisibleString => 9,
            DataType::OctetString => 0xa,
            DataType::UnicodeString => 0xb,
            DataType::TimeOfDay => 0xc,
            DataType::TimeDifference => 0xd,
            DataType::Domain => 0xf,
            DataType::Other(v) => *v,
        }
    }

    /// Returns true for the string types.
    pub fn is_str(&self) -> (r: bool)
        ensures
            r == (*self is VisibleString || *self is OctetString || *self is UnicodeString),
    {
        match self {
            DataType::VisibleString | DataType::OctetString | DataType::UnicodeString => true,
            _ => false,
        }
    }
}

impl From<u16> for DataType {
    fn from(value: u16) -> (r: DataType) {
        match value {
            1 => DataType::Boolean,
            2 => DataType::Int8,
            3 => DataType::Int16,
            4 => DataType::Int32,
            5 => DataType::UInt8,
            6 => DataType::UInt16,
            7 => DataType::UInt32,
            8 => DataType::Real32,
            9 => DataType::VisibleString,
            0xa => DataType::OctetString,
            0xb => DataType::UnicodeString,
            0xf => DataType::Domain,
            _ => DataType::Other(value),
        }
    }
}

impl vstd::std_specs::convert::FromSpecImpl<u16> for DataType {
    open spec fn obeys_from_spec() -> bool {
        true
    }

    open spec fn from_spec(value: u16) -> DataType {
        DataType::spec_from_code(value)
    }
}

/// A type read from a number gives that number back; only TimeOfDay and TimeDifference are
/// read as `Other`, keeping their number.
pub proof fn lemma_data_type_code_roundtrip(value: u16)
    ensures
        DataType::spec_from_code(value).spec_code() == value,
{
}

/// The description of a sub object: size, data type, access, PDO mapping, persistence.
#[derive(Clone, Copy, Debug, PartialEq, Eq, Structural)]
pub struct SubInfo {
    /// The size in bytes
    pub size: usize,
    /// The data type
    pub data_type: DataType,
    /// The access type
    pub access_type: AccessType,
    /// Whether the sub object can be mapped to PDOs
    pub pdo_mapping: PdoMapping,
    /// Whether the value is saved to persistent storage
    pub persist: bool,
}

impl Default for SubInfo {
    fn default() -> (r: SubInfo)
        ensures
            r == (SubInfo {
                size: 0,
                data_type: DataType::Int8,
                access_type: AccessType::Ro,
                pdo_mapping: PdoMapping::NotMappable,
                persist: false,
            }),
    {
        SubInfo {
            size: 0,
            data_type: DataType::Int8,
            access_type: AccessType::Ro,
            pdo_mapping: PdoMapping::NotMappable,
            persist: false,
        }
    }
}

impl SubInfo {
    /// A read-only, unmapped, unsaved sub object of a size and type.
    pub open spec fn plain(size: usize, data_type: DataType) -> SubInfo {
        SubInfo {
            size,
            data_type,
            access_type: AccessType::Ro,
            pdo_mapping: PdoMapping::NotMappable,
            persist: false,
        }
    }

    /// The description of sub 0 of an array or record, which holds the highest sub index.
    pub fn max_sub_number() -> (r: SubInfo)
        ensures
            r == (SubInfo { access_type: AccessType::Const, ..SubInfo::plain(1, DataType::UInt8) }),
    {
        SubInfo {
            size: 1,
            data_type: DataType::UInt8,
            access_type: AccessType::Const,
            pdo_mapping: PdoMapping::NotMappable,
            persist: false,
        }
    }

    /// A read-only u32 sub object.
    pub fn new_u32() -> (r: SubInfo)
        ensures
            r == SubInfo::plain(4, DataType::UInt32),
    {
        SubInfo {
            size: 4,
            data_type: DataType::UInt32,
            access_type: AccessType::Ro,
            pdo_mapping: PdoMapping::NotMappable,
            persist: false,
        }
    }

    /// A read-only u16 sub object.
    pub fn new_u16() -> (r: SubInfo)
        ensures
            r == SubInfo::plain(2, DataType::UInt16),
    {
        SubInfo {
            size: 2,
            data_type: DataType::UInt16,
            access_type: AccessType::Ro,
            pdo_mapping: PdoMapping::NotMappable,
            persist: false,
        }
    }

    /// A read-only u8 sub object.
    pub fn new_u8() -> (r: SubInfo)
        ensures
            r == SubInfo::plain(1, DataType::UInt8),
    {
        SubInfo {
            size: 1,
            data_type: DataType::UInt8,
            access_type: AccessType::Ro,
            pdo_mapping: PdoMapping::NotMappable,
            persist: false,
        }
    }

    /// A read-only visible string sub object of `size` bytes.
    pub fn new_visibile_str(size: usize) -> (r: SubInfo)
        ensures
            r == SubInfo::plain(size, DataType::VisibleString),
    {
        SubInfo {
            size,
            data_type: DataType::VisibleString,
            access_type: AccessType::Ro,
            pdo_mapping: PdoMapping::NotMappable,
            persist: false,
        }
    }

    /// The same sub object, read-only.
    pub fn ro_access(self) -> (r: SubInfo)
        ensures
            r == (SubInfo { access_type: AccessType::Ro, ..self }),
    {
        SubInfo { access_type: AccessType::Ro, ..self }
    }

    /// The same sub object, read-write.
    pub fn rw_access(self) -> (r: SubInfo)
        ensures
            r == (SubInfo { access_type: AccessType::Rw, ..self }),
    {
        SubInfo { access_type: AccessType::Rw, ..self }
    }

    /// The same sub object, constant.
    pub fn const_access(self) -> (r: SubInfo)
        ensures
            r == (SubInfo { access_type: AccessType::Const, ..self }),
    {
        SubInfo { access_type: AccessType::Const, ..self }
    }

    /// The same sub object, write-only.
    pub fn wo_access(self) -> (r: SubInfo)
        ensures
            r == (SubInfo { access_type: AccessType::Wo, ..self }),
    {
        SubInfo { access_type: AccessType::Wo, ..self }
    }

    /// The same sub object, saved to persistent storage or not.
    pub fn persist(self, value: bool) -> (r: SubInfo)
        ensures
            r == (SubInfo { persist: value, ..self }),
    {
        SubInfo { persist: value, ..self }
    }
}

} // verus!
