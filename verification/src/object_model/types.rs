//! The kinds, data types, access types and PDO mapping permissions of objects.
use vstd::prelude::*;
use crate::text::str_eq;

verus! {

/// The address of a sub object.
#[derive(Clone, Copy, Debug, PartialEq, Eq, Structural)]
pub struct ObjectId {
    /// Object index
    pub index: u16,
    /// Sub index
    pub sub: u8,
}

/// The kind of an object, with its code: Null 0, Domain 2, DefType 5, DefStruct 6, Var 7,
/// Array 8, Record 9.
#[derive(Clone, Copy, Debug, PartialEq, Eq, Structural)]
pub enum ObjectCode {
    /// An empty object
    Null,
    /// A large chunk of data
    Domain,
    /// Unused
    DefType,
    /// Unused
    DefStruct,
    /// An object with a single sub object
    Var,
    /// An array of sub objects that share a data type
    Array,
    /// A collection of sub objects of varying types
    Record,
}

impl ObjectCode {
    /// The code of an object kind.
    pub open spec fn spec_raw(self) -> u8 {
        match self {
            ObjectCode::Null => 0,
            ObjectCode::Domain => 2,
            ObjectCode::DefType => 5,
            ObjectCode::DefStruct => 6,
            ObjectCode::Var => 7,
            ObjectCode::Array => 8,
            ObjectCode::Record => 9,
        }
    }

    /// The object kind with a code.
    pub open spec fn spec_from_raw(value: u8) -> Option<ObjectCode> {
        if value == 0 {
            Some(ObjectCode::Null)
        } else if value == 2 {
            Some(ObjectCode::Domain)
        } else if value == 5 {
            Some(ObjectCode::DefType)
        } else if value == 6 {
            Some(ObjectCode::DefStruct)
        } else if value == 7 {
            Some(ObjectCode::Var)
        } else if value == 8 {
            Some(ObjectCode::Array)
        } else if value == 9 {
            Some(ObjectCode::Record)
        } else {
            None
        }
    }

    /// Returns the code of the object kind.
    pub fn raw(&self) -> (r: u8)
        ensures
            r == self.spec_raw(),
    {
        match self {
            ObjectCode::Null => 0,
            ObjectCode::Domain => 2,
            ObjectCode::DefType => 5,
            ObjectCode::DefStruct => 6,
            ObjectCode::Var => 7,
            ObjectCode::Array => 8,
            ObjectCode::Record => 9,
        }
    }
}

impl Default for ObjectCode {
    fn default() -> (r: ObjectCode)
        ensures
            r == ObjectCode::Var,
    {
        ObjectCode::Var
    }
}

impl TryFrom<u8> for ObjectCode {
    type Error = ();

    fn try_from(value: u8) -> (r: Result<ObjectCode, ()>) {
        match value {
            0 => Ok(ObjectCode::Null),
            2 => Ok(ObjectCode::Domain),
            5 => Ok(ObjectCode::DefType),
            6 => Ok(ObjectCode::DefStruct),
            7 => Ok(ObjectCode::Var),
            8 => Ok(ObjectCode::Array),
            9 => Ok(ObjectCode::Record),
            _ => Err(()),
        }
    }
}

impl vstd::std_specs::convert::TryFromSpecImpl<u8> for ObjectCode {
    open spec fn obeys_try_from_spec() -> bool {
        true
    }

    open spec fn try_from_spec(value: u8) -> Result<ObjectCode, ()> {
        match ObjectCode::spec_from_raw(value) {
            Some(c) => Ok(c),
            None => Err(()),
        }
    }
}

/// Reading the code of an object kind gives the kind back.
pub proof fn lemma_object_code_roundtrip(c: ObjectCode)
    ensures
        ObjectCode::spec_from_raw(c.spec_raw()) == Some(c),
{
}

/// The data types of sub objects; the string types carry their size in bytes.
#[derive(Clone, Copy, Debug, PartialEq, Eq, Structural)]
pub enum DataType {
    /// A boolean
    Boolean,
    /// Signed 8-bit
    Int8,
    /// Signed 16-bit
    Int16,
    /// Signed 24-bit
    Int24,
    /// Signed 32-bit
    Int32,
    /// Signed 64-bit
    Int64,
    /// Unsigned 8-bit
    UInt8,
    /// Unsigned 16-bit
    UInt16,
    /// Unsigned 24-bit
    UInt24,
    /// Unsigned 32-bit
    UInt32,
    /// Unsigned 64-bit
    UInt64,
    /// 32-bit float
    Real32,
    /// 64-bit float
    Real64,
    /// A visible string of this many bytes
    VisibleString(usize),
    /// An octet string of this many bytes
    OctetString(usize),
    /// A unicode string of this many bytes
    UnicodeString(usize),
    /// A time of day
    TimeOfDay,
    /// A time difference
    TimeDifference,
    /// A domain of variable size
    Domain,
}

impl Default for DataType {
    fn default() -> (r: DataType)
        ensures
            r == DataType::UInt8,
    {
        DataType::UInt8
    }
}

impl DataType {
    /// The string types.
    pub open spec fn spec_is_str(self) -> bool {
        self is VisibleString || self is OctetString || self is UnicodeString
    }

    /// The storage size in bytes; a domain has variable size and counts 0.
    pub open spec fn spec_size(self) -> usize {
        match self {
            DataType::Boolean => 1,
            DataType::Int8 => 1,
            DataType::Int16 => 2,
            DataType::Int24 => 3,
            DataType::Int32 => 4,
            DataType::Int64 => 8,
            DataType::UInt8 => 1,
            DataType::UInt16 => 2,
            DataType::UInt24 => 3,
            DataType::UInt32 => 4,
            DataType::UInt64 => 8,
            DataType::Real32 => 4,
            DataType::Real64 => 8,
            DataType::VisibleString(size) => size,
            DataType::OctetString(size) => size,
            DataType::UnicodeString(size) => size,
            DataType::TimeOfDay => 6,
            DataType::TimeDifference => 6,
            DataType::Domain => 0,
        }
    }

    /// Returns true for the string types.
    pub fn is_str(&self) -> (r: bool)
        ensures
            r == self.spec_is_str(),
    {
        match self {
            DataType::VisibleString(_) | DataType::OctetString(_) | DataType::UnicodeString(_) => true,
            _ => false,
        }
    }

    /// Returns the storage size of the data type in bytes.
    pub fn size(&self) -> (r: usize)
        ensures
            r == self.spec_size(),
    {
        match self {
            DataType::Boolean => 1,
            DataType::Int8 => 1,
            DataType::Int16 => 2,
            DataType::Int24 => 3,
            DataType::Int32 => 4,
            DataType::Int64 => 8,
            DataType::UInt8 => 1,
            DataType::UInt16 => 2,
            DataType::UInt24 => 3,
            DataType::UInt32 => 4,
            DataType::UInt64 => 8,
            DataType::Real32 => 4,
            DataType::Real64 => 8,
            DataType::VisibleString(size) => *size,
            DataType::OctetString(size) => *size,
            DataType::UnicodeString(size) => *size,
            DataType::TimeOfDay => 6,
            DataType::TimeDifference => 6,
            DataType::Domain => 0,
        }
    }
}

/// How a sub object may be accessed.
#[derive(Clone, Copy, Debug, PartialEq, Eq, Structural)]
pub enum AccessType {
    /// Read-only
    Ro,
    /// Write-only
    Wo,
    /// Read-write
    Rw,
    /// Read-only, and never changed, not even by the device
    Const,
}

impl Default for AccessType {
    fn default() -> (r: AccessType)
        ensures
            r == AccessType::Ro,
    {
        AccessType::Ro
    }
}

impl AccessType {
    /// Ro, Rw and Const can be read.
    pub open spec fn spec_is_readable(self) -> bool {
        self is Ro || self is Rw || self is Const
    }

    /// Rw and Wo can be written.
    pub open spec fn spec_is_writable(self) -> bool {
        self is Rw || self is Wo
    }

    /// The access type named by a lowercase word.
    pub open spec fn spec_from_name(name: Seq<char>) -> Option<AccessType> {
        if name == "ro"@ {
            Some(AccessType::Ro)
        } else if name == "wo"@ {
            Some(AccessType::Wo)
        } else if name == "rw"@ {
            Some(AccessType::Rw)
        } else if name == "const"@ {
            Some(AccessType::Const)
        } else {
            None
        }
    }

    /// Returns true if a sub object with this access type can be read.
    pub fn is_readable(&self) -> (r: bool)
        ensures
            r == self.spec_is_readable(),
    {
        match self {
            AccessType::Ro | AccessType::Rw | AccessType::Const => true,
            AccessType::Wo => false,
        }
    }

    /// Returns true if a sub object with this access type can be written.
    pub fn is_writable(&self) -> (r: bool)
        ensures
            r == self.spec_is_writable(),
    {
        match self {
            AccessType::Rw | AccessType::Wo => true,
            AccessType::Ro | AccessType::Const => false,
        }
    }

    /// Reads an access type from its lowercase name: `ro`, `wo`, `rw` or `const`.
    pub fn from_name(name: &str) -> (r: Result<AccessType, ()>)
        ensures
            match Self::spec_from_name(name@) {
                Some(a) => r == Ok::<AccessType, ()>(a),
                None => r is Err,
            },
    {
        if str_eq(name, "ro") {
            Ok(AccessType::Ro)
        } else if str_eq(name, "wo") {
            Ok(AccessType::Wo)
        } else if str_eq(name, "rw") {
            Ok(AccessType::Rw)
        } else if str_eq(name, "const") {
            Ok(AccessType::Const)
        } else {
            Err(())
        }
    }
}

/// To which kinds of PDO an object may be mapped.
#[derive(Clone, Copy, Debug, PartialEq, Eq, Structural)]
pub enum PdoMappable {
    /// Not mappable
    NotMappable,
    /// Receive PDOs only
    Rpdo,
    /// Transmit PDOs only
    Tpdo,
    /// Both kinds
    Both,
}

impl Default for PdoMappable {
    fn default() -> (r: PdoMappable)
        ensures
            r == PdoMappable::NotMappable,
    {
        PdoMappable::NotMappable
    }
}

impl PdoMappable {
    /// Tpdo and Both can be mapped to a transmit PDO.
    pub open spec fn spec_supports_tpdo(self) -> bool {
        self is Tpdo || self is Both
    }

    /// Rpdo and Both can be mapped to a receive PDO.
    pub open spec fn spec_supports_rpdo(self) -> bool {
        self is Rpdo || self is Both
    }

    /// Returns true if the object can be mapped to a transmit PDO.
    pub fn supports_tpdo(&self) -> (r: bool)
        ensures
            r == self.spec_supports_tpdo(),
    {
        match self {
            PdoMappable::Tpdo | PdoMappable::Both => true,
            _ => false,
        }
    }

    /// Returns true if the object can be mapped to a receive PDO.
    pub fn supports_rpdo(&self) -> (r: bool)
        ensures
            r == self.spec_supports_rpdo(),
    {
        match self {
            PdoMappable::Rpdo | PdoMappable::Both => true,
            _ => false,
        }
    }
}

/// The lowercase name of each access type.
pub open spec fn access_type_name(a: AccessType) -> Seq<char> {
    match a {
        AccessType::Ro => "ro"@,
        AccessType::Wo => "wo"@,
        AccessType::Rw => "rw"@,
        AccessType::Const => "const"@,
    }
}

/// Each access type is read back from its own name: `ro` is read-only, `rw` read-write, and so
/// on.
pub proof fn lemma_access_type_names(t: AccessType)
    ensures
        AccessType::spec_from_name(access_type_name(t)) == Some(t),
{
    reveal_strlit("ro");
    reveal_strlit("wo");
    reveal_strlit("rw");
    reveal_strlit("const");
    match t {
        AccessType::Ro => {},
        AccessType::Wo => {
            assert("wo"@[0] != "ro"@[0]);
        },
        AccessType::Rw => {
            assert("rw"@[1] != "ro"@[1]);
            assert("rw"@[0] != "wo"@[0]);
        },
        AccessType::Const => {
            assert("const"@.len() != "ro"@.len());
            assert("const"@.len() != "wo"@.len());
            assert("const"@.len() != "rw"@.len());
        },
    }
}

/// What a named access type allows: `ro` and `const` can be read but not written, `wo` written
/// but not read, `rw` both.
pub proof fn lemma_access_type_name_meaning(n: Seq<char>)
    ensures
        AccessType::spec_from_name(n) matches Some(a) ==> {
            &&& a.spec_is_readable() == (n != "wo"@)
            &&& a.spec_is_writable() == (n == "wo"@ || n == "rw"@)
        },
{
    reveal_strlit("ro");
    reveal_strlit("wo");
    reveal_strlit("rw");
    reveal_strlit("const");
    assert("ro"@[0] != "wo"@[0] && "rw"@[0] != "wo"@[0] && "const"@.len() != "wo"@.len());
    assert("ro"@[1] != "rw"@[1] && "const"@.len() != "rw"@.len());
}

} // verus!
