//! The device configuration: the objects of a node's object dictionary, with the standard objects
//! that every node has and the PDO objects for its number of PDOs.
use vstd::prelude::*;
use vstd::string::{StrSliceExecFns, StringExecFns};
use vstd::utf8::encode_utf8;
use crate::object_model::types::{AccessType, ObjectCode};
use crate::text::{decimal, decimal_text, digits_number, hex, hex_text, parse_digits, str_eq};

verus! {

#[verifier::external_type_specification]
#[verifier::external_body]
pub struct ExIoError(std::io::Error);

#[verifier::external_type_specification]
#[verifier::external_body]
pub struct ExTomlError(toml::de::Error);

/// Why a device configuration could not be loaded.
#[derive(Debug)]
pub enum LoadError {
    /// The file could not be read
    Io {
        /// The underlying IO error
        source: std::io::Error,
    },
    /// The TOML could not be parsed
    TomlParsing {
        /// The parser's error
        source: toml::de::Error,
    },
    /// Several objects have this index
    DuplicateObjectIds {
        /// The index defined more than once
        id: u16,
    },
    /// A record defines a sub index more than once
    DuplicateSubObjects {
        /// Index of the record
        index: u16,
        /// The duplicated sub index
        sub: u8,
    },
}

/// Returns the text of an IO error, as its `Display` (through `ToString::to_string`) writes
/// it; the text is the operating system's matter, and nothing is stated of it.
#[verifier::external_body]
fn io_error_text(e: &std::io::Error) -> String {
    e.to_string()
}

/// Returns the text of a TOML parse error, as `toml::de::Error`'s `Display` (through
/// `ToString::to_string`) writes it; nothing is stated of the text.
#[verifier::external_body]
fn toml_error_text(e: &toml::de::Error) -> String {
    e.to_string()
}

/// The text of a duplicate object error.
pub open spec fn duplicate_object_text(id: u16) -> Seq<char> {
    "Multiple definitions for object with index 0x"@ + hex_text(id as nat)
}

/// The text of a duplicate sub object error.
pub open spec fn duplicate_sub_text(index: u16, sub: u8) -> Seq<char> {
    "Multiple definitions of sub index "@ + decimal_text(sub as nat) + " on object 0x"@ + hex_text(index as nat)
}

impl LoadError {
    /// Returns the text of the error: the duplicate errors name the index in lower-case
    /// hexadecimal and the sub index in decimal; the IO and TOML errors follow their prefix with
    /// the text of the underlying error.
    pub fn message(&self) -> (r: String)
        ensures
            match self {
                LoadError::DuplicateObjectIds { id } => r@ == duplicate_object_text(*id),
                LoadError::DuplicateSubObjects { index, sub } => r@ == duplicate_sub_text(*index, *sub),
                LoadError::Io { .. } => r@.take(10) == "IO error: "@,
                LoadError::TomlParsing { .. } => r@.take(18) == "Toml parse error: "@,
            },
    {
        proof {
            reveal_strlit("Multiple definitions for object with index 0x");
            reveal_strlit("Multiple definitions of sub index ");
            reveal_strlit(" on object 0x");
            reveal_strlit("IO error: ");
            reveal_strlit("Toml parse error: ");
        }
        match self {
            LoadError::DuplicateObjectIds { id } => {
                let mut s = String::from_str("Multiple definitions for object with index 0x");
                s.append(hex(*id as usize).as_str());
                s
            },
            LoadError::DuplicateSubObjects { index, sub } => {
                let mut s = String::from_str("Multiple definitions of sub index ");
                s.append(decimal(*sub as usize).as_str());
                s.append(" on object 0x");
                s.append(hex(*index as usize).as_str());
                s
            },
            LoadError::Io { source } => {
                let mut s = String::from_str("IO error: ");
                let ghost head = s@;
                s.append(io_error_text(source).as_str());
                assert(s@.take(10) =~= head);
                s
            },
            LoadError::TomlParsing { source } => {
                let mut s = String::from_str("Toml parse error: ");
                let ghost head = s@;
                s.append(toml_error_text(source).as_str());
                assert(s@.take(18) =~= head);
                s
            },
        }
    }
}

/// The numbers of PDOs of a device.
#[derive(Clone, Copy, Debug, PartialEq, Eq, Structural)]
pub struct PdoConfig {
    /// The number of transmit PDOs; 4 when not configured
    pub num_tpdo: u8,
    /// The number of receive PDOs; 4 when not configured
    pub num_rpdo: u8,
}

impl Default for PdoConfig {
    fn default() -> (r: PdoConfig)
        ensures
            r == (PdoConfig { num_tpdo: 4, num_rpdo: 4 }),
    {
        PdoConfig { num_tpdo: 4, num_rpdo: 4 }
    }
}

/// The three configured parts of a device's identity; the serial number is set at run time.
#[derive(Clone, Copy, Debug, PartialEq, Eq, Structural)]
pub struct IdentityConfig {
    /// The vendor ID
    pub vendor_id: u32,
    /// The product code
    pub product_code: u32,
    /// The revision number
    pub revision_number: u32,
}

impl Default for IdentityConfig {
    fn default() -> (r: IdentityConfig)
        ensures
            r == (IdentityConfig { vendor_id: 0, product_code: 0, revision_number: 0 }),
    {
        IdentityConfig { vendor_id: 0, product_code: 0, revision_number: 0 }
    }
}

/// To which kinds of PDO a sub object may be mapped.
#[derive(Clone, Copy, Debug, PartialEq, Eq, Structural)]
pub enum PdoMapping {
    /// Not mappable
    NotMappable,
    /// Transmit PDOs only
    Tpdo,
    /// Receive PDOs only
    Rpdo,
    /// Both kinds
    Both,
}

impl Default for PdoMapping {
    fn default() -> (r: PdoMapping)
        ensures
            r == PdoMapping::NotMappable,
    {
        PdoMapping::NotMappable
    }
}

impl PdoMapping {
    /// Returns true if the sub object can be mapped to a transmit PDO.
    pub fn supports_tpdo(&self) -> (r: bool)
        ensures
            r == (*self is Tpdo || *self is Both),
    {
        match self {
            PdoMapping::Tpdo | PdoMapping::Both => true,
            _ => false,
        }
    }

    /// Returns true if the sub object can be mapped to a receive PDO.
    pub fn supports_rpdo(&self) -> (r: bool)
        ensures
            r == (*self is Rpdo || *self is Both),
    {
        match self {
            PdoMapping::Rpdo | PdoMapping::Both => true,
            _ => false,
        }
    }
}

/// An access type as written in a configuration.
#[derive(Clone, Copy, Debug, PartialEq, Eq, Structural)]
pub struct AccessTypeDeser(pub AccessType);

impl Default for AccessTypeDeser {
    fn default() -> (r: AccessTypeDeser)
        ensures
            r == AccessTypeDeser(AccessType::Ro),
    {
        AccessTypeDeser(AccessType::Ro)
    }
}

impl From<AccessType> for AccessTypeDeser {
    fn from(access_type: AccessType) -> (r: AccessTypeDeser) {
        AccessTypeDeser(access_type)
    }
}

impl vstd::std_specs::convert::FromSpecImpl<AccessType> for AccessTypeDeser {
    open spec fn obeys_from_spec() -> bool {
        true
    }

    open spec fn from_spec(access_type: AccessType) -> AccessTypeDeser {
        AccessTypeDeser(access_type)
    }
}

impl AccessTypeDeser {
    /// The access type named by a lowercase word: `ro`, `rw`, `wo` or `const`.
    pub open spec fn spec_from_lowercase(name: Seq<char>) -> Option<AccessTypeDeser> {
        if name == "ro"@ {
            Some(AccessTypeDeser(AccessType::Ro))
        } else if name == "rw"@ {
            Some(AccessTypeDeser(AccessType::Rw))
        } else if name == "wo"@ {
            Some(AccessTypeDeser(AccessType::Wo))
        } else if name == "const"@ {
            Some(AccessTypeDeser(AccessType::Const))
        } else {
            None
        }
    }

    /// Reads an access type from its name, already lowercased.
    pub fn from_lowercase(name: &str) -> (r: Option<AccessTypeDeser>)
        ensures
            r == Self::spec_from_lowercase(name@),
    {
        if str_eq(name, "ro") {
            Some(AccessTypeDeser(AccessType::Ro))
        } else if str_eq(name, "rw") {
            Some(AccessTypeDeser(AccessType::Rw))
        } else if str_eq(name, "wo") {
            Some(AccessTypeDeser(AccessType::Wo))
        } else if str_eq(name, "const") {
            Some(AccessTypeDeser(AccessType::Const))
        } else {
            None
        }
    }
}

/// The data types of a device configuration; the string types carry their size in bytes.
#[derive(Clone, Copy, Debug, PartialEq, Eq, Structural)]
pub enum DataType {
    /// A boolean
    Boolean,
    /// Signed 8-bit
    Int8,
    /// Signed 16-bit
    Int16,
    /// Signed 32-bit
    Int32,
    /// Unsigned 8-bit
    UInt8,
    /// Unsigned 16-bit
    UInt16,
    /// Unsigned 32-bit
    UInt32,
    /// 32-bit float
    Real32,
    /// A visible string of this many bytes
    VisibleString(usize),
    /// An octet string of this many bytes
    OctetString(usize),
    /// A unicode string of this many bytes
    UnicodeString(usize),
    /// A time of day
    TimeOfDay,
    /// A time difference
    TimeDifference,
    /// A domain
    Domain,
}

impl Default for DataType {
    fn default() -> (r: DataType)
        ensures
            r == DataType::UInt8,
    {
        DataType::UInt8
    }
}

/// Why a data type name was refused.
#[derive(Clone, Copy, Debug, PartialEq, Eq, Structural)]
pub enum DataTypeNameError {
    /// A string type whose size does not fit in `usize`
    InvalidSize,
    /// No data type has this name
    InvalidType,
}

/// A string type name: `prefix(`, one or more digits, `)`.
pub open spec fn sized_name(name: Seq<char>, prefix: Seq<char>) -> bool {
    &&& name.len() >= prefix.len() + 3
    &&& name.subrange(0, prefix.len() as int) == prefix
    &&& name[prefix.len() as int] == '('
    &&& name.last() == ')'
    &&& crate::text::all_digits(name.subrange(prefix.len() + 1int, name.len() - 1int), 10)
}

/// The size in a string type name.
pub open spec fn sized_value(name: Seq<char>, prefix: Seq<char>) -> Option<nat> {
    digits_number(name.subrange(prefix.len() + 1int, name.len() - 1int), 10, usize::MAX as nat)
}

impl DataType {
    /// Returns true for the string types.
    pub fn is_str(&self) -> (r: bool)
        ensures
            r == (*self is VisibleString || *self is OctetString || *self is UnicodeString),
    {
        match self {
            DataType::VisibleString(_) | DataType::OctetString(_) | DataType::UnicodeString(_) => true,
            _ => false,
        }
    }

    /// The storage size in bytes; a domain has variable size and counts 0.
    pub open spec fn spec_size(self) -> usize {
        match self {
            DataType::Boolean => 1,
            DataType::Int8 => 1,
            DataType::Int16 => 2,
            DataType::Int32 => 4,
            DataType::UInt8 => 1,
            DataType::UInt16 => 2,
            DataType::UInt32 => 4,
            DataType::Real32 => 4,
            DataType::VisibleString(size) => size,
            DataType::OctetString(size) => size,
            DataType::UnicodeString(size) => size,
            DataType::TimeOfDay => 6,
            DataType::TimeDifference => 6,
            DataType::Domain => 0,
        }
    }

    /// Returns the storage size of the data type in bytes.
    pub fn size(&self) -> (r: usize)
        ensures
            r == self.spec_size(),
    {
        match self {
            DataType::Boolean => 1,
            DataType::Int8 => 1,
            DataType::Int16 => 2,
            DataType::Int32 => 4,
            DataType::UInt8 => 1,
            DataType::UInt16 => 2,
            DataType::UInt32 => 4,
            DataType::Real32 => 4,
            DataType::VisibleString(size) => *size,
            DataType::OctetString(size) => *size,
            DataType::UnicodeString(size) => *size,
            DataType::TimeOfDay => 6,
            DataType::TimeDifference => 6,
            DataType::Domain => 0,
        }
    }

    /// The data type a lowercase name stands for: `boolean`, `int8`, `int16`, `int32`, `uint8`,
    /// `uint16`, `uint32`, `real32`, `visiblestring(N)`, `octetstring(N)`, `unicodestring(N)`,
    /// `timeofday`, `timedifference` or `domain`, where N is written in ASCII decimal digits.
    pub open spec fn spec_from_lowercase(name: Seq<char>) -> Result<DataType, DataTypeNameError> {
        if name == "boolean"@ {
            Ok(DataType::Boolean)
        } else if name == "int8"@ {
            Ok(DataType::Int8)
        } else if name == "int16"@ {
            Ok(DataType::Int16)
        } else if name == "int32"@ {
            Ok(DataType::Int32)
        } else if name == "uint8"@ {
            Ok(DataType::UInt8)
        } else if name == "uint16"@ {
            Ok(DataType::UInt16)
        } else if name == "uint32"@ {
            Ok(DataType::UInt32)
        } else if name == "real32"@ {
            Ok(DataType::Real32)
        } else if sized_name(name, "visiblestring"@) {
            match sized_value(name, "visiblestring"@) {
                Some(n) => Ok(DataType::VisibleString(n as usize)),
                None => Err(DataTypeNameError::InvalidSize),
            }
        } else if sized_name(name, "octetstring"@) {
            match sized_value(name, "octetstring"@) {
                Some(n) => Ok(DataType::OctetString(n as usize)),
                None => Err(DataTypeNameError::InvalidSize),
            }
        } else if sized_name(name, "unicodestring"@) {
            match sized_value(name, "unicodestring"@) {
                Some(n) => Ok(DataType::UnicodeString(n as usize)),
                None => Err(DataTypeNameError::InvalidSize),
            }
        } else if name == "timeofday"@ {
            Ok(DataType::TimeOfDay)
        } else if name == "timedifference"@ {
            Ok(DataType::TimeDifference)
        } else if name == "domain"@ {
            Ok(DataType::Domain)
        } else {
            Err(DataTypeNameError::InvalidType)
        }
    }

    /// Reads a data type from its name, already lowercased.
    pub fn from_lowercase(name: &str) -> (r: Result<DataType, DataTypeNameError>)
        ensures
            r == Self::spec_from_lowercase(name@),
    {
        if str_eq(name, "boolean") {
            Ok(DataType::Boolean)
        } else if str_eq(name, "int8") {
            Ok(DataType::Int8)
        } else if str_eq(name, "int16") {
            Ok(DataType::Int16)
        } else if str_eq(name, "int32") {
            Ok(DataType::Int32)
        } else if str_eq(name, "uint8") {
            Ok(DataType::UInt8)
        } else if str_eq(name, "uint16") {
            Ok(DataType::UInt16)
        } else if str_eq(name, "uint32") {
            Ok(DataType::UInt32)
        } else if str_eq(name, "real32") {
            Ok(DataType::Real32)
        } else if let Some(size) = sized_size(name, "visiblestring") {
            match size {
                Some(n) => Ok(DataType::VisibleString(n)),
                None => Err(DataTypeNameError::InvalidSize),
            }
        } else if let Some(size) = sized_size(name, "octetstring") {
            match size {
                Some(n) => Ok(DataType::OctetString(n)),
                None => Err(DataTypeNameError::InvalidSize),
            }
        } else if let Some(size) = sized_size(name, "unicodestring") {
            match size {
                Some(n) => Ok(DataType::UnicodeString(n)),
                None => Err(DataTypeNameError::InvalidSize),
            }
        } else if str_eq(name, "timeofday") {
            Ok(DataType::TimeOfDay)
        } else if str_eq(name, "timedifference") {
            Ok(DataType::TimeDifference)
        } else if str_eq(name, "domain") {
            Ok(DataType::Domain)
        } else {
            Err(DataTypeNameError::InvalidType)
        }
    }
}

/// Reads a string type name of the prefix: None when the name has another shape, Some(None)
/// when the size does not fit in `usize`.
fn sized_size(name: &str, prefix: &str) -> (r: Option<Option<usize>>)
    ensures
        r is None <==> !sized_name(name@, prefix@),
        r matches Some(size) ==> match sized_value(name@, prefix@) {
            Some(n) => size == Some(n as usize),
            None => size is None,
        },
{
    let n = name.unicode_len();
    let p = prefix.unicode_len();
    if n < p || n - p < 3 {
        return None;
    }
    let head = name.substring_char(0, p);
    if !str_eq(head, prefix) {
        return None;
    }
    if name.get_char(p) != '(' || name.get_char(n - 1) != ')' {
        return None;
    }
    let inner = name.substring_char(p + 1, n - 1);
    let mut i: usize = 0;
    let m = inner.unicode_len();
    while i < m
        invariant
            i <= m,
            m == inner@.len(),
            n == name@.len(),
            p == prefix@.len(),
            n >= p + 3,
            inner@ == name@.subrange(p + 1int, n - 1int),
            forall|k: int| 0 <= k < i ==> crate::text::digit_value(#[trigger] inner@[k]) < 10,
        decreases m - i,
    {
        if crate::text::digit_of(inner.get_char(i)) >= 10 {
            assert(name@.subrange(p + 1int, n - 1int)[i as int] == inner@[i as int]);
            assert(crate::text::digit_value(name@.subrange(p + 1int, n - 1int)[i as int]) >= 10);
            return None;
        }
        i = i + 1;
    }
    assert(inner@ =~= inner@.skip(0));
    assert(inner@ == name@.subrange(p + 1int, n - 1int));
    assert(head@ == name@.subrange(0, p as int));
    match parse_digits(inner, 0, 10, usize::MAX as u64) {
        Some(v) => Some(Some(v as usize)),
        None => Some(None),
    }
}

/// A default value: an integer, a float kept as the bits of an `f64`, or a string.
#[derive(Clone, Debug)]
pub enum DefaultValue {
    /// A default for integer fields
    Integer(i64),
    /// A default for float fields: the bits of the `f64`
    Float(u64),
    /// A default for string fields
    String(String),
}

/// A sub object of a record.
#[derive(Clone, Debug)]
pub struct SubDefinition {
    /// The sub index
    pub sub_index: u8,
    /// A human readable name of the value
    pub parameter_name: String,
    /// The name of the struct field for the sub object
    pub field_name: Option<String>,
    /// The data type
    pub data_type: DataType,
    /// Access permissions
    pub access_type: AccessTypeDeser,
    /// The default value
    pub default_value: Option<DefaultValue>,
    /// Whether it can be mapped to PDOs
    pub pdo_mapping: PdoMapping,
    /// Whether it is saved on the save command
    pub persist: bool,
}

/// A var object: a single value.
#[derive(Clone, Debug)]
pub struct VarDefinition {
    /// The data type
    pub data_type: DataType,
    /// Access permissions
    pub access_type: AccessTypeDeser,
    /// The default value
    pub default_value: Option<DefaultValue>,
    /// Whether it can be mapped to PDOs
    pub pdo_mapping: PdoMapping,
    /// Whether it is saved on the save command
    pub persist: bool,
}

/// An array object: values of one type.
#[derive(Clone, Debug)]
pub struct ArrayDefinition {
    /// The data type of the elements
    pub data_type: DataType,
    /// Access permissions of the elements
    pub access_type: AccessTypeDeser,
    /// The number of elements
    pub array_size: usize,
    /// Default values of the elements
    pub default_value: Option<Vec<DefaultValue>>,
    /// Whether the elements can be mapped to PDOs
    pub pdo_mapping: PdoMapping,
    /// Whether the array is saved on the save command
    pub persist: bool,
}

/// A record object: sub objects of differing types.
#[derive(Clone, Debug)]
pub struct RecordDefinition {
    /// The sub objects
    pub subs: Vec<SubDefinition>,
}

/// A domain object (not yet implemented).
#[derive(Clone, Copy, Debug, PartialEq, Eq, Structural)]
pub struct DomainDefinition {}

/// The kinds of objects in a device configuration.
#[derive(Clone, Debug)]
pub enum Object {
    /// A single value
    Var(VarDefinition),
    /// Values of one type
    Array(ArrayDefinition),
    /// Sub objects of differing types
    Record(RecordDefinition),
    /// A chunk of bytes
    Domain(DomainDefinition),
}

/// An object of the object dictionary.
#[derive(Clone, Debug)]
pub struct ObjectDefinition {
    /// The index of the object
    pub index: u16,
    /// A human readable name of the object
    pub parameter_name: String,
    /// The object is served by an application callback, with no storage in the dictionary
    pub application_callback: bool,
    /// The object itself
    pub object: Object,
}

impl ObjectDefinition {
    /// Returns the object code of the object's kind.
    pub fn object_code(&self) -> (r: ObjectCode)
        ensures
            r == match self.object {
                Object::Var(_) => ObjectCode::Var,
                Object::Array(_) => ObjectCode::Array,
                Object::Record(_) => ObjectCode::Record,
                Object::Domain(_) => ObjectCode::Domain,
            },
    {
        match self.object {
            Object::Var(_) => ObjectCode::Var,
            Object::Array(_) => ObjectCode::Array,
            Object::Record(_) => ObjectCode::Record,
            Object::Domain(_) => ObjectCode::Domain,
        }
    }
}

/// A device configuration.
#[derive(Clone, Debug)]
pub struct DeviceConfig {
    /// The name of the type of device
    pub device_name: String,
    /// The hardware version
    pub hardware_version: String,
    /// The software version
    pub software_version: String,
    /// The heartbeat period in milliseconds
    pub heartbeat_period: u16,
    /// The configured parts of the identity
    pub identity: IdentityConfig,
    /// The numbers of PDOs
    pub pdos: PdoConfig,
    /// The objects of the dictionary
    pub objects: Vec<ObjectDefinition>,
}


/// A default value with its string as characters.
pub enum DefaultModel {
    /// An integer
    Integer(i64),
    /// The bits of a float
    Float(u64),
    /// A string
    Text(Seq<char>),
}

/// A default value with its string as characters.
pub open spec fn default_model(d: DefaultValue) -> DefaultModel {
    match d {
        DefaultValue::Integer(v) => DefaultModel::Integer(v),
        DefaultValue::Float(b) => DefaultModel::Float(b),
        DefaultValue::String(s) => DefaultModel::Text(s@),
    }
}

/// An optional default value with its string as characters.
pub open spec fn opt_default(d: Option<DefaultValue>) -> Option<DefaultModel> {
    match d {
        Some(v) => Some(default_model(v)),
        None => None,
    }
}

/// A sub object with its texts as characters.
pub struct SubModel {
    /// The sub index
    pub sub_index: u8,
    /// The name
    pub name: Seq<char>,
    /// The field name
    pub field_name: Option<Seq<char>>,
    /// The data type
    pub data_type: DataType,
    /// The access type
    pub access_type: AccessType,
    /// The default value
    pub default: Option<DefaultModel>,
    /// The PDO mapping permission
    pub pdo_mapping: PdoMapping,
    /// Whether it is saved
    pub persist: bool,
}

impl SubDefinition {
    /// The sub object with its texts as characters.
    pub open spec fn model(self) -> SubModel {
        SubModel {
            sub_index: self.sub_index,
            name: self.parameter_name@,
            field_name: match self.field_name {
                Some(f) => Some(f@),
                None => None,
            },
            data_type: self.data_type,
            access_type: self.access_type.0,
            default: opt_default(self.default_value),
            pdo_mapping: self.pdo_mapping,
            persist: self.persist,
        }
    }
}

/// An object's kind and contents with texts as characters.
pub enum ObjectModel {
    /// A var object
    Var {
        /// The data type
        data_type: DataType,
        /// The access type
        access_type: AccessType,
        /// The default value
        default: Option<DefaultModel>,
        /// The PDO mapping permission
        pdo_mapping: PdoMapping,
        /// Whether it is saved
        persist: bool,
    },
    /// An array object
    Array {
        /// The data type
        data_type: DataType,
        /// The access type
        access_type: AccessType,
        /// The number of elements
        array_size: usize,
        /// The default values
        default: Option<Seq<DefaultModel>>,
        /// The PDO mapping permission
        pdo_mapping: PdoMapping,
        /// Whether it is saved
        persist: bool,
    },
    /// A record object
    Record(Seq<SubModel>),
    /// A domain object
    Domain,
}

/// An object definition with texts as characters.
pub struct DefinitionModel {
    /// The index
    pub index: u16,
    /// The name
    pub name: Seq<char>,
    /// Served by an application callback
    pub callback: bool,
    /// The object
    pub object: ObjectModel,
}

impl ObjectDefinition {
    /// The object definition with texts as characters.
    pub open spec fn model(self) -> DefinitionModel {
        DefinitionModel {
            index: self.index,
            name: self.parameter_name@,
            callback: self.application_callback,
            object: match self.object {
                Object::Var(v) => ObjectModel::Var {
                    data_type: v.data_type,
                    access_type: v.access_type.0,
                    default: opt_default(v.default_value),
                    pdo_mapping: v.pdo_mapping,
                    persist: v.persist,
                },
                Object::Array(a) => ObjectModel::Array {
                    data_type: a.data_type,
                    access_type: a.access_type.0,
                    array_size: a.array_size,
                    default: match a.default_value {
                        Some(v) => Some(Seq::new(v@.len(), |i: int| default_model(v@[i]))),
                        None => None,
                    },
                    pdo_mapping: a.pdo_mapping,
                    persist: a.persist,
                },
                Object::Record(r) => ObjectModel::Record(Seq::new(r.subs@.len(), |i: int| r.subs@[i].model())),
                Object::Domain(_) => ObjectModel::Domain,
            },
        }
    }
}

/// Object definitions with texts as characters.
pub open spec fn models(s: Seq<ObjectDefinition>) -> Seq<DefinitionModel> {
    Seq::new(s.len(), |i: int| s[i].model())
}

/// A var object that is not mappable and not served by a callback.
pub open spec fn var_model(
    index: u16,
    name: Seq<char>,
    data_type: DataType,
    access_type: AccessType,
    default: Option<DefaultModel>,
    persist: bool,
) -> DefinitionModel {
    DefinitionModel {
        index,
        name,
        callback: false,
        object: ObjectModel::Var { data_type, access_type, default, pdo_mapping: PdoMapping::NotMappable, persist },
    }
}

/// A constant u32 sub object of the identity record.
pub open spec fn identity_sub_model(sub_index: u8, name: Seq<char>, field: Seq<char>, value: i64) -> SubModel {
    SubModel {
        sub_index,
        name,
        field_name: Some(field),
        data_type: DataType::UInt32,
        access_type: AccessType::Const,
        default: Some(DefaultModel::Integer(value)),
        pdo_mapping: PdoMapping::NotMappable,
        persist: false,
    }
}

/// The number of bytes of a text in UTF-8.
pub open spec fn utf8_len(s: Seq<char>) -> usize {
    encode_utf8(s).len() as usize
}

/// The standard objects of every device, in order: device type (0x1000), error register
/// (0x1001), device name (0x1008), hardware version (0x1009), software version (0x100A), save
/// command (0x1010), heartbeat producer time (0x1017), identity (0x1018) and auto start (0x5000).
pub open spec fn spec_mandatory(c: DeviceConfig) -> Seq<DefinitionModel> {
    seq![
        var_model(0x1000, "Device Type"@, DataType::UInt32, AccessType::Const, Some(DefaultModel::Integer(0)), false),
        var_model(0x1001, "Error Register"@, DataType::UInt8, AccessType::Ro, Some(DefaultModel::Integer(0)), false),
        var_model(
            0x1008,
            "Manufacturer Device Name"@,
            DataType::VisibleString(utf8_len(c.device_name@)),
            AccessType::Const,
            Some(DefaultModel::Text(c.device_name@)),
            false,
        ),
        var_model(
            0x1009,
            "Manufacturer Hardware Version"@,
            DataType::VisibleString(utf8_len(c.hardware_version@)),
            AccessType::Const,
            Some(DefaultModel::Text(c.hardware_version@)),
            false,
        ),
        var_model(
            0x100A,
            "Manufacturer Software Version"@,
            DataType::VisibleString(utf8_len(c.software_version@)),
            AccessType::Const,
            Some(DefaultModel::Text(c.software_version@)),
            false,
        ),
        DefinitionModel {
            index: 0x1010,
            name: "Object Save Command"@,
            callback: true,
            object: ObjectModel::Array {
                data_type: DataType::UInt32,
                access_type: AccessType::Rw,
                array_size: 1,
                default: None,
                pdo_mapping: PdoMapping::NotMappable,
                persist: false,
            },
        },
        var_model(
            0x1017,
            "Heartbeat Producer Time (ms)"@,
            DataType::UInt16,
            AccessType::Const,
            Some(DefaultModel::Integer(c.heartbeat_period as i64)),
            false,
        ),
        DefinitionModel {
            index: 0x1018,
            name: "Identity"@,
            callback: false,
            object: ObjectModel::Record(
                seq![
                    identity_sub_model(1, "Vendor ID"@, "vendor_id"@, c.identity.vendor_id as i64),
                    identity_sub_model(2, "Product Code"@, "product_code"@, c.identity.product_code as i64),
                    identity_sub_model(3, "Revision Number"@, "revision"@, c.identity.revision_number as i64),
                    identity_sub_model(4, "Serial Number"@, "serial"@, 0),
                ],
            ),
        },
        var_model(0x5000, "Auto Start"@, DataType::UInt8, AccessType::Rw, None, true),
    ]
}

fn var_object(
    index: u16,
    name: &str,
    data_type: DataType,
    access_type: AccessType,
    default_value: Option<DefaultValue>,
    persist: bool,
) -> (r: ObjectDefinition)
    ensures
        r.model() == var_model(index, name@, data_type, access_type, opt_default(default_value), persist),
{
    ObjectDefinition {
        index,
        parameter_name: name.to_owned(),
        application_callback: false,
        object: Object::Var(
            VarDefinition {
                data_type,
                access_type: AccessTypeDeser(access_type),
                default_value,
                pdo_mapping: PdoMapping::NotMappable,
                persist,
            },
        ),
    }
}

fn identity_sub(sub_index: u8, name: &str, field: &str, value: i64) -> (r: SubDefinition)
    ensures
        r.model() == identity_sub_model(sub_index, name@, field@, value),
{
    SubDefinition {
        sub_index,
        parameter_name: name.to_owned(),
        field_name: Some(field.to_owned()),
        data_type: DataType::UInt32,
        access_type: AccessTypeDeser(AccessType::Const),
        default_value: Some(DefaultValue::Integer(value)),
        pdo_mapping: PdoMapping::NotMappable,
        persist: false,
    }
}

/// Returns the standard objects that every device has, for a configuration.
pub fn mandatory_objects(config: &DeviceConfig) -> (r: Vec<ObjectDefinition>)
    ensures
        models(r@) == spec_mandatory(*config),
{
    let mut r: Vec<ObjectDefinition> = Vec::new();
    r.push(var_object(0x1000, "Device Type", DataType::UInt32, AccessType::Const, Some(DefaultValue::Integer(0)), false));
    r.push(var_object(0x1001, "Error Register", DataType::UInt8, AccessType::Ro, Some(DefaultValue::Integer(0)), false));
    r.push(
        var_object(
            0x1008,
            "Manufacturer Device Name",
            DataType::VisibleString(config.device_name.as_str().len()),
            AccessType::Const,
            Some(DefaultValue::String(config.device_name.clone())),
            false,
        ),
    );
    r.push(
        var_object(
            0x1009,
            "Manufacturer Hardware Version",
            DataType::VisibleString(config.hardware_version.as_str().len()),
            AccessType::Const,
            Some(DefaultValue::String(config.hardware_version.clone())),
            false,
        ),
    );
    r.push(
        var_object(
            0x100A,
            "Manufacturer Software Version",
            DataType::VisibleString(config.software_version.as_str().len()),
            AccessType::Const,
            Some(DefaultValue::String(config.software_version.clone())),
            false,
        ),
    );
    r.push(
        ObjectDefinition {
            index: 0x1010,
            parameter_name: "Object Save Command".to_owned(),
            application_callback: true,
            object: Object::Array(
                ArrayDefinition {
                    data_type: DataType::UInt32,
                    access_type: AccessTypeDeser(AccessType::Rw),
                    array_size: 1,
                    default_value: None,
                    pdo_mapping: PdoMapping::NotMappable,
                    persist: false,
                },
            ),
        },
    );
    r.push(
        var_object(
            0x1017,
            "Heartbeat Producer Time (ms)",
            DataType::UInt16,
            AccessType::Const,
            Some(DefaultValue::Integer(config.heartbeat_period as i64)),
            false,
        ),
    );
    let mut subs: Vec<SubDefinition> = Vec::new();
    subs.push(identity_sub(1, "Vendor ID", "vendor_id", config.identity.vendor_id as i64));
    subs.push(identity_sub(2, "Product Code", "product_code", config.identity.product_code as i64));
    subs.push(identity_sub(3, "Revision Number", "revision", config.identity.revision_number as i64));
    subs.push(identity_sub(4, "Serial Number", "serial", 0));
    let ghost sub_models = Seq::new(subs@.len(), |i: int| subs@[i].model());
    r.push(
        ObjectDefinition {
            index: 0x1018,
            parameter_name: "Identity".to_owned(),
            application_callback: false,
            object: Object::Record(RecordDefinition { subs }),
        },
    );
    r.push(var_object(0x5000, "Auto Start", DataType::UInt8, AccessType::Rw, None, true));
    assert(sub_models =~= seq![
        identity_sub_model(1, "Vendor ID"@, "vendor_id"@, config.identity.vendor_id as i64),
        identity_sub_model(2, "Product Code"@, "product_code"@, config.identity.product_code as i64),
        identity_sub_model(3, "Revision Number"@, "revision"@, config.identity.revision_number as i64),
        identity_sub_model(4, "Serial Number"@, "serial"@, 0),
    ]);
    assert(models(r@) =~= spec_mandatory(*config));
    r
}


/// `TPDO` or `RPDO`.
pub open spec fn pdo_kind(tx: bool) -> Seq<char> {
    if tx {
        "TPDO"@
    } else {
        "RPDO"@
    }
}

/// The name of PDO `i`, such as `TPDO3`.
pub open spec fn pdo_label(tx: bool, i: nat) -> Seq<char> {
    pdo_kind(tx) + decimal_text(i)
}

/// A read-write sub object of a PDO object that is saved and not mappable.
pub open spec fn pdo_sub_model(sub_index: u8, name: Seq<char>, data_type: DataType, default: Option<DefaultModel>) -> SubModel {
    SubModel {
        sub_index,
        name,
        field_name: None,
        data_type,
        access_type: AccessType::Rw,
        default,
        pdo_mapping: PdoMapping::NotMappable,
        persist: true,
    }
}

/// The communication parameter object of PDO `i`: COB ID (sub 1) and transmission type (sub 2).
pub open spec fn pdo_comm_model(tx: bool, i: nat) -> DefinitionModel {
    DefinitionModel {
        index: ((if tx { 0x1800int } else { 0x1400int }) + i) as u16,
        name: pdo_label(tx, i) + " Communication Parameter"@,
        callback: true,
        object: ObjectModel::Record(
            seq![
                pdo_sub_model(1, "COB-ID for "@ + pdo_label(tx, i), DataType::UInt32, None),
                pdo_sub_model(2, "Transmission type for "@ + pdo_label(tx, i), DataType::UInt8, None),
            ],
        ),
    }
}

/// Sub `sub` of the mapping object of PDO `i`: the number of valid mappings at sub 0, then the
/// mapping entries at subs 1 through 9.
pub open spec fn pdo_mapping_sub_model(tx: bool, i: nat, sub: nat) -> SubModel {
    if sub == 0 {
        pdo_sub_model(0, "Valid Mappings"@, DataType::UInt8, Some(DefaultModel::Integer(0)))
    } else {
        pdo_sub_model(
            sub as u8,
            pdo_label(tx, i) + " Mapping App Object "@ + decimal_text(sub),
            DataType::UInt32,
            None,
        )
    }
}

/// The number of subs of a PDO mapping object: sub 0 and the mapping subs 1 through 9.
pub const PDO_MAPPING_SUBS: usize = 10;

/// The mapping parameter object of PDO `i`: sub 0, the number of valid mappings, then the
/// mapping subs 1 through 9.
pub open spec fn pdo_mapping_model(tx: bool, i: nat) -> DefinitionModel {
    DefinitionModel {
        index: ((if tx { 0x1A00int } else { 0x1600int }) + i) as u16,
        name: pdo_label(tx, i) + " Mapping Parameters"@,
        callback: true,
        object: ObjectModel::Record(Seq::new(PDO_MAPPING_SUBS as nat, |s: int| pdo_mapping_sub_model(tx, i, s as nat))),
    }
}

/// The objects of `n` PDOs of one kind: for each, its communication object, then its mapping
/// object.
pub open spec fn pdo_kind_objects(tx: bool, n: nat) -> Seq<DefinitionModel> {
    Seq::new(
        2 * n,
        |k: int|
            if k % 2 == 0 {
                pdo_comm_model(tx, (k / 2) as nat)
            } else {
                pdo_mapping_model(tx, (k / 2) as nat)
            },
    )
}

/// The PDO objects of a device: those of the receive PDOs, then those of the transmit PDOs.
pub open spec fn spec_pdo_objects(num_rpdo: nat, num_tpdo: nat) -> Seq<DefinitionModel> {
    pdo_kind_objects(false, num_rpdo) + pdo_kind_objects(true, num_tpdo)
}

fn pdo_label_text(tx: bool, i: usize) -> (r: String)
    ensures
        r@ == pdo_label(tx, i as nat),
{
    let mut s = if tx {
        String::from_str("TPDO")
    } else {
        String::from_str("RPDO")
    };
    let d = decimal(i);
    s.append(d.as_str());
    s
}

fn pdo_sub(sub_index: u8, name: String, data_type: DataType, default_value: Option<DefaultValue>) -> (r: SubDefinition)
    ensures
        r.model() == pdo_sub_model(sub_index, name@, data_type, opt_default(default_value)),
{
    SubDefinition {
        sub_index,
        parameter_name: name,
        field_name: None,
        data_type,
        access_type: AccessTypeDeser(AccessType::Rw),
        default_value,
        pdo_mapping: PdoMapping::NotMappable,
        persist: true,
    }
}

/// Appends the communication and mapping objects of PDO `i`.
fn add_pdo_objects(objects: &mut Vec<ObjectDefinition>, i: usize, tx: bool)
    requires
        i < 256,
    ensures
        models(final(objects)@) == models(old(objects)@) + seq![pdo_comm_model(tx, i as nat), pdo_mapping_model(tx, i as nat)],
{
    let comm_index: u16 = if tx { 0x1800 } else { 0x1400 };
    let mapping_index: u16 = if tx { 0x1A00 } else { 0x1600 };

    let mut cob_name = String::from_str("COB-ID for ");
    cob_name.append(pdo_label_text(tx, i).as_str());
    let mut tt_name = String::from_str("Transmission type for ");
    tt_name.append(pdo_label_text(tx, i).as_str());
    let mut comm_subs: Vec<SubDefinition> = Vec::new();
    comm_subs.push(pdo_sub(1, cob_name, DataType::UInt32, None));
    comm_subs.push(pdo_sub(2, tt_name, DataType::UInt8, None));
    let ghost comm_models = Seq::new(comm_subs@.len(), |k: int| comm_subs@[k].model());
    let mut comm_name = pdo_label_text(tx, i);
    comm_name.append(" Communication Parameter");
    let comm = ObjectDefinition {
        index: comm_index + i as u16,
        parameter_name: comm_name,
        application_callback: true,
        object: Object::Record(RecordDefinition { subs: comm_subs }),
    };
    assert(comm_models =~= seq![
        pdo_sub_model(1, "COB-ID for "@ + pdo_label(tx, i as nat), DataType::UInt32, None),
        pdo_sub_model(2, "Transmission type for "@ + pdo_label(tx, i as nat), DataType::UInt8, None),
    ]);
    assert(comm.model() == pdo_comm_model(tx, i as nat));

    let mut mapping_subs: Vec<SubDefinition> = Vec::new();
    mapping_subs.push(pdo_sub(0, String::from_str("Valid Mappings"), DataType::UInt8, Some(DefaultValue::Integer(0))));
    let mut sub: usize = 1;
    while sub < PDO_MAPPING_SUBS
        invariant
            1 <= sub <= PDO_MAPPING_SUBS,
            i < 256,
            mapping_subs@.len() == sub,
            forall|k: int| 0 <= k < sub ==> #[trigger] mapping_subs@[k].model() == pdo_mapping_sub_model(tx, i as nat, k as nat),
        decreases PDO_MAPPING_SUBS - sub,
    {
        let mut name = pdo_label_text(tx, i);
        name.append(" Mapping App Object ");
        name.append(decimal(sub).as_str());
        mapping_subs.push(pdo_sub(sub as u8, name, DataType::UInt32, None));
        sub = sub + 1;
    }
    let ghost mapping_models = Seq::new(mapping_subs@.len(), |k: int| mapping_subs@[k].model());
    let mut mapping_name = pdo_label_text(tx, i);
    mapping_name.append(" Mapping Parameters");
    let mapping = ObjectDefinition {
        index: mapping_index + i as u16,
        parameter_name: mapping_name,
        application_callback: true,
        object: Object::Record(RecordDefinition { subs: mapping_subs }),
    };
    assert(mapping_models =~= Seq::new(PDO_MAPPING_SUBS as nat, |s: int| pdo_mapping_sub_model(tx, i as nat, s as nat)));
    assert(mapping.model() == pdo_mapping_model(tx, i as nat));
    let ghost before = objects@;
    objects.push(comm);
    objects.push(mapping);
    assert(models(objects@) =~= models(before) + seq![pdo_comm_model(tx, i as nat), pdo_mapping_model(tx, i as nat)]);
}

/// Returns the PDO objects of a device with the given numbers of receive and transmit PDOs.
pub fn pdo_objects(num_rpdo: usize, num_tpdo: usize) -> (r: Vec<ObjectDefinition>)
    requires
        num_rpdo <= 255,
        num_tpdo <= 255,
    ensures
        models(r@) == spec_pdo_objects(num_rpdo as nat, num_tpdo as nat),
{
    let mut objects: Vec<ObjectDefinition> = Vec::new();
    let mut i: usize = 0;
    while i < num_rpdo
        invariant
            i <= num_rpdo <= 255,
            models(objects@) == pdo_kind_objects(false, i as nat),
        decreases num_rpdo - i,
    {
        add_pdo_objects(&mut objects, i, false);
        assert(pdo_kind_objects(false, (i + 1) as nat) =~= pdo_kind_objects(false, i as nat) + seq![
            pdo_comm_model(false, i as nat),
            pdo_mapping_model(false, i as nat),
        ]);
        i = i + 1;
    }
    let ghost rx = objects@;
    let mut j: usize = 0;
    while j < num_tpdo
        invariant
            j <= num_tpdo <= 255,
            models(rx) == pdo_kind_objects(false, num_rpdo as nat),
            models(objects@) == models(rx) + pdo_kind_objects(true, j as nat),
        decreases num_tpdo - j,
    {
        add_pdo_objects(&mut objects, j, true);
        assert(pdo_kind_objects(true, (j + 1) as nat) =~= pdo_kind_objects(true, j as nat) + seq![
            pdo_comm_model(true, j as nat),
            pdo_mapping_model(true, j as nat),
        ]);
        j = j + 1;
    }
    objects
}


/// Object `i` has the index of an earlier object.
pub open spec fn index_repeated(objs: Seq<DefinitionModel>, i: int) -> bool {
    exists|j: int| 0 <= j < i && objs[j].index == objs[i].index
}

/// Sub `k` has the sub index of an earlier sub.
pub open spec fn sub_repeated(subs: Seq<SubModel>, k: int) -> bool {
    exists|j: int| 0 <= j < k && subs[j].sub_index == subs[k].sub_index
}

/// The first sub, from position `k` on, whose sub index was seen before.
pub open spec fn first_sub_repeat(subs: Seq<SubModel>, k: int) -> Option<int>
    decreases subs.len() - k,
{
    if k < 0 || k >= subs.len() {
        None
    } else if sub_repeated(subs, k) {
        Some(k)
    } else {
        first_sub_repeat(subs, k + 1)
    }
}

/// The first duplicate met when the objects are checked in order from position `i`: an object
/// whose index was seen before (with no sub), or else the first repeated sub index of a record
/// (with that sub).
pub open spec fn first_duplicate(objs: Seq<DefinitionModel>, i: int) -> Option<(u16, Option<u8>)>
    decreases objs.len() - i,
{
    if i < 0 || i >= objs.len() {
        None
    } else if index_repeated(objs, i) {
        Some((objs[i].index, None))
    } else {
        match objs[i].object {
            ObjectModel::Record(subs) => match first_sub_repeat(subs, 0) {
                Some(k) => Some((objs[i].index, Some(subs[k].sub_index))),
                None => first_duplicate(objs, i + 1),
            },
            _ => first_duplicate(objs, i + 1),
        }
    }
}

/// The load error for a duplicate found among the indices.
pub open spec fn duplicate_error(d: Option<(u16, Option<u8>)>, r: Result<(), LoadError>) -> bool {
    match d {
        None => r is Ok,
        Some((id, None)) => r matches Err(LoadError::DuplicateObjectIds { id: x }) && x == id,
        Some((index, Some(sub))) => r matches Err(LoadError::DuplicateSubObjects { index: a, sub: b }) && a == index
            && b == sub,
    }
}

/// The sub objects with their texts as characters.
pub open spec fn sub_models(subs: Seq<SubDefinition>) -> Seq<SubModel> {
    Seq::new(subs.len(), |i: int| subs[i].model())
}

fn first_repeated_sub(subs: &Vec<SubDefinition>) -> (r: Option<u8>)
    ensures
        match first_sub_repeat(sub_models(subs@), 0) {
            Some(k) => 0 <= k < subs@.len() && r == Some(subs@[k].sub_index),
            None => r is None,
        },
{
    let ghost ms = sub_models(subs@);
    let n = subs.len();
    let mut k: usize = 0;
    while k < n
        invariant
            k <= n,
            n == subs@.len(),
            ms == sub_models(subs@),
            first_sub_repeat(ms, 0) == first_sub_repeat(ms, k as int),
        decreases n - k,
    {
        let mut j: usize = 0;
        while j < k
            invariant
                j <= k < n,
                n == subs@.len(),
                ms == sub_models(subs@),
                first_sub_repeat(ms, 0) == first_sub_repeat(ms, k as int),
                forall|m: int| 0 <= m < j ==> ms[m].sub_index != ms[k as int].sub_index,
            decreases k - j,
        {
            if subs[j].sub_index == subs[k].sub_index {
                assert(ms[j as int].sub_index == ms[k as int].sub_index);
                assert(sub_repeated(ms, k as int));
                return Some(subs[k].sub_index);
            }
            j = j + 1;
        }
        assert(!sub_repeated(ms, k as int));
        k = k + 1;
    }
    None
}

/// Checks that no two objects share an index and that no record repeats a sub index; the
/// first duplicate met in order is the error.
pub fn validate_unique_indices(objects: &[ObjectDefinition]) -> (r: Result<(), LoadError>)
    ensures
        duplicate_error(first_duplicate(models(objects@), 0), r),
{
    let ghost ms = models(objects@);
    let n = objects.len();
    let mut i: usize = 0;
    while i < n
        invariant
            i <= n,
            n == objects@.len(),
            ms == models(objects@),
            first_duplicate(ms, 0) == first_duplicate(ms, i as int),
        decreases n - i,
    {
        let mut j: usize = 0;
        while j < i
            invariant
                j <= i < n,
                n == objects@.len(),
                ms == models(objects@),
                first_duplicate(ms, 0) == first_duplicate(ms, i as int),
                forall|m: int| 0 <= m < j ==> ms[m].index != ms[i as int].index,
            decreases i - j,
        {
            if objects[j].index == objects[i].index {
                assert(ms[j as int].index == ms[i as int].index);
                assert(index_repeated(ms, i as int));
                return Err(LoadError::DuplicateObjectIds { id: objects[i].index });
            }
            j = j + 1;
        }
        assert(!index_repeated(ms, i as int));
        if let Object::Record(record) = &objects[i].object {
            assert(ms[i as int].object == ObjectModel::Record(sub_models(record.subs@)));
            if let Some(sub) = first_repeated_sub(&record.subs) {
                return Err(LoadError::DuplicateSubObjects { index: objects[i].index, sub });
            }
        }
        i = i + 1;
    }
    Ok(())
}

impl DeviceConfig {
    /// Adds the standard objects and the PDO objects to the configured ones, then checks that
    /// all indices are unique and that no record repeats a sub index.
    pub fn with_standard_objects(self) -> (r: Result<DeviceConfig, LoadError>)
        ensures
            ({
                let all = models(self.objects@) + spec_mandatory(self) + spec_pdo_objects(
                    self.pdos.num_rpdo as nat,
                    self.pdos.num_tpdo as nat,
                );
                &&& duplicate_error(first_duplicate(all, 0), match r {
                    Ok(_) => Ok(()),
                    Err(e) => Err(e),
                })
                &&& r matches Ok(c) ==> models(c.objects@) == all && c.device_name == self.device_name
                    && c.hardware_version == self.hardware_version && c.software_version == self.software_version
                    && c.heartbeat_period == self.heartbeat_period && c.identity == self.identity && c.pdos
                    == self.pdos
            }),
    {
        let mut config = self;
        let mut mandatory = mandatory_objects(&config);
        let mut pdo = pdo_objects(config.pdos.num_rpdo as usize, config.pdos.num_tpdo as usize);
        let ghost start = config.objects@;
        let ghost m0 = mandatory@;
        let ghost p0 = pdo@;
        config.objects.append(&mut mandatory);
        config.objects.append(&mut pdo);
        assert(config.objects@ =~= start + m0 + p0);
        assert(models(config.objects@) =~= models(start) + models(m0) + models(p0));
        match validate_unique_indices(config.objects.as_slice()) {
            Ok(()) => Ok(config),
            Err(e) => Err(e),
        }
    }
}


/// No two objects share an index.
pub open spec fn indices_distinct(ms: Seq<DefinitionModel>) -> bool {
    forall|i: int, j: int| 0 <= i < j < ms.len() ==> ms[i].index != ms[j].index
}

/// No record repeats a sub index.
pub open spec fn subs_distinct(ms: Seq<DefinitionModel>) -> bool {
    forall|i: int|
        0 <= i < ms.len() ==> (#[trigger] ms[i].object matches ObjectModel::Record(subs) ==> forall|a: int, b: int|
            0 <= a < b < subs.len() ==> subs[a].sub_index != subs[b].sub_index)
}

proof fn lemma_no_sub_repeat(subs: Seq<SubModel>, k: int)
    requires
        0 <= k,
        forall|a: int, b: int| 0 <= a < b < subs.len() ==> subs[a].sub_index != subs[b].sub_index,
    ensures
        first_sub_repeat(subs, k) is None,
    decreases subs.len() - k,
{
    if k < subs.len() {
        assert(!sub_repeated(subs, k));
        lemma_no_sub_repeat(subs, k + 1);
    }
}

proof fn lemma_no_duplicate(ms: Seq<DefinitionModel>, i: int)
    requires
        0 <= i,
        indices_distinct(ms),
        subs_distinct(ms),
    ensures
        first_duplicate(ms, i) is None,
    decreases ms.len() - i,
{
    if i < ms.len() {
        assert(!index_repeated(ms, i));
        if let ObjectModel::Record(subs) = ms[i].object {
            lemma_no_sub_repeat(subs, 0);
        }
        lemma_no_duplicate(ms, i + 1);
    }
}

/// The index of the object at position `p` of the objects of PDOs of one kind.
proof fn lemma_pdo_object_index(tx: bool, n: nat, p: int)
    requires
        n <= 255,
        0 <= p < 2 * n,
    ensures
        pdo_kind_objects(tx, n)[p].index as int == (if tx { 0x1800int } else { 0x1400int }) + (if p % 2 == 0 {
            0int
        } else {
            0x200int
        }) + p / 2,
        pdo_kind_objects(tx, n)[p].object matches ObjectModel::Record(subs) && forall|a: int, b: int|
            0 <= a < b < subs.len() ==> subs[a].sub_index != subs[b].sub_index,
{
    if p % 2 != 0 {
        let m = pdo_mapping_model(tx, (p / 2) as nat);
        if let ObjectModel::Record(subs) = m.object {
            assert forall|a: int, b: int| 0 <= a < b < subs.len() implies subs[a].sub_index != subs[b].sub_index by {
                assert(subs[a].sub_index == a);
                assert(subs[b].sub_index == b);
            }
        }
    }
}

/// Adding the standard objects and the PDO objects to a configuration without objects of its own
/// finds no duplicate index and no repeated sub index, for any numbers of PDOs.
pub proof fn lemma_standard_objects_unique(c: DeviceConfig)
    requires
        c.objects@.len() == 0,
    ensures
        first_duplicate(
            models(c.objects@) + spec_mandatory(c) + spec_pdo_objects(c.pdos.num_rpdo as nat, c.pdos.num_tpdo as nat),
            0,
        ) is None,
{
    let m = spec_mandatory(c);
    let rx = pdo_kind_objects(false, c.pdos.num_rpdo as nat);
    let tx = pdo_kind_objects(true, c.pdos.num_tpdo as nat);
    let all = models(c.objects@) + m + (rx + tx);
    assert(models(c.objects@) =~= Seq::<DefinitionModel>::empty());
    assert(all =~= m + rx + tx);
    let nm = m.len() as int;
    let nr = rx.len() as int;
    assert forall|i: int| 0 <= i < all.len() implies (nm <= i ==> 0x1400 <= #[trigger] all[i].index <= 0x1BFF) && (i
        < nm ==> all[i].index <= 0x1018 || all[i].index == 0x5000) by {
        if nm <= i < nm + nr {
            lemma_pdo_object_index(false, c.pdos.num_rpdo as nat, i - nm);
        } else if nm + nr <= i {
            lemma_pdo_object_index(true, c.pdos.num_tpdo as nat, i - nm - nr);
        }
    }
    assert forall|i: int, j: int| 0 <= i < j < all.len() implies all[i].index != all[j].index by {
        if j < nm {
        } else if i < nm {
            assert(0x1400 <= all[j].index <= 0x1BFF);
        } else if j < nm + nr {
            lemma_pdo_object_index(false, c.pdos.num_rpdo as nat, i - nm);
            lemma_pdo_object_index(false, c.pdos.num_rpdo as nat, j - nm);
        } else if i >= nm + nr {
            lemma_pdo_object_index(true, c.pdos.num_tpdo as nat, i - nm - nr);
            lemma_pdo_object_index(true, c.pdos.num_tpdo as nat, j - nm - nr);
        } else {
            lemma_pdo_object_index(false, c.pdos.num_rpdo as nat, i - nm);
            lemma_pdo_object_index(true, c.pdos.num_tpdo as nat, j - nm - nr);
        }
    }
    assert forall|i: int| 0 <= i < all.len() implies (#[trigger] all[i].object matches ObjectModel::Record(subs)
        ==> forall|a: int, b: int| 0 <= a < b < subs.len() ==> subs[a].sub_index != subs[b].sub_index) by {
        if nm <= i < nm + nr {
            lemma_pdo_object_index(false, c.pdos.num_rpdo as nat, i - nm);
        } else if nm + nr <= i {
            lemma_pdo_object_index(true, c.pdos.num_tpdo as nat, i - nm - nr);
        }
    }
    lemma_no_duplicate(all, 0);
}

/// The lowercase name of each access type in a device configuration.
pub open spec fn access_type_deser_name(a: AccessType) -> Seq<char> {
    crate::object_model::types::access_type_name(a)
}

/// Each access type of a device configuration is read back from its own name: `ro` is
/// read-only, `rw` read-write, and so on.
pub proof fn lemma_access_type_deser_names(t: AccessType)
    ensures
        AccessTypeDeser::spec_from_lowercase(access_type_deser_name(t)) == Some(AccessTypeDeser(t)),
{
    reveal_strlit("ro");
    reveal_strlit("rw");
    reveal_strlit("wo");
    reveal_strlit("const");
    match t {
        AccessType::Ro => {},
        AccessType::Rw => {
            assert("rw"@[1] != "ro"@[1]);
        },
        AccessType::Wo => {
            assert("wo"@[0] != "ro"@[0]);
            assert("wo"@[0] != "rw"@[0]);
        },
        AccessType::Const => {
            assert("const"@.len() != "ro"@.len());
            assert("const"@.len() != "rw"@.len());
            assert("const"@.len() != "wo"@.len());
        },
    }
}

/// The lowercase name of each data type that has a fixed name; the string types are named
/// with their size.
pub open spec fn fixed_data_type_name(t: DataType) -> Option<Seq<char>> {
    match t {
        DataType::Boolean => Some("boolean"@),
        DataType::Int8 => Some("int8"@),
        DataType::Int16 => Some("int16"@),
        DataType::Int32 => Some("int32"@),
        DataType::UInt8 => Some("uint8"@),
        DataType::UInt16 => Some("uint16"@),
        DataType::UInt32 => Some("uint32"@),
        DataType::Real32 => Some("real32"@),
        DataType::TimeOfDay => Some("timeofday"@),
        DataType::TimeDifference => Some("timedifference"@),
        DataType::Domain => Some("domain"@),
        _ => None,
    }
}

/// Each data type with a fixed name is read back from its name.
pub proof fn lemma_data_type_names(t: DataType)
    ensures
        fixed_data_type_name(t) matches Some(n) ==> DataType::spec_from_lowercase(n) == Ok::<DataType, DataTypeNameError>(t),
{
    reveal_strlit("boolean");
    reveal_strlit("int8");
    reveal_strlit("int16");
    reveal_strlit("int32");
    reveal_strlit("uint8");
    reveal_strlit("uint16");
    reveal_strlit("uint32");
    reveal_strlit("real32");
    reveal_strlit("timeofday");
    reveal_strlit("timedifference");
    reveal_strlit("domain");
    match t {
        DataType::Boolean => {
            assert("boolean"@.last() != ')');
        },
        DataType::Int8 => {
            assert("int8"@.len() != "boolean"@.len());
            assert("int8"@.last() != ')');
        },
        DataType::Int16 => {
            assert("int16"@.len() != "boolean"@.len());
            assert("int16"@.len() != "int8"@.len());
            assert("int16"@.last() != ')');
        },
        DataType::Int32 => {
            assert("int32"@.len() != "boolean"@.len());
            assert("int32"@.len() != "int8"@.len());
            assert("int32"@[3] != "int16"@[3]);
            assert("int32"@.last() != ')');
        },
        DataType::UInt8 => {
            assert("uint8"@.len() != "boolean"@.len());
            assert("uint8"@.len() != "int8"@.len());
            assert("uint8"@[0] != "int16"@[0]);
            assert("uint8"@[0] != "int32"@[0]);
            assert("uint8"@.last() != ')');
        },
        DataType::UInt16 => {
            assert("uint16"@.len() != "boolean"@.len());
            assert("uint16"@.len() != "int8"@.len());
            assert("uint16"@.len() != "int16"@.len());
            assert("uint16"@.len() != "int32"@.len());
            assert("uint16"@.len() != "uint8"@.len());
            assert("uint16"@.last() != ')');
        },
        DataType::UInt32 => {
            assert("uint32"@.len() != "boolean"@.len());
            assert("uint32"@.len() != "int8"@.len());
            assert("uint32"@.len() != "int16"@.len());
            assert("uint32"@.len() != "int32"@.len());
            assert("uint32"@.len() != "uint8"@.len());
            assert("uint32"@[4] != "uint16"@[4]);
            assert("uint32"@.last() != ')');
        },
        DataType::Real32 => {
            assert("real32"@.len() != "boolean"@.len());
            assert("real32"@.len() != "int8"@.len());
            assert("real32"@.len() != "int16"@.len());
            assert("real32"@.len() != "int32"@.len());
            assert("real32"@.len() != "uint8"@.len());
            assert("real32"@[0] != "uint16"@[0]);
            assert("real32"@[0] != "uint32"@[0]);
            assert("real32"@.last() != ')');
        },
        DataType::TimeOfDay => {
            assert("timeofday"@.len() != "boolean"@.len());
            assert("timeofday"@.len() != "int8"@.len());
            assert("timeofday"@.len() != "int16"@.len());
            assert("timeofday"@.len() != "int32"@.len());
            assert("timeofday"@.len() != "uint8"@.len());
            assert("timeofday"@.len() != "uint16"@.len());
            assert("timeofday"@.len() != "uint32"@.len());
            assert("timeofday"@.len() != "real32"@.len());
            assert("timeofday"@.last() != ')');
        },
        DataType::TimeDifference => {
            assert("timedifference"@.len() != "boolean"@.len());
            assert("timedifference"@.len() != "int8"@.len());
            assert("timedifference"@.len() != "int16"@.len());
            assert("timedifference"@.len() != "int32"@.len());
            assert("timedifference"@.len() != "uint8"@.len());
            assert("timedifference"@.len() != "uint16"@.len());
            assert("timedifference"@.len() != "uint32"@.len());
            assert("timedifference"@.len() != "real32"@.len());
            assert("timedifference"@.len() != "timeofday"@.len());
            assert("timedifference"@.last() != ')');
        },
        DataType::Domain => {
            assert("domain"@.len() != "boolean"@.len());
            assert("domain"@.len() != "int8"@.len());
            assert("domain"@.len() != "int16"@.len());
            assert("domain"@.len() != "int32"@.len());
            assert("domain"@.len() != "uint8"@.len());
            assert("domain"@[0] != "uint16"@[0]);
            assert("domain"@[0] != "uint32"@[0]);
            assert("domain"@[0] != "real32"@[0]);
            assert("domain"@.len() != "timeofday"@.len());
            assert("domain"@.len() != "timedifference"@.len());
            assert("domain"@.last() != ')');
        },
        _ => {},
    }
}

/// The name of a string type of `n` bytes: the type's word, then `n` in decimal in brackets.
pub open spec fn sized_type_name(word: Seq<char>, n: nat) -> Seq<char> {
    word + seq!['('] + decimal_text(n) + seq![')']
}

/// A sized name that starts with `word` is read by its own word only.
proof fn lemma_sized_name_word(n: nat, word: Seq<char>, other: Seq<char>)
    requires
        word.len() == 13 || word.len() == 11,
        other.len() == 13 || other.len() == 11,
        word[0] != other[0],
    ensures
        !sized_name(sized_type_name(word, n), other),
{
    let name = sized_type_name(word, n);
    if sized_name(name, other) {
        assert(name.subrange(0, other.len() as int)[0] == name[0]);
        assert(name[0] == word[0]);
    }
}

/// Each string type is read back from its name with its size: `visiblestring(N)`,
/// `octetstring(N)` and `unicodestring(N)`.
pub proof fn lemma_sized_type_names(n: nat)
    requires
        n <= usize::MAX,
    ensures
        DataType::spec_from_lowercase(sized_type_name("visiblestring"@, n)) == Ok::<DataType, DataTypeNameError>(
            DataType::VisibleString(n as usize),
        ),
        DataType::spec_from_lowercase(sized_type_name("octetstring"@, n)) == Ok::<DataType, DataTypeNameError>(
            DataType::OctetString(n as usize),
        ),
        DataType::spec_from_lowercase(sized_type_name("unicodestring"@, n)) == Ok::<DataType, DataTypeNameError>(
            DataType::UnicodeString(n as usize),
        ),
{
    reveal_strlit("visiblestring");
    reveal_strlit("octetstring");
    reveal_strlit("unicodestring");
    reveal_strlit("boolean");
    reveal_strlit("int8");
    reveal_strlit("int16");
    reveal_strlit("int32");
    reveal_strlit("uint8");
    reveal_strlit("uint16");
    reveal_strlit("uint32");
    reveal_strlit("real32");
    crate::text::lemma_decimal_text_reads_back(n);
    let d = decimal_text(n);
    let words = seq!["visiblestring"@, "octetstring"@, "unicodestring"@];
    assert forall|k: int| 0 <= k < 3 implies {
        let w = #[trigger] words[k];
        let name = sized_type_name(w, n);
        &&& sized_name(name, w)
        &&& sized_value(name, w) == Some(n)
        &&& name.len() > 7
    } by {
        let w = words[k];
        let name = sized_type_name(w, n);
        assert(name.subrange(0, w.len() as int) =~= w);
        assert(name.subrange(w.len() + 1int, name.len() - 1int) =~= d);
        assert(name[w.len() as int] == '(');
        assert(name.last() == ')');
    }
    let (v, o, u) = (words[0], words[1], words[2]);
    lemma_sized_name_word(n, o, v);
    lemma_sized_name_word(n, u, v);
    lemma_sized_name_word(n, u, o);
}

} // verus!
