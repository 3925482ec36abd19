//! Specifications of objects in an object dictionary: their shape, and for each sub object its
//! type, access, default value and mapping.
use vstd::prelude::*;
use std::collections::BTreeMap;
use crate::object_model::types::{AccessType, DataType, PdoMappable};

verus! {

/// A default value for an object dictionary value.
#[derive(Clone, Debug, PartialEq)]
pub enum DefaultValue {
    /// A default value for integer fields
    Integer(i64),
    /// A default value for float fields: the bits of the `f64`
    Float(u64),
    /// A default value for string-like fields
    String(String),
}

impl From<i64> for DefaultValue {
    fn from(value: i64) -> (r: Self) {
        DefaultValue::Integer(value)
    }
}

impl vstd::std_specs::convert::FromSpecImpl<i64> for DefaultValue {
    open spec fn obeys_from_spec() -> bool {
        true
    }

    open spec fn from_spec(value: i64) -> DefaultValue {
        DefaultValue::Integer(value)
    }
}

impl From<i32> for DefaultValue {
    fn from(value: i32) -> (r: Self) {
        DefaultValue::Integer(value as i64)
    }
}

impl vstd::std_specs::convert::FromSpecImpl<i32> for DefaultValue {
    open spec fn obeys_from_spec() -> bool {
        true
    }

    open spec fn from_spec(value: i32) -> DefaultValue {
        DefaultValue::Integer(value as i64)
    }
}

impl From<usize> for DefaultValue {
    /// The value is taken as an `i64`: one above `i64::MAX` wraps.
    fn from(value: usize) -> (r: Self) {
        #[verifier::truncate]
        let v = value as i64;
        DefaultValue::Integer(v)
    }
}

impl vstd::std_specs::convert::FromSpecImpl<usize> for DefaultValue {
    open spec fn obeys_from_spec() -> bool {
        true
    }

    open spec fn from_spec(value: usize) -> DefaultValue {
        DefaultValue::Integer(value as i64)
    }
}

impl DefaultValue {
    /// A string default value holding the text.
    pub fn from_text(value: &str) -> (r: DefaultValue)
        ensures
            r matches DefaultValue::String(s) && s@ == value@,
    {
        DefaultValue::String(value.to_owned())
    }
}

/// Specification for a sub object within a record object.
#[derive(Clone, Debug, PartialEq)]
pub struct SubObjectSpec {
    /// The name of the parameter stored in the sub object
    pub parameter_name: String,
    /// The data type stored in the sub object
    pub data_type: DataType,
    /// What accesses are allowed on the sub object
    pub access_type: AccessType,
    /// The initial value for the sub object
    pub default_value: Option<DefaultValue>,
    /// What kinds of PDO the sub object can be mapped to
    pub pdo_mapping: PdoMappable,
    /// Whether the sub object is kept in persistent storage
    pub persist: bool,
}

/// The shape of an object's content.
#[derive(Clone, Debug, PartialEq)]
pub enum ObjectShape {
    /// A single value at sub index 0
    Var(VarSpec),
    /// Elements of the same data type at sub indices 1 to N
    Array(ArraySpec),
    /// One or more sub objects of varying types
    Record(RecordSpec),
}

/// Specification for a var object.
#[derive(Clone, Debug, PartialEq)]
pub struct VarSpec {
    /// The specification of sub 0, the value
    pub value: SubObjectSpec,
}

/// The elements of an array: at least one, all of the data type of the first.
pub open spec fn uniform_elements(elements: Seq<SubObjectSpec>) -> bool {
    &&& elements.len() > 0
    &&& forall|i: int| 0 <= i < elements.len() ==> #[trigger] elements[i].data_type == elements[0].data_type
}

/// Specification for an array object.
#[derive(Debug, PartialEq)]
pub struct ArraySpec {
    sub0: SubObjectSpec,
    elements: Vec<SubObjectSpec>,
}

impl ArraySpec {
    /// The specification of sub 0, which holds the number of elements.
    pub closed spec fn spec_sub0(&self) -> SubObjectSpec {
        self.sub0
    }

    /// The specifications of the elements.
    pub closed spec fn spec_elements(&self) -> Seq<SubObjectSpec> {
        self.elements@
    }

    /// Sub 0 is a `u8` and the elements are uniform.
    #[verifier::type_invariant]
    spec fn wf(&self) -> bool {
        &&& self.sub0.data_type == DataType::UInt8
        &&& uniform_elements(self.elements@)
    }

    /// Creates an array of these elements, with a read-only sub 0 "Max Sub" whose default is
    /// the number of elements; the elements must be uniform.
    pub fn new(elements: Vec<SubObjectSpec>) -> (r: Self)
        requires
            uniform_elements(elements@),
        ensures
            r.spec_elements() == elements@,
            r.spec_sub0().parameter_name@ == "Max Sub"@,
            r.spec_sub0().data_type == DataType::UInt8,
            r.spec_sub0().access_type == AccessType::Ro,
            r.spec_sub0().default_value == Some(DefaultValue::Integer(elements@.len() as i64)),
            r.spec_sub0().pdo_mapping == PdoMappable::NotMappable,
            !r.spec_sub0().persist,
    {
        let n = DefaultValue::from(elements.len());
        let sub0 = SubObjectSpec {
            parameter_name: "Max Sub".to_owned(),
            data_type: DataType::UInt8,
            access_type: AccessType::Ro,
            default_value: Some(n),
            pdo_mapping: PdoMappable::NotMappable,
            persist: false,
        };
        Self::new_custom_sub0(sub0, elements)
    }

    /// Creates an array with a sub 0 of one's own, which must be a `u8`; the elements must be
    /// uniform.
    pub fn new_custom_sub0(sub0: SubObjectSpec, elements: Vec<SubObjectSpec>) -> (r: Self)
        requires
            sub0.data_type == DataType::UInt8,
            uniform_elements(elements@),
        ensures
            r.spec_sub0() == sub0,
            r.spec_elements() == elements@,
    {
        ArraySpec { sub0, elements }
    }

    /// Returns the specifications of the elements.
    pub fn elements(&self) -> (r: &[SubObjectSpec])
        ensures
            r@ == self.spec_elements(),
    {
        self.elements.as_slice()
    }

    /// Returns the specification of sub 0.
    pub fn sub0_spec(&self) -> (r: &SubObjectSpec)
        ensures
            *r == self.spec_sub0(),
    {
        &self.sub0
    }

    /// Whether the array has no elements (never, since an array has at least one).
    pub fn is_empty(&self) -> (r: bool)
        ensures
            r == (self.spec_elements().len() == 0),
            !r,
    {
        proof {
            use_type_invariant(self);
        }
        self.elements.len() == 0
    }

    /// Returns the number of elements.
    pub fn len(&self) -> (r: usize)
        ensures
            r == self.spec_elements().len(),
    {
        self.elements.len()
    }

    /// Returns the data type of the elements.
    pub fn data_type(&self) -> (r: DataType)
        ensures
            r == self.spec_elements()[0].data_type,
            forall|i: int| 0 <= i < self.spec_elements().len() ==> #[trigger] self.spec_elements()[i].data_type == r,
    {
        proof {
            use_type_invariant(self);
        }
        self.elements[0].data_type
    }
}

impl Clone for ArraySpec {
    /// Clones sub 0 and each element, keeping their data types.
    fn clone(&self) -> (r: Self) {
        proof {
            use_type_invariant(self);
        }
        let sub0 = SubObjectSpec { data_type: DataType::UInt8, ..self.sub0.clone() };
        let dt = self.elements[0].data_type;
        let mut elements: Vec<SubObjectSpec> = Vec::new();
        let mut i: usize = 0;
        while i < self.elements.len()
            invariant
                i <= self.elements@.len(),
                elements@.len() == i,
                forall|k: int| 0 <= k < i ==> #[trigger] elements@[k].data_type == dt,
            decreases self.elements@.len() - i,
        {
            elements.push(SubObjectSpec { data_type: dt, ..self.elements[i].clone() });
            i = i + 1;
        }
        ArraySpec { sub0, elements }
    }
}

/// Specification for a record object.
#[derive(Clone, Debug, PartialEq)]
pub struct RecordSpec {
    /// The sub objects of the record by sub index
    pub subs: BTreeMap<u8, SubObjectSpec>,
}

/// Specification for an object.
#[derive(Clone, Debug, PartialEq)]
pub struct ObjectSpec {
    /// The index of the object
    pub index: u16,
    /// A human-readable name for the object
    pub parameter_name: String,
    /// What the object contains
    pub shape: ObjectShape,
}

} // verus!
