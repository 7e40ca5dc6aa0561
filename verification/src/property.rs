//! Property values and declarations: the leaves of the schema system.

use vstd::prelude::*;

verus! {

/// The declared kind of a schema property. A `Type` is only a tag used when
/// declaring a schema: nothing ties the tag to the `PropertyValue` variant
/// actually supplied for a property of that name (a documented limitation of
/// the validation core, which checks presence, not type conformance).
#[derive(Clone, Copy, Debug)]
pub enum Type {
    String,
    Integer,
    Double,
    Toggle,
}

/// A concrete value held by an entity property.
///
/// `Double` stands for a 32-bit IEEE 754 value; verified code holds no
/// floating-point numbers, so the variant carries the value's bit pattern
/// (as produced by `f32::to_bits`). The validation core never inspects
/// values, so the encoding is visible only to callers that read one back.
#[derive(Debug)]
pub enum PropertyValue {
    Text(String),
    Integer(i32),
    Double(u32),
    Toggle(bool),
}

impl Clone for PropertyValue {
    /// A clone is equal to the original value.
    fn clone(&self) -> (v: Self)
        ensures
            v == *self,
    {
        match self {
            PropertyValue::Text(s) => PropertyValue::Text(s.clone()),
            PropertyValue::Integer(i) => PropertyValue::Integer(*i),
            PropertyValue::Double(bits) => PropertyValue::Double(*bits),
            PropertyValue::Toggle(b) => PropertyValue::Toggle(*b),
        }
    }
}

/// A (name, declared type) pair within a schema.
#[derive(Debug)]
pub struct SchemaProperty {
    pub name: String,
    pub prop_type: Type,
}

impl SchemaProperty {
    /// Pairs a name with its declared type.
    pub fn new(name: &str, prop_type: Type) -> (p: SchemaProperty)
        ensures
            p.name@ == name@,
            p.prop_type == prop_type,
    {
        SchemaProperty { name: name.to_string(), prop_type }
    }
}

impl Clone for SchemaProperty {
    /// A clone is equal to the original, fields included.
    fn clone(&self) -> (p: Self)
        ensures
            p == *self,
    {
        SchemaProperty { name: self.name.clone(), prop_type: self.prop_type }
    }
}

/// A (name, value) pair supplied by a caller constructing an entity.
#[derive(Debug)]
pub struct EntityProperty {
    pub name: String,
    pub value: PropertyValue,
}

impl Clone for EntityProperty {
    /// A clone is equal to the original, fields included.
    fn clone(&self) -> (p: Self)
        ensures
            p == *self,
    {
        EntityProperty { name: self.name.clone(), value: self.value.clone() }
    }
}

impl EntityProperty {
    /// Pairs a name with a value.
    pub fn new(name: &str, value: PropertyValue) -> (p: EntityProperty)
        ensures
            p.name@ == name@,
            p.value == value,
    {
        EntityProperty { name: name.to_string(), value }
    }

    /// The property's name.
    pub fn name(&self) -> (r: &String)
        ensures
            r == &self.name,
    {
        &self.name
    }

    /// The property's value.
    pub fn value(&self) -> (r: &PropertyValue)
        ensures
            r == &self.value,
    {
        &self.value
    }
}

} // verus!
