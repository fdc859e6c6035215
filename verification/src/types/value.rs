//! Untyped values and the primitive types they come in.

use crate::types::charset::CharSet;
use vstd::prelude::*;

verus! {

/// Payload of a boolean property.
pub type Bool = bool;

/// Payload of an integer property.
pub type Int = i32;

/// Payload of a floating-point property: an IEEE 754 binary64 number, carried
/// as its bit pattern. The library only transports such numbers; it never
/// computes with them. Two payloads are equal when their bits are: a NaN
/// equals itself, and the two zeros differ.
#[derive(Clone, Copy, Debug, PartialEq, Eq, Structural)]
pub struct Double {
    pub bits: u64,
}

impl Double {
    /// The number with the given bit pattern.
    pub fn from_bits(bits: u64) -> (d: Double)
        ensures
            d.bits == bits,
    {
        Double { bits }
    }

    /// The bit pattern of the number.
    pub fn to_bits(self) -> (bits: u64)
        ensures
            bits == self.bits,
    {
        self.bits
    }
}

/// The primitive wire types of the format. Every value has exactly one of
/// them, and every property kind accepts exactly one of them.
#[derive(Clone, Copy, Debug, PartialEq, Eq, Hash, Structural)]
pub enum ValueType {
    /// Text.
    Str,
    /// A signed integer.
    Int,
    /// A floating-point number.
    Double,
    /// A boolean.
    Bool,
    /// A set of Unicode code points.
    CharSet,
}

impl ValueType {
    /// The name of the type as the format spells it.
    pub open spec fn spec_name(self) -> Seq<char> {
        match self {
            ValueType::Str => "string"@,
            ValueType::Int => "int"@,
            ValueType::Double => "double"@,
            ValueType::Bool => "bool"@,
            ValueType::CharSet => "charset"@,
        }
    }

    /// The name of the type as the format spells it.
    pub fn name(self) -> (name: &'static str)
        ensures
            name@ == self.spec_name(),
    {
        match self {
            ValueType::Str => "string",
            ValueType::Int => "int",
            ValueType::Double => "double",
            ValueType::Bool => "bool",
            ValueType::CharSet => "charset",
        }
    }
}

/// An untyped primitive value, as read from a document before it is paired
/// with a property kind.
#[derive(Clone, Debug, PartialEq, Eq)]
pub enum Value {
    /// Text.
    Str(String),
    /// A signed integer.
    Int(Int),
    /// A floating-point number.
    Double(Double),
    /// A boolean.
    Bool(Bool),
    /// A set of Unicode code points.
    CharSet(CharSet),
}

impl Value {
    /// The wire type of the value: the variant it was built with.
    pub open spec fn spec_value_type(&self) -> ValueType {
        match self {
            Value::Str(_) => ValueType::Str,
            Value::Int(_) => ValueType::Int,
            Value::Double(_) => ValueType::Double,
            Value::Bool(_) => ValueType::Bool,
            Value::CharSet(_) => ValueType::CharSet,
        }
    }

    /// The wire type of the value.
    #[verifier::when_used_as_spec(spec_value_type)]
    pub fn value_type(&self) -> (t: ValueType)
        ensures
            t == self.spec_value_type(),
    {
        match self {
            Value::Str(_) => ValueType::Str,
            Value::Int(_) => ValueType::Int,
            Value::Double(_) => ValueType::Double,
            Value::Bool(_) => ValueType::Bool,
            Value::CharSet(_) => ValueType::CharSet,
        }
    }
}

} // verus!
