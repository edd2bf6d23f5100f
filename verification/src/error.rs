use vstd::prelude::*;
use crate::value::{IntPriv, Value};

verus! {

/// What a deserializer expected where it met something else.
#[derive(Clone, Copy, Debug, PartialEq, Eq, Structural)]
pub enum Expected {
    FewerElementsInArray,
    FewerElementsInMap,
    ArrayWithOneOrTwoElements,
    MapWithOneElement,
    ArrayMapIntOrString,
    ExtStruct,
    EmptyArray,
    ArrayWithOneElement,
    NewtypeVariant,
    TupleVariant,
    StructVariant,
    ValidExt,
}

impl Expected {
    /// The words that describe what was expected.
    pub open spec fn spec_text(self) -> Seq<char> {
        match self {
            Expected::FewerElementsInArray => "fewer elements in array"@,
            Expected::FewerElementsInMap => "fewer elements in map"@,
            Expected::ArrayWithOneOrTwoElements => "array with one or two elements"@,
            Expected::MapWithOneElement => "map with one element"@,
            Expected::ArrayMapIntOrString => "array, map, int or string"@,
            Expected::ExtStruct => "expected Ext"@,
            Expected::EmptyArray => "empty array"@,
            Expected::ArrayWithOneElement => "array with one element"@,
            Expected::NewtypeVariant => "newtype variant"@,
            Expected::TupleVariant => "tuple variant"@,
            Expected::StructVariant => "struct variant"@,
            Expected::ValidExt => "a valid MessagePack Ext"@,
        }
    }

    /// The words that describe what was expected.
    pub fn text(&self) -> (r: &'static str)
        ensures
            r@ == self.spec_text(),
    {
        match self {
            Expected::FewerElementsInArray => "fewer elements in array",
            Expected::FewerElementsInMap => "fewer elements in map",
            Expected::ArrayWithOneOrTwoElements => "array with one or two elements",
            Expected::MapWithOneElement => "map with one element",
            Expected::ArrayMapIntOrString => "array, map, int or string",
            Expected::ExtStruct => "expected Ext",
            Expected::EmptyArray => "empty array",
            Expected::ArrayWithOneElement => "array with one element",
            Expected::NewtypeVariant => "newtype variant",
            Expected::TupleVariant => "tuple variant",
            Expected::StructVariant => "struct variant",
            Expected::ValidExt => "a valid MessagePack Ext",
        }
    }
}

/// What a deserializer met where it expected something else, as it is reported.
/// Floating-point numbers are held as their IEEE 754 bits.
#[derive(Debug, PartialEq)]
pub enum Unexpected<'a> {
    Unit,
    Bool(bool),
    Unsigned(u64),
    Signed(i64),
    Float32(u32),
    Float64(u64),
    Str(&'a str),
    Bytes(&'a [u8]),
    Sequence,
    Mapping,
    UnitVariant,
}

/// What a deserializer met: a whole value, or only a shape.
#[derive(Debug, PartialEq)]
pub enum Found<U> {
    Value(U),
    Sequence,
    UnitVariant,
}

/// Why a value could not be handed out as the caller asked.
#[derive(Debug, PartialEq)]
pub enum DeError<U> {
    /// A sequence or map of this length, where another length was expected.
    InvalidLength(usize, Expected),
    /// Something of the wrong type.
    InvalidType(Found<U>, Expected),
    /// Something of the right type with a wrong value.
    InvalidValue(Found<U>, Expected),
    /// A map value was asked for before its key.
    MissingValue,
}

impl Value {
    /// What this value is reported as when it is not what was expected.
    pub open spec fn spec_unexpected_shape(self, r: Unexpected) -> bool {
        match self {
            Value::Nil => r == Unexpected::Unit,
            Value::Boolean(b) => r == Unexpected::Bool(b),
            Value::Integer(i) => match i.n {
                IntPriv::PosInt(v) => r == Unexpected::Unsigned(v),
                IntPriv::NegInt(v) => r == Unexpected::Signed(v),
            },
            Value::F32(b) => r == Unexpected::Float32(b),
            Value::F64(b) => r == Unexpected::Float64(b),
            Value::String(s) => match s.s {
                Ok(t) => r matches Unexpected::Str(x) && x@ == t@,
                Err(b) => r matches Unexpected::Bytes(x) && x@ == b@,
            },
            Value::Binary(b) => r matches Unexpected::Bytes(x) && x@ == b@,
            Value::Array(_) => r == Unexpected::Sequence,
            Value::Mapping(_) => r == Unexpected::Mapping,
            Value::Ext(_, _) => r == Unexpected::Sequence,
        }
    }

    /// What this value is reported as when it is not what was expected.
    pub fn unexpected(&self) -> (r: Unexpected<'_>)
        ensures
            self.spec_unexpected_shape(r),
    {
        match self {
            Value::Nil => Unexpected::Unit,
            Value::Boolean(b) => Unexpected::Bool(*b),
            Value::Integer(i) => match i.n {
                IntPriv::PosInt(v) => Unexpected::Unsigned(v),
                IntPriv::NegInt(v) => Unexpected::Signed(v),
            },
            Value::F32(b) => Unexpected::Float32(*b),
            Value::F64(b) => Unexpected::Float64(*b),
            Value::String(s) => match &s.s {
                Ok(t) => Unexpected::Str(t.as_str()),
                Err(b) => Unexpected::Bytes(b.as_slice()),
            },
            Value::Binary(b) => Unexpected::Bytes(b.as_slice()),
            Value::Array(_) => Unexpected::Sequence,
            Value::Mapping(_) => Unexpected::Mapping,
            Value::Ext(_, _) => Unexpected::Sequence,
        }
    }
}

impl Found<Value> {
    /// What was met, as it is reported.
    pub fn unexpected(&self) -> (r: Unexpected<'_>)
        ensures
            match self {
                Found::Value(v) => v.spec_unexpected_shape(r),
                Found::Sequence => r == Unexpected::Sequence,
                Found::UnitVariant => r == Unexpected::UnitVariant,
            },
    {
        match self {
            Found::Value(v) => v.unexpected(),
            Found::Sequence => Unexpected::Sequence,
            Found::UnitVariant => Unexpected::UnitVariant,
        }
    }
}

} // verus!
