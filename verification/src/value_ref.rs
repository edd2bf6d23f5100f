use vstd::prelude::*;
use crate::error::{Found, Unexpected};
use crate::value::{IntPriv, Integer, SpecValue};

verus! {

/// A MessagePack string borrowed from the input: valid UTF-8 text, or the raw bytes
/// when they are not.
#[derive(Clone, Copy, Debug, PartialEq)]
pub struct Utf8StringRef<'a> {
    pub s: Result<&'a str, &'a [u8]>,
}

/// A MessagePack value whose strings, binaries and extension bytes are borrowed from
/// the input. Floating-point numbers are held as their IEEE 754 bits.
#[derive(Debug, PartialEq)]
pub enum ValueRef<'a> {
    Nil,
    Boolean(bool),
    Integer(Integer),
    F32(u32),
    F64(u64),
    String(Utf8StringRef<'a>),
    Binary(&'a [u8]),
    Array(Vec<ValueRef<'a>>),
    Mapping(Vec<(ValueRef<'a>, ValueRef<'a>)>),
    Ext(i8, &'a [u8]),
}

impl<'a> Utf8StringRef<'a> {
    pub open spec fn model(self) -> Result<Seq<char>, Seq<u8>> {
        match self.s {
            Ok(s) => Ok(s@),
            Err(b) => Err(b@),
        }
    }
}

impl<'a> ValueRef<'a> {
    /// The model of a value: the same model as that of the owned value with these contents.
    pub open spec fn model(self) -> SpecValue
        decreases self,
    {
        match self {
            ValueRef::Nil => SpecValue::Nil,
            ValueRef::Boolean(b) => SpecValue::Boolean(b),
            ValueRef::Integer(i) => SpecValue::Integer(i.n),
            ValueRef::F32(b) => SpecValue::F32(b),
            ValueRef::F64(b) => SpecValue::F64(b),
            ValueRef::String(s) => SpecValue::String(s.model()),
            ValueRef::Binary(b) => SpecValue::Binary(b@),
            ValueRef::Array(items) => SpecValue::Array(
                Seq::new(
                    items@.len(),
                    |i: int|
                        if 0 <= i < items@.len() {
                            items@[i].model()
                        } else {
                            SpecValue::Nil
                        },
                ),
            ),
            ValueRef::Mapping(pairs) => SpecValue::Mapping(
                Seq::new(
                    pairs@.len(),
                    |i: int|
                        if 0 <= i < pairs@.len() {
                            (pairs@[i].0.model(), pairs@[i].1.model())
                        } else {
                            (SpecValue::Nil, SpecValue::Nil)
                        },
                ),
            ),
            ValueRef::Ext(tag, data) => SpecValue::Ext(tag, data@),
        }
    }

    /// What this value is reported as when it is not what was expected.
    pub open spec fn spec_unexpected_shape(self, r: Unexpected) -> bool {
        match self {
            ValueRef::Nil => r == Unexpected::Unit,
            ValueRef::Boolean(b) => r == Unexpected::Bool(b),
            ValueRef::Integer(i) => match i.n {
                IntPriv::PosInt(v) => r == Unexpected::Unsigned(v),
                IntPriv::NegInt(v) => r == Unexpected::Signed(v),
            },
            ValueRef::F32(b) => r == Unexpected::Float32(b),
            ValueRef::F64(b) => r == Unexpected::Float64(b),
            ValueRef::String(s) => match s.s {
                Ok(t) => r matches Unexpected::Str(x) && x@ == t@,
                Err(b) => r matches Unexpected::Bytes(x) && x@ == b@,
            },
            ValueRef::Binary(b) => r matches Unexpected::Bytes(x) && x@ == b@,
            ValueRef::Array(_) => r == Unexpected::Sequence,
            ValueRef::Mapping(_) => r == Unexpected::Mapping,
            ValueRef::Ext(_, _) => r == Unexpected::Sequence,
        }
    }

    /// What this value is reported as when it is not what was expected.
    pub fn unexpected(&self) -> (r: Unexpected<'a>)
        ensures
            self.spec_unexpected_shape(r),
    {
        match self {
            ValueRef::Nil => Unexpected::Unit,
            ValueRef::Boolean(b) => Unexpected::Bool(*b),
            ValueRef::Integer(i) => match i.n {
                IntPriv::PosInt(v) => Unexpected::Unsigned(v),
                IntPriv::NegInt(v) => Unexpected::Signed(v),
            },
            ValueRef::F32(b) => Unexpected::Float32(*b),
            ValueRef::F64(b) => Unexpected::Float64(*b),
            ValueRef::String(s) => match s.s {
                Ok(t) => Unexpected::Str(t),
                Err(b) => Unexpected::Bytes(b),
            },
            ValueRef::Binary(b) => Unexpected::Bytes(*b),
            ValueRef::Array(_) => Unexpected::Sequence,
            ValueRef::Mapping(_) => Unexpected::Mapping,
            ValueRef::Ext(_, _) => Unexpected::Sequence,
        }
    }
}

impl<'a> Found<ValueRef<'a>> {
    /// What was met, as it is reported.
    pub fn unexpected(&self) -> (r: Unexpected<'a>)
        ensures
            match self {
                Found::Value(v) => v.spec_unexpected_shape(r),
                Found::Sequence => r == Unexpected::Sequence,
                Found::UnitVariant => r == Unexpected::UnitVariant,
            },
    {
        match self {
            Found::Value(v) => v.unexpected(),
            Found::Sequence => Unexpected::Sequence,
            Found::UnitVariant => Unexpected::UnitVariant,
        }
    }
}

impl<'a> Found<&'a ValueRef<'a>> {
    /// What was met, as it is reported.
    pub fn unexpected(&self) -> (r: Unexpected<'a>)
        ensures
            match self {
                Found::Value(v) => v.spec_unexpected_shape(r),
                Found::Sequence => r == Unexpected::Sequence,
                Found::UnitVariant => r == Unexpected::UnitVariant,
            },
    {
        match self {
            Found::Value(v) => v.unexpected(),
            Found::Sequence => Unexpected::Sequence,
            Found::UnitVariant => Unexpected::UnitVariant,
        }
    }
}

} // verus!
