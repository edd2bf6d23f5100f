use vstd::prelude::*;

verus! {

/// Name of the newtype struct through which MessagePack extension values travel.
pub const MSGPACK_EXT_STRUCT_NAME: &'static str = "_ExtStruct";

/// The two ranges an integer is stored in.
#[derive(Clone, Copy, Debug, PartialEq, Eq, Structural)]
pub enum IntPriv {
    /// Always non-negative.
    PosInt(u64),
    /// Always negative.
    NegInt(i64),
}

/// A MessagePack integer.
#[derive(Clone, Copy, Debug, PartialEq, Eq, Structural)]
pub struct Integer {
    pub n: IntPriv,
}

/// A MessagePack string: valid UTF-8 text, or the raw bytes when they are not.
#[derive(Debug, PartialEq)]
pub struct Utf8String {
    pub s: Result<String, Vec<u8>>,
}

/// A MessagePack value. Floating-point numbers are held as their IEEE 754 bits.
#[derive(Debug, PartialEq)]
pub enum Value {
    Nil,
    Boolean(bool),
    Integer(Integer),
    F32(u32),
    F64(u64),
    String(Utf8String),
    Binary(Vec<u8>),
    Array(Vec<Value>),
    Mapping(Vec<(Value, Value)>),
    Ext(i8, Vec<u8>),
}

/// The mathematical model of a `Value`.
pub enum SpecValue {
    Nil,
    Boolean(bool),
    Integer(IntPriv),
    F32(u32),
    F64(u64),
    String(Result<Seq<char>, Seq<u8>>),
    Binary(Seq<u8>),
    Array(Seq<SpecValue>),
    Mapping(Seq<(SpecValue, SpecValue)>),
    Ext(i8, Seq<u8>),
}

impl Integer {
    /// Canonical form: a `NegInt` holds a negative number.
    pub open spec fn wf(self) -> bool {
        match self.n {
            IntPriv::PosInt(_) => true,
            IntPriv::NegInt(v) => v < 0,
        }
    }

    /// The integer as a mathematical integer.
    pub open spec fn as_int(self) -> int {
        match self.n {
            IntPriv::PosInt(v) => v as int,
            IntPriv::NegInt(v) => v as int,
        }
    }

    /// The integer that holds an unsigned number.
    pub fn from_u64(v: u64) -> (r: Integer)
        ensures
            r.n == IntPriv::PosInt(v),
    {
        Integer { n: IntPriv::PosInt(v) }
    }

    /// The integer that holds a signed number, in canonical form.
    pub fn from_i64(v: i64) -> (r: Integer)
        ensures
            r.n == spec_int_from_i64(v),
            r.wf(),
            r.as_int() == v,
    {
        if v < 0 {
            Integer { n: IntPriv::NegInt(v) }
        } else {
            Integer { n: IntPriv::PosInt(v as u64) }
        }
    }
}

/// The canonical integer form of a signed number.
pub open spec fn spec_int_from_i64(v: i64) -> IntPriv {
    if v < 0 {
        IntPriv::NegInt(v)
    } else {
        IntPriv::PosInt(v as u64)
    }
}

impl Utf8String {
    pub open spec fn model(self) -> Result<Seq<char>, Seq<u8>> {
        match self.s {
            Ok(s) => Ok(s@),
            Err(b) => Err(b@),
        }
    }
}

impl Value {
    /// The model of a value, with every vector taken by its contents.
    pub open spec fn model(self) -> SpecValue
        decreases self,
    {
        match self {
            Value::Nil => SpecValue::Nil,
            Value::Boolean(b) => SpecValue::Boolean(b),
            Value::Integer(i) => SpecValue::Integer(i.n),
            Value::F32(b) => SpecValue::F32(b),
            Value::F64(b) => SpecValue::F64(b),
            Value::String(s) => SpecValue::String(s.model()),
            Value::Binary(b) => SpecValue::Binary(b@),
            Value::Array(items) => SpecValue::Array(
                Seq::new(
                    items@.len(),
                    |i: int|
                        if 0 <= i < items@.len() {
                            items@[i].model()
                        } else {
                            SpecValue::Nil
                        },
                ),
            ),
            Value::Mapping(pairs) => SpecValue::Mapping(
                Seq::new(
                    pairs@.len(),
                    |i: int|
                        if 0 <= i < pairs@.len() {
                            (pairs@[i].0.model(), pairs@[i].1.model())
                        } else {
                            (SpecValue::Nil, SpecValue::Nil)
                        },
                ),
            ),
            Value::Ext(tag, data) => SpecValue::Ext(tag, data@),
        }
    }
}

} // verus!
