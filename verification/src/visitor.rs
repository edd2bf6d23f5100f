use vstd::prelude::*;
use crate::deserializer::SpecEvent;
use crate::value::{spec_int_from_i64, Integer, IntPriv, SpecValue, Utf8String, Value};
use crate::value_ref::{Utf8StringRef, ValueRef};

verus! {

/// The model of the value that the value visitor builds from an event whose
/// nested elements have already been built.
pub open spec fn visit_spec(e: SpecEvent) -> SpecValue {
    match e {
        SpecEvent::Unit => SpecValue::Nil,
        SpecEvent::Bool(b) => SpecValue::Boolean(b),
        SpecEvent::U64(n) => SpecValue::Integer(IntPriv::PosInt(n)),
        SpecEvent::I64(n) => SpecValue::Integer(spec_int_from_i64(n)),
        SpecEvent::F32(b) => SpecValue::F32(b),
        SpecEvent::F64(b) => SpecValue::F64(b),
        SpecEvent::Str(s) => SpecValue::String(Ok(s)),
        SpecEvent::Bytes(b) => SpecValue::Binary(b),
        SpecEvent::Sequence(items) => SpecValue::Array(items),
        SpecEvent::Mapping(pairs) => SpecValue::Mapping(pairs),
        SpecEvent::Ext(tag, data) => SpecValue::Ext(tag, data),
    }
}

/// Builds a `Value` from whatever a deserializer hands it.
pub struct ValueVisitor;

impl ValueVisitor {
    /// Nothing: nil.
    pub fn visit_unit(&self) -> (r: Value)
        ensures
            r.model() == visit_spec(SpecEvent::Unit),
    {
        Value::Nil
    }

    /// An absent option: nil.
    pub fn visit_none(&self) -> (r: Value)
        ensures
            r.model() == visit_spec(SpecEvent::Unit),
    {
        Value::Nil
    }

    /// A boolean.
    pub fn visit_bool(&self, v: bool) -> (r: Value)
        ensures
            r.model() == visit_spec(SpecEvent::Bool(v)),
    {
        Value::Boolean(v)
    }

    /// An unsigned integer.
    pub fn visit_u64(&self, v: u64) -> (r: Value)
        ensures
            r matches Value::Integer(i) && i.as_int() == v && i.wf(),
            r.model() == visit_spec(SpecEvent::U64(v)),
    {
        Value::Integer(Integer::from_u64(v))
    }

    /// A signed integer, stored as unsigned when it is not negative.
    pub fn visit_i64(&self, v: i64) -> (r: Value)
        ensures
            r matches Value::Integer(i) && i.as_int() == v && i.wf(),
            r.model() == visit_spec(SpecEvent::I64(v)),
    {
        Value::Integer(Integer::from_i64(v))
    }

    /// An `f32`, given by its bits.
    pub fn visit_f32(&self, bits: u32) -> (r: Value)
        ensures
            r.model() == visit_spec(SpecEvent::F32(bits)),
    {
        Value::F32(bits)
    }

    /// An `f64`, given by its bits.
    pub fn visit_f64(&self, bits: u64) -> (r: Value)
        ensures
            r.model() == visit_spec(SpecEvent::F64(bits)),
    {
        Value::F64(bits)
    }

    /// An owned string.
    pub fn visit_string(&self, v: String) -> (r: Value)
        ensures
            r.model() == visit_spec(SpecEvent::Str(v@)),
    {
        Value::String(Utf8String { s: Ok(v) })
    }

    /// A borrowed string, copied.
    pub fn visit_str(&self, v: &str) -> (r: Value)
        ensures
            r.model() == visit_spec(SpecEvent::Str(v@)),
    {
        self.visit_string(v.to_owned())
    }

    /// Borrowed bytes, copied.
    pub fn visit_bytes(&self, v: &[u8]) -> (r: Value)
        ensures
            r.model() == visit_spec(SpecEvent::Bytes(v@)),
    {
        Value::Binary(vstd::slice::slice_to_vec(v))
    }

    /// Owned bytes.
    pub fn visit_byte_buf(&self, v: Vec<u8>) -> (r: Value)
        ensures
            r.model() == visit_spec(SpecEvent::Bytes(v@)),
    {
        Value::Binary(v)
    }

    /// The elements of a sequence, in the order they were handed out.
    pub fn visit_seq(&self, elements: Vec<Value>) -> (r: Value)
        ensures
            r.model() == visit_spec(
                SpecEvent::Sequence(elements@.map_values(|x: Value| x.model())),
            ),
    {
        let ghost e = elements@;
        let r = Value::Array(elements);
        proof {
            let mi = match r.model() {
                SpecValue::Array(s) => s,
                _ => Seq::empty(),
            };
            assert(mi =~= e.map_values(|x: Value| x.model()));
        }
        r
    }

    /// The entries of a map, in the order they were handed out.
    pub fn visit_map(&self, pairs: Vec<(Value, Value)>) -> (r: Value)
        ensures
            r.model() == visit_spec(
                SpecEvent::Mapping(
                    pairs@.map_values(|p: (Value, Value)| (p.0.model(), p.1.model())),
                ),
            ),
    {
        let ghost e = pairs@;
        let r = Value::Mapping(pairs);
        proof {
            let mp = match r.model() {
                SpecValue::Mapping(s) => s,
                _ => Seq::empty(),
            };
            assert(mp =~= e.map_values(|p: (Value, Value)| (p.0.model(), p.1.model())));
        }
        r
    }
}

/// Builds a `ValueRef` from whatever a deserializer hands it; strings and bytes must be
/// borrowed from the input.
pub struct ValueRefVisitor;

impl ValueRefVisitor {
    /// Nothing: nil.
    pub fn visit_unit<'de>(&self) -> (r: ValueRef<'de>)
        ensures
            r.model() == visit_spec(SpecEvent::Unit),
    {
        ValueRef::Nil
    }

    /// An absent option: nil.
    pub fn visit_none<'de>(&self) -> (r: ValueRef<'de>)
        ensures
            r.model() == visit_spec(SpecEvent::Unit),
    {
        ValueRef::Nil
    }

    /// A boolean.
    pub fn visit_bool<'de>(&self, v: bool) -> (r: ValueRef<'de>)
        ensures
            r.model() == visit_spec(SpecEvent::Bool(v)),
    {
        ValueRef::Boolean(v)
    }

    /// An unsigned integer.
    pub fn visit_u64<'de>(&self, v: u64) -> (r: ValueRef<'de>)
        ensures
            r matches ValueRef::Integer(i) && i.as_int() == v && i.wf(),
            r.model() == visit_spec(SpecEvent::U64(v)),
    {
        ValueRef::Integer(Integer::from_u64(v))
    }

    /// A signed integer, stored as unsigned when it is not negative.
    pub fn visit_i64<'de>(&self, v: i64) -> (r: ValueRef<'de>)
        ensures
            r matches ValueRef::Integer(i) && i.as_int() == v && i.wf(),
            r.model() == visit_spec(SpecEvent::I64(v)),
    {
        ValueRef::Integer(Integer::from_i64(v))
    }

    /// An `f32`, given by its bits.
    pub fn visit_f32<'de>(&self, bits: u32) -> (r: ValueRef<'de>)
        ensures
            r.model() == visit_spec(SpecEvent::F32(bits)),
    {
        ValueRef::F32(bits)
    }

    /// An `f64`, given by its bits.
    pub fn visit_f64<'de>(&self, bits: u64) -> (r: ValueRef<'de>)
        ensures
            r.model() == visit_spec(SpecEvent::F64(bits)),
    {
        ValueRef::F64(bits)
    }

    /// A string borrowed from the input.
    pub fn visit_borrowed_str<'de>(&self, v: &'de str) -> (r: ValueRef<'de>)
        ensures
            r == ValueRef::String(Utf8StringRef { s: Ok(v) }),
            r.model() == visit_spec(SpecEvent::Str(v@)),
    {
        ValueRef::String(Utf8StringRef { s: Ok(v) })
    }

    /// Bytes borrowed from the input.
    pub fn visit_borrowed_bytes<'de>(&self, v: &'de [u8]) -> (r: ValueRef<'de>)
        ensures
            r == ValueRef::Binary(v),
            r.model() == visit_spec(SpecEvent::Bytes(v@)),
    {
        ValueRef::Binary(v)
    }

    /// The elements of a sequence, in the order they were handed out.
    pub fn visit_seq<'de>(&self, elements: Vec<ValueRef<'de>>) -> (r: ValueRef<'de>)
        ensures
            r.model() == visit_spec(
                SpecEvent::Sequence(elements@.map_values(|x: ValueRef<'de>| x.model())),
            ),
    {
        let ghost e = elements@;
        let r = ValueRef::Array(elements);
        proof {
            let mi = match r.model() {
                SpecValue::Array(s) => s,
                _ => Seq::empty(),
            };
            assert(mi =~= e.map_values(|x: ValueRef<'de>| x.model()));
        }
        r
    }

    /// The entries of a map, in the order they were handed out.
    pub fn visit_map<'de>(&self, pairs: Vec<(ValueRef<'de>, ValueRef<'de>)>) -> (r: ValueRef<'de>)
        ensures
            r.model() == visit_spec(
                SpecEvent::Mapping(
                    pairs@.map_values(
                        |p: (ValueRef<'de>, ValueRef<'de>)| (p.0.model(), p.1.model()),
                    ),
                ),
            ),
    {
        let ghost e = pairs@;
        let r = ValueRef::Mapping(pairs);
        proof {
            let mp = match r.model() {
                SpecValue::Mapping(s) => s,
                _ => Seq::empty(),
            };
            assert(mp =~= e.map_values(
                |p: (ValueRef<'de>, ValueRef<'de>)| (p.0.model(), p.1.model()),
            ));
        }
        r
    }
}

} // verus!
