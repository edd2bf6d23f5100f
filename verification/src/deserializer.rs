use vstd::prelude::*;
use crate::enum_access::EnumDeserializer;
use crate::error::{DeError, Expected, Found};
use crate::ext::{ExtData, ExtDeserializer};
use crate::map::MapDeserializer;
use crate::seq::SeqDeserializer;
use crate::value::{IntPriv, SpecValue, Value, MSGPACK_EXT_STRUCT_NAME};

verus! {

/// The model of what a value hands its visitor when it is read as whatever it holds.
pub enum SpecEvent {
    Unit,
    Bool(bool),
    U64(u64),
    I64(i64),
    F32(u32),
    F64(u64),
    Str(Seq<char>),
    Bytes(Seq<u8>),
    /// The elements of an array, handed out in order.
    Sequence(Seq<SpecValue>),
    /// The entries of a map, handed out in order.
    Mapping(Seq<(SpecValue, SpecValue)>),
    /// An extension value, handed out as a newtype struct around the sequence (tag, bytes).
    Ext(i8, Seq<u8>),
}

/// The event a value of this model is read as.
pub open spec fn any_event_spec(v: SpecValue) -> SpecEvent {
    match v {
        SpecValue::Nil => SpecEvent::Unit,
        SpecValue::Boolean(b) => SpecEvent::Bool(b),
        SpecValue::Integer(IntPriv::PosInt(n)) => SpecEvent::U64(n),
        SpecValue::Integer(IntPriv::NegInt(n)) => SpecEvent::I64(n),
        SpecValue::F32(b) => SpecEvent::F32(b),
        SpecValue::F64(b) => SpecEvent::F64(b),
        SpecValue::String(Ok(s)) => SpecEvent::Str(s),
        SpecValue::String(Err(b)) => SpecEvent::Bytes(b),
        SpecValue::Binary(b) => SpecEvent::Bytes(b),
        SpecValue::Array(items) => SpecEvent::Sequence(items),
        SpecValue::Mapping(pairs) => SpecEvent::Mapping(pairs),
        SpecValue::Ext(tag, data) => SpecEvent::Ext(tag, data),
    }
}

/// What a value hands its visitor when it is read as whatever it holds.
pub enum Visit {
    Unit,
    Bool(bool),
    U64(u64),
    I64(i64),
    /// The bits of an `f32`.
    F32(u32),
    /// The bits of an `f64`.
    F64(u64),
    /// An owned string.
    String(String),
    /// Owned bytes.
    ByteBuf(Vec<u8>),
    /// An array of this length, handed out element by element.
    Sequence(usize, SeqDeserializer<Value>),
    /// A map of this length, handed out entry by entry.
    Mapping(usize, MapDeserializer<Value>),
    /// An extension value, handed out as a newtype struct.
    NewtypeStruct(ExtDeserializer<'static>),
}

impl Visit {
    /// The model of the event.
    pub open spec fn model(self) -> SpecEvent {
        match self {
            Visit::Unit => SpecEvent::Unit,
            Visit::Bool(b) => SpecEvent::Bool(b),
            Visit::U64(n) => SpecEvent::U64(n),
            Visit::I64(n) => SpecEvent::I64(n),
            Visit::F32(b) => SpecEvent::F32(b),
            Visit::F64(b) => SpecEvent::F64(b),
            Visit::String(s) => SpecEvent::Str(s@),
            Visit::ByteBuf(b) => SpecEvent::Bytes(b@),
            Visit::Sequence(_, de) => SpecEvent::Sequence(
                de.remaining().map_values(|x: Value| x.model()),
            ),
            Visit::Mapping(_, de) => SpecEvent::Mapping(
                de.remaining().map_values(|p: (Value, Value)| (p.0.model(), p.1.model())),
            ),
            Visit::NewtypeStruct(de) => match (de.tag_left(), de.data_left()) {
                (Some(tag), Some(ExtData::Owned(data))) => SpecEvent::Ext(tag, data@),
                (Some(tag), Some(ExtData::Borrowed(data))) => SpecEvent::Ext(tag, data@),
                _ => SpecEvent::Unit,
            },
        }
    }
}

/// Whether `name` is the name under which extension values travel.
pub fn is_ext_struct_name(name: &str) -> (r: bool)
    ensures
        r == (name@ == MSGPACK_EXT_STRUCT_NAME@),
{
    let a = name.as_bytes();
    let b = MSGPACK_EXT_STRUCT_NAME.as_bytes();
    if a.len() != b.len() {
        return false;
    }
    assert(name@ == MSGPACK_EXT_STRUCT_NAME@ ==> a@ == b@);
    let mut i: usize = 0;
    while i < a.len()
        invariant
            name@ == MSGPACK_EXT_STRUCT_NAME@ ==> a@ == b@,
            a@.len() == b@.len(),
            0 <= i <= a@.len(),
            forall|j: int| 0 <= j < i ==> a@[j] == b@[j],
        decreases a@.len() - i,
    {
        if a[i] != b[i] {
            return false;
        }
        i = i + 1;
    }
    assert(a@ =~= b@);
    proof {
        vstd::utf8::encode_utf8_decode_utf8(name@);
        vstd::utf8::encode_utf8_decode_utf8(MSGPACK_EXT_STRUCT_NAME@);
    }
    true
}

impl Value {
    /// The event this value hands its visitor when it is read as whatever it holds.
    pub fn deserialize_any(self) -> (r: Visit)
        ensures
            r.model() == any_event_spec(self.model()),
            match self {
                Value::Nil => r is Unit,
                Value::Boolean(b) => r == Visit::Bool(b),
                Value::Integer(i) => match i.n {
                    IntPriv::PosInt(n) => r == Visit::U64(n),
                    IntPriv::NegInt(n) => r == Visit::I64(n),
                },
                Value::F32(b) => r == Visit::F32(b),
                Value::F64(b) => r == Visit::F64(b),
                Value::String(s) => match s.s {
                    Ok(t) => r == Visit::String(t),
                    Err(b) => r == Visit::ByteBuf(b),
                },
                Value::Binary(b) => r == Visit::ByteBuf(b),
                Value::Array(items) => r matches Visit::Sequence(len, de) && len == items@.len()
                    && de.remaining() == items@,
                Value::Mapping(pairs) => r matches Visit::Mapping(len, de) && len == pairs@.len()
                    && de.remaining() == pairs@ && de.pending() is None,
                Value::Ext(tag, data) => r matches Visit::NewtypeStruct(de) && de.tag_left() == Some(
                    tag,
                ) && de.data_left() == Some(ExtData::<'static>::Owned(data)),
            },
    {
        let ghost m = self.model();
        match self {
            Value::Nil => Visit::Unit,
            Value::Boolean(b) => Visit::Bool(b),
            Value::Integer(i) => match i.n {
                IntPriv::PosInt(n) => Visit::U64(n),
                IntPriv::NegInt(n) => Visit::I64(n),
            },
            Value::F32(b) => Visit::F32(b),
            Value::F64(b) => Visit::F64(b),
            Value::String(s) => match s.s {
                Ok(t) => Visit::String(t),
                Err(b) => Visit::ByteBuf(b),
            },
            Value::Binary(b) => Visit::ByteBuf(b),
            Value::Array(items) => {
                let len = items.len();
                let de = SeqDeserializer::new(items);
                let r = Visit::Sequence(len, de);
                proof {
                    let mi = match m {
                        SpecValue::Array(s) => s,
                        _ => Seq::empty(),
                    };
                    assert(de.remaining().map_values(|x: Value| x.model()) =~= mi);
                }
                r
            },
            Value::Mapping(pairs) => {
                let len = pairs.len();
                let de = MapDeserializer::new(pairs);
                let r = Visit::Mapping(len, de);
                proof {
                    let mp = match m {
                        SpecValue::Mapping(s) => s,
                        _ => Seq::empty(),
                    };
                    assert(de.remaining().map_values(|p: (Value, Value)| (p.0.model(), p.1.model()))
                        =~= mp);
                }
                r
            },
            Value::Ext(tag, data) => Visit::NewtypeStruct(ExtDeserializer::new_owned(tag, data)),
        }
    }

    /// Read as an option: nil is `None`, any other value is `Some` of itself.
    pub fn deserialize_option(self) -> (r: Option<Value>)
        ensures
            match self {
                Value::Nil => r is None,
                _ => r == Some(self),
            },
    {
        match self {
            Value::Nil => None,
            value => Some(value),
        }
    }

    /// Read as an enum: an array of one or two elements (the variant, then its payload),
    /// a map of one entry (the variant, then its payload), or a string (the variant alone).
    pub fn deserialize_enum(self) -> (r: Result<EnumDeserializer<Value>, DeError<Value>>)
        ensures
            match self {
                Value::Array(arr) => if arr@.len() == 1 {
                    r matches Ok(e) && e.id() == arr@[0] && e.payload() is None
                } else if arr@.len() == 2 {
                    r matches Ok(e) && e.id() == arr@[0] && e.payload() == Some(arr@[1])
                } else {
                    r matches Err(e) && e == DeError::<Value>::InvalidLength(
                        arr@.len() as usize,
                        Expected::ArrayWithOneOrTwoElements,
                    )
                },
                Value::Mapping(pairs) => if pairs@.len() == 1 {
                    r matches Ok(e) && e.id() == pairs@[0].0 && e.payload() == Some(pairs@[0].1)
                } else {
                    r matches Err(e) && e == DeError::<Value>::InvalidLength(
                        pairs@.len() as usize,
                        Expected::MapWithOneElement,
                    )
                },
                Value::String(_) => r matches Ok(e) && e.id() == self && e.payload() is None,
                _ => r matches Err(e) && e == DeError::<Value>::InvalidType(
                    Found::Value(self),
                    Expected::ArrayMapIntOrString,
                ),
            },
    {
        match self {
            Value::Array(arr) => {
                let len = arr.len();
                if !(len == 1 || len == 2) {
                    return Err(DeError::InvalidLength(len, Expected::ArrayWithOneOrTwoElements));
                }
                let mut arr = arr;
                if len == 2 {
                    let value = arr.pop().unwrap();
                    let id = arr.pop().unwrap();
                    Ok(EnumDeserializer::new(id, Some(value)))
                } else {
                    let id = arr.pop().unwrap();
                    Ok(EnumDeserializer::new(id, None))
                }
            },
            Value::Mapping(pairs) => {
                let len = pairs.len();
                if len != 1 {
                    return Err(DeError::InvalidLength(len, Expected::MapWithOneElement));
                }
                let mut pairs = pairs;
                let (id, value) = pairs.pop().unwrap();
                Ok(EnumDeserializer::new(id, Some(value)))
            },
            Value::String(s) => Ok(EnumDeserializer::new(Value::String(s), None)),
            other => Err(DeError::InvalidType(Found::Value(other), Expected::ArrayMapIntOrString)),
        }
    }

    /// Read as a unit struct: only an empty array is one.
    pub fn deserialize_unit_struct(self) -> (r: Result<(), DeError<Value>>)
        ensures
            match self {
                Value::Array(arr) => if arr@.len() == 0 {
                    r is Ok
                } else {
                    r matches Err(e) && e == DeError::<Value>::InvalidType(
                        Found::Sequence,
                        Expected::EmptyArray,
                    )
                },
                _ => r matches Err(e) && e == DeError::<Value>::InvalidType(
                    Found::Value(self),
                    Expected::EmptyArray,
                ),
            },
    {
        match self {
            Value::Array(arr) => {
                if arr.len() == 0 {
                    Ok(())
                } else {
                    Err(DeError::InvalidType(Found::Sequence, Expected::EmptyArray))
                }
            },
            other => Err(DeError::InvalidType(Found::Value(other), Expected::EmptyArray)),
        }
    }

    /// Read as the newtype struct `name`: under the extension name, an extension value
    /// is handed out as its (tag, bytes) sequence and any other value is refused;
    /// under any other name the value itself is the newtype's content.
    pub fn deserialize_newtype_struct(self, name: &str) -> (r: Result<NewtypeVisit, DeError<Value>>)
        ensures
            name@ == MSGPACK_EXT_STRUCT_NAME@ ==> match self {
                Value::Ext(tag, data) => r matches Ok(NewtypeVisit::Ext(de)) && de.tag_left() == Some(
                    tag,
                ) && de.data_left() == Some(ExtData::<'static>::Owned(data)),
                _ => r matches Err(e) && e == DeError::<Value>::InvalidType(
                    Found::Value(self),
                    Expected::ExtStruct,
                ),
            },
            name@ != MSGPACK_EXT_STRUCT_NAME@ ==> (r matches Ok(NewtypeVisit::Content(v)) && v
                == self),
    {
        if is_ext_struct_name(name) {
            match self {
                Value::Ext(tag, data) => {
                    return Ok(NewtypeVisit::Ext(ExtDeserializer::new_owned(tag, data)));
                },
                other => {
                    return Err(DeError::InvalidType(Found::Value(other), Expected::ExtStruct));
                },
            }
        }
        Ok(NewtypeVisit::Content(self))
    }
}

/// What a value hands a newtype-struct visitor.
pub enum NewtypeVisit {
    /// The (tag, bytes) sequence of an extension value.
    Ext(ExtDeserializer<'static>),
    /// The value itself.
    Content(Value),
}

} // verus!
