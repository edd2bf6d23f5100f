use vstd::prelude::*;
use crate::deserializer::{any_event_spec, is_ext_struct_name, SpecEvent};
use crate::enum_access::EnumDeserializer;
use crate::error::{DeError, Expected, Found};
use crate::ext::{ExtData, ExtDeserializer};
use crate::map::MapDeserializer;
use crate::seq::SeqDeserializer;
use crate::value::{IntPriv, SpecValue, MSGPACK_EXT_STRUCT_NAME};
use crate::value_ref::ValueRef;

verus! {

/// What a borrowed value hands its visitor when it is read as whatever it holds; the
/// elements of arrays and maps are of type `U`, owned values or references to them.
pub enum VisitRef<'de, U> {
    Unit,
    Bool(bool),
    U64(u64),
    I64(i64),
    /// The bits of an `f32`.
    F32(u32),
    /// The bits of an `f64`.
    F64(u64),
    /// A string borrowed from the input.
    BorrowedStr(&'de str),
    /// Bytes borrowed from the input.
    BorrowedBytes(&'de [u8]),
    /// An array of this length, handed out element by element.
    Sequence(usize, SeqDeserializer<U>),
    /// A map of this length, handed out entry by entry.
    Mapping(usize, MapDeserializer<U>),
    /// An extension value, handed out as a newtype struct.
    NewtypeStruct(ExtDeserializer<'de>),
}

/// The event model of what does not depend on the element type.
pub open spec fn visit_ref_leaf_model<'de, U>(e: VisitRef<'de, U>) -> SpecEvent {
    match e {
        VisitRef::Unit => SpecEvent::Unit,
        VisitRef::Bool(b) => SpecEvent::Bool(b),
        VisitRef::U64(n) => SpecEvent::U64(n),
        VisitRef::I64(n) => SpecEvent::I64(n),
        VisitRef::F32(b) => SpecEvent::F32(b),
        VisitRef::F64(b) => SpecEvent::F64(b),
        VisitRef::BorrowedStr(s) => SpecEvent::Str(s@),
        VisitRef::BorrowedBytes(b) => SpecEvent::Bytes(b@),
        VisitRef::NewtypeStruct(de) => match (de.tag_left(), de.data_left()) {
            (Some(tag), Some(ExtData::Owned(data))) => SpecEvent::Ext(tag, data@),
            (Some(tag), Some(ExtData::Borrowed(data))) => SpecEvent::Ext(tag, data@),
            _ => SpecEvent::Unit,
        },
        _ => SpecEvent::Unit,
    }
}

impl<'de> VisitRef<'de, ValueRef<'de>> {
    /// The model of the event.
    pub open spec fn model(self) -> SpecEvent {
        match self {
            VisitRef::Sequence(_, de) => SpecEvent::Sequence(
                de.remaining().map_values(|x: ValueRef<'de>| x.model()),
            ),
            VisitRef::Mapping(_, de) => SpecEvent::Mapping(
                de.remaining().map_values(
                    |p: (ValueRef<'de>, ValueRef<'de>)| (p.0.model(), p.1.model()),
                ),
            ),
            _ => visit_ref_leaf_model(self),
        }
    }
}

impl<'de> VisitRef<'de, &'de ValueRef<'de>> {
    /// The model of the event.
    pub open spec fn model(self) -> SpecEvent {
        match self {
            VisitRef::Sequence(_, de) => SpecEvent::Sequence(
                de.remaining().map_values(|x: &'de ValueRef<'de>| (*x).model()),
            ),
            VisitRef::Mapping(_, de) => SpecEvent::Mapping(
                de.remaining().map_values(
                    |p: (&'de ValueRef<'de>, &'de ValueRef<'de>)| ((*p.0).model(), (*p.1).model()),
                ),
            ),
            _ => visit_ref_leaf_model(self),
        }
    }
}

/// References to the key and the value of an entry.
pub fn to_reference<'a>(pair: &'a (ValueRef<'a>, ValueRef<'a>)) -> (r: (
    &'a ValueRef<'a>,
    &'a ValueRef<'a>,
))
    ensures
        *r.0 == pair.0,
        *r.1 == pair.1,
{
    (&pair.0, &pair.1)
}

/// References to the elements of `items`, in order.
pub fn elements_by_reference<'a>(items: &'a Vec<ValueRef<'a>>) -> (r: Vec<&'a ValueRef<'a>>)
    ensures
        r@.len() == items@.len(),
        forall|i: int| 0 <= i < r@.len() ==> *#[trigger] r@[i] == items@[i],
{
    let mut r: Vec<&'a ValueRef<'a>> = Vec::new();
    let mut i: usize = 0;
    while i < items.len()
        invariant
            i <= items@.len(),
            r@.len() == i,
            forall|j: int| 0 <= j < i ==> *#[trigger] r@[j] == items@[j],
        decreases items@.len() - i,
    {
        r.push(&items[i]);
        i = i + 1;
    }
    r
}

/// References to the keys and values of `pairs`, entry by entry, in order.
pub fn pairs_by_reference<'a>(pairs: &'a Vec<(ValueRef<'a>, ValueRef<'a>)>) -> (r: Vec<
    (&'a ValueRef<'a>, &'a ValueRef<'a>),
>)
    ensures
        r@.len() == pairs@.len(),
        forall|i: int|
            0 <= i < r@.len() ==> *(#[trigger] r@[i]).0 == pairs@[i].0 && *r@[i].1 == pairs@[i].1,
{
    let mut r: Vec<(&'a ValueRef<'a>, &'a ValueRef<'a>)> = Vec::new();
    let mut i: usize = 0;
    while i < pairs.len()
        invariant
            i <= pairs@.len(),
            r@.len() == i,
            forall|j: int|
                0 <= j < i ==> *(#[trigger] r@[j]).0 == pairs@[j].0 && *r@[j].1 == pairs@[j].1,
        decreases pairs@.len() - i,
    {
        r.push(to_reference(&pairs[i]));
        i = i + 1;
    }
    r
}

/// What a borrowed value hands a newtype-struct visitor.
pub enum NewtypeVisitRef<'de, U> {
    /// The (tag, bytes) sequence of an extension value.
    Ext(ExtDeserializer<'de>),
    /// The value itself.
    Content(U),
}

impl<'de> ValueRef<'de> {
    /// The event this value hands its visitor when it is read as whatever it holds.
    pub fn deserialize_any(self) -> (r: VisitRef<'de, ValueRef<'de>>)
        ensures
            r.model() == any_event_spec(self.model()),
            match self {
                ValueRef::Nil => r is Unit,
                ValueRef::Boolean(b) => r == VisitRef::<'de, ValueRef<'de>>::Bool(b),
                ValueRef::Integer(i) => match i.n {
                    IntPriv::PosInt(n) => r == VisitRef::<'de, ValueRef<'de>>::U64(n),
                    IntPriv::NegInt(n) => r == VisitRef::<'de, ValueRef<'de>>::I64(n),
                },
                ValueRef::F32(b) => r == VisitRef::<'de, ValueRef<'de>>::F32(b),
                ValueRef::F64(b) => r == VisitRef::<'de, ValueRef<'de>>::F64(b),
                ValueRef::String(s) => match s.s {
                    Ok(t) => r == VisitRef::<'de, ValueRef<'de>>::BorrowedStr(t),
                    Err(b) => r == VisitRef::<'de, ValueRef<'de>>::BorrowedBytes(b),
                },
                ValueRef::Binary(b) => r == VisitRef::<'de, ValueRef<'de>>::BorrowedBytes(b),
                ValueRef::Array(items) => r matches VisitRef::Sequence(len, de) && len
                    == items@.len() && de.remaining() == items@,
                ValueRef::Mapping(pairs) => r matches VisitRef::Mapping(len, de) && len
                    == pairs@.len() && de.remaining() == pairs@ && de.pending() is None,
                ValueRef::Ext(tag, data) => r matches VisitRef::NewtypeStruct(de) && de.tag_left()
                    == Some(tag) && de.data_left() == Some(ExtData::Borrowed(data)),
            },
    {
        let ghost m = self.model();
        match self {
            ValueRef::Nil => VisitRef::Unit,
            ValueRef::Boolean(b) => VisitRef::Bool(b),
            ValueRef::Integer(i) => match i.n {
                IntPriv::PosInt(n) => VisitRef::U64(n),
                IntPriv::NegInt(n) => VisitRef::I64(n),
            },
            ValueRef::F32(b) => VisitRef::F32(b),
            ValueRef::F64(b) => VisitRef::F64(b),
            ValueRef::String(s) => match s.s {
                Ok(t) => VisitRef::BorrowedStr(t),
                Err(b) => VisitRef::BorrowedBytes(b),
            },
            ValueRef::Binary(b) => VisitRef::BorrowedBytes(b),
            ValueRef::Array(items) => {
                let len = items.len();
                let de = SeqDeserializer::new(items);
                proof {
                    let mi = match m {
                        SpecValue::Array(s) => s,
                        _ => Seq::empty(),
                    };
                    assert(de.remaining().map_values(|x: ValueRef<'de>| x.model()) =~= mi);
                }
                VisitRef::Sequence(len, de)
            },
            ValueRef::Mapping(pairs) => {
                let len = pairs.len();
                let de = MapDeserializer::new(pairs);
                proof {
                    let mp = match m {
                        SpecValue::Mapping(s) => s,
                        _ => Seq::empty(),
                    };
                    assert(de.remaining().map_values(
                        |p: (ValueRef<'de>, ValueRef<'de>)| (p.0.model(), p.1.model()),
                    ) =~= mp);
                }
                VisitRef::Mapping(len, de)
            },
            ValueRef::Ext(tag, data) => VisitRef::NewtypeStruct(ExtDeserializer::new_ref(tag, data)),
        }
    }

    /// The event this value hands its visitor when it is read, by reference, as whatever
    /// it holds: the elements of arrays and maps are handed out as references.
    pub fn deserialize_any_borrowed(&'de self) -> (r: VisitRef<'de, &'de ValueRef<'de>>)
        ensures
            r.model() == any_event_spec(self.model()),
            match *self {
                ValueRef::Nil => r is Unit,
                ValueRef::Boolean(b) => r == VisitRef::<'de, &'de ValueRef<'de>>::Bool(b),
                ValueRef::Integer(i) => match i.n {
                    IntPriv::PosInt(n) => r == VisitRef::<'de, &'de ValueRef<'de>>::U64(n),
                    IntPriv::NegInt(n) => r == VisitRef::<'de, &'de ValueRef<'de>>::I64(n),
                },
                ValueRef::F32(b) => r == VisitRef::<'de, &'de ValueRef<'de>>::F32(b),
                ValueRef::F64(b) => r == VisitRef::<'de, &'de ValueRef<'de>>::F64(b),
                ValueRef::String(s) => match s.s {
                    Ok(t) => r == VisitRef::<'de, &'de ValueRef<'de>>::BorrowedStr(t),
                    Err(b) => r == VisitRef::<'de, &'de ValueRef<'de>>::BorrowedBytes(b),
                },
                ValueRef::Binary(b) => r == VisitRef::<'de, &'de ValueRef<'de>>::BorrowedBytes(b),
                ValueRef::Array(items) => r matches VisitRef::Sequence(len, de) && len
                    == items@.len() && de.remaining().len() == items@.len() && forall|i: int|
                    0 <= i < items@.len() ==> *#[trigger] de.remaining()[i] == items@[i],
                ValueRef::Mapping(pairs) => r matches VisitRef::Mapping(len, de) && len
                    == pairs@.len() && de.pending() is None && de.remaining().len()
                    == pairs@.len() && forall|i: int|
                    0 <= i < pairs@.len() ==> *(#[trigger] de.remaining()[i]).0 == pairs@[i].0
                        && *de.remaining()[i].1 == pairs@[i].1,
                ValueRef::Ext(tag, data) => r matches VisitRef::NewtypeStruct(de) && de.tag_left()
                    == Some(tag) && de.data_left() == Some(ExtData::Borrowed(data)),
            },
    {
        let ghost m = self.model();
        match self {
            ValueRef::Nil => VisitRef::Unit,
            ValueRef::Boolean(b) => VisitRef::Bool(*b),
            ValueRef::Integer(i) => match i.n {
                IntPriv::PosInt(n) => VisitRef::U64(n),
                IntPriv::NegInt(n) => VisitRef::I64(n),
            },
            ValueRef::F32(b) => VisitRef::F32(*b),
            ValueRef::F64(b) => VisitRef::F64(*b),
            ValueRef::String(s) => match s.s {
                Ok(t) => VisitRef::BorrowedStr(t),
                Err(b) => VisitRef::BorrowedBytes(b),
            },
            ValueRef::Binary(b) => VisitRef::BorrowedBytes(*b),
            ValueRef::Array(items) => {
                let len = items.len();
                let de = SeqDeserializer::new(elements_by_reference(items));
                proof {
                    let mi = match m {
                        SpecValue::Array(s) => s,
                        _ => Seq::empty(),
                    };
                    assert(de.remaining().map_values(|x: &'de ValueRef<'de>| (*x).model()) =~= mi);
                }
                VisitRef::Sequence(len, de)
            },
            ValueRef::Mapping(pairs) => {
                let len = pairs.len();
                let de = MapDeserializer::new(pairs_by_reference(pairs));
                proof {
                    let mp = match m {
                        SpecValue::Mapping(s) => s,
                        _ => Seq::empty(),
                    };
                    assert(de.remaining().map_values(
                        |p: (&'de ValueRef<'de>, &'de ValueRef<'de>)|
                            ((*p.0).model(), (*p.1).model()),
                    ) =~= mp);
                }
                VisitRef::Mapping(len, de)
            },
            ValueRef::Ext(tag, data) => VisitRef::NewtypeStruct(
                ExtDeserializer::new_ref(*tag, *data),
            ),
        }
    }

    /// Read as an option: nil is `None`, any other value is `Some` of itself.
    pub fn deserialize_option(self) -> (r: Option<ValueRef<'de>>)
        ensures
            match self {
                ValueRef::Nil => r is None,
                _ => r == Some(self),
            },
    {
        match self {
            ValueRef::Nil => None,
            value => Some(value),
        }
    }

    /// Read by reference as an option: nil is `None`, any other value is `Some` of itself.
    pub fn deserialize_option_borrowed(&'de self) -> (r: Option<&'de ValueRef<'de>>)
        ensures
            match *self {
                ValueRef::Nil => r is None,
                _ => r == Some(self),
            },
    {
        match self {
            ValueRef::Nil => None,
            value => Some(value),
        }
    }

    /// Read as an enum: an array of one or two elements (the variant, then its payload),
    /// a map of one entry (the variant, then its payload), or a string (the variant alone).
    pub fn deserialize_enum(self) -> (r: Result<
        EnumDeserializer<ValueRef<'de>>,
        DeError<ValueRef<'de>>,
    >)
        ensures
            match self {
                ValueRef::Array(arr) => if arr@.len() == 1 {
                    r matches Ok(e) && e.id() == arr@[0] && e.payload() is None
                } else if arr@.len() == 2 {
                    r matches Ok(e) && e.id() == arr@[0] && e.payload() == Some(arr@[1])
                } else {
                    r matches Err(e) && e == DeError::<ValueRef<'de>>::InvalidLength(
                        arr@.len() as usize,
                        Expected::ArrayWithOneOrTwoElements,
                    )
                },
                ValueRef::Mapping(pairs) => if pairs@.len() == 1 {
                    r matches Ok(e) && e.id() == pairs@[0].0 && e.payload() == Some(pairs@[0].1)
                } else {
                    r matches Err(e) && e == DeError::<ValueRef<'de>>::InvalidLength(
                        pairs@.len() as usize,
                        Expected::MapWithOneElement,
                    )
                },
                ValueRef::String(_) => r matches Ok(e) && e.id() == self && e.payload() is None,
                _ => r matches Err(e) && e == DeError::<ValueRef<'de>>::InvalidType(
                    Found::Value(self),
                    Expected::ArrayMapIntOrString,
                ),
            },
    {
        match self {
            ValueRef::Array(arr) => {
                let len = arr.len();
                if !(len == 1 || len == 2) {
                    return Err(DeError::InvalidLength(len, Expected::ArrayWithOneOrTwoElements));
                }
                let mut arr = arr;
                if len == 2 {
                    let value = arr.pop().unwrap();
                    let id = arr.pop().unwrap();
                    Ok(EnumDeserializer::new(id, Some(value)))
                } else {
                    let id = arr.pop().unwrap();
                    Ok(EnumDeserializer::new(id, None))
                }
            },
            ValueRef::Mapping(pairs) => {
                let len = pairs.len();
                if len != 1 {
                    return Err(DeError::InvalidLength(len, Expected::MapWithOneElement));
                }
                let mut pairs = pairs;
                let (id, value) = pairs.pop().unwrap();
                Ok(EnumDeserializer::new(id, Some(value)))
            },
            ValueRef::String(s) => Ok(EnumDeserializer::new(ValueRef::String(s), None)),
            other => Err(DeError::InvalidType(Found::Value(other), Expected::ArrayMapIntOrString)),
        }
    }

    /// Read by reference as an enum, as `deserialize_enum` reads an owned value; the
    /// variant and its payload are handed out as references.
    pub fn deserialize_enum_borrowed(&'de self) -> (r: Result<
        EnumDeserializer<&'de ValueRef<'de>>,
        DeError<&'de ValueRef<'de>>,
    >)
        ensures
            match *self {
                ValueRef::Array(arr) => if arr@.len() == 1 {
                    r matches Ok(e) && *e.id() == arr@[0] && e.payload() is None
                } else if arr@.len() == 2 {
                    r matches Ok(e) && *e.id() == arr@[0] && (e.payload() matches Some(p) && *p
                        == arr@[1])
                } else {
                    r matches Err(e) && e == DeError::<&'de ValueRef<'de>>::InvalidLength(
                        arr@.len() as usize,
                        Expected::ArrayWithOneOrTwoElements,
                    )
                },
                ValueRef::Mapping(pairs) => if pairs@.len() == 1 {
                    r matches Ok(e) && *e.id() == pairs@[0].0 && (e.payload() matches Some(p) && *p
                        == pairs@[0].1)
                } else {
                    r matches Err(e) && e == DeError::<&'de ValueRef<'de>>::InvalidLength(
                        pairs@.len() as usize,
                        Expected::MapWithOneElement,
                    )
                },
                ValueRef::String(_) => r matches Ok(e) && e.id() == self && e.payload() is None,
                _ => r matches Err(e) && e == DeError::<&'de ValueRef<'de>>::InvalidType(
                    Found::Value(self),
                    Expected::ArrayMapIntOrString,
                ),
            },
    {
        match self {
            ValueRef::Array(arr) => {
                let len = arr.len();
                if !(len == 1 || len == 2) {
                    return Err(DeError::InvalidLength(len, Expected::ArrayWithOneOrTwoElements));
                }
                if len == 2 {
                    Ok(EnumDeserializer::new(&arr[0], Some(&arr[1])))
                } else {
                    Ok(EnumDeserializer::new(&arr[0], None))
                }
            },
            ValueRef::Mapping(pairs) => {
                let len = pairs.len();
                if len != 1 {
                    return Err(DeError::InvalidLength(len, Expected::MapWithOneElement));
                }
                let (id, value) = to_reference(&pairs[0]);
                Ok(EnumDeserializer::new(id, Some(value)))
            },
            ValueRef::String(_) => Ok(EnumDeserializer::new(self, None)),
            _ => Err(DeError::InvalidType(Found::Value(self), Expected::ArrayMapIntOrString)),
        }
    }

    /// Read as a unit struct: only an empty array is one.
    pub fn deserialize_unit_struct(self) -> (r: Result<(), DeError<ValueRef<'de>>>)
        ensures
            match self {
                ValueRef::Array(arr) => if arr@.len() == 0 {
                    r is Ok
                } else {
                    r matches Err(e) && e == DeError::<ValueRef<'de>>::InvalidType(
                        Found::Sequence,
                        Expected::EmptyArray,
                    )
                },
                _ => r matches Err(e) && e == DeError::<ValueRef<'de>>::InvalidType(
                    Found::Value(self),
                    Expected::EmptyArray,
                ),
            },
    {
        match self {
            ValueRef::Array(arr) => {
                if arr.len() == 0 {
                    Ok(())
                } else {
                    Err(DeError::InvalidType(Found::Sequence, Expected::EmptyArray))
                }
            },
            other => Err(DeError::InvalidType(Found::Value(other), Expected::EmptyArray)),
        }
    }

    /// Read by reference as a unit struct: only an empty array is one.
    pub fn deserialize_unit_struct_borrowed(&'de self) -> (r: Result<
        (),
        DeError<&'de ValueRef<'de>>,
    >)
        ensures
            match *self {
                ValueRef::Array(arr) => if arr@.len() == 0 {
                    r is Ok
                } else {
                    r matches Err(e) && e == DeError::<&'de ValueRef<'de>>::InvalidType(
                        Found::Sequence,
                        Expected::EmptyArray,
                    )
                },
                _ => r matches Err(e) && e == DeError::<&'de ValueRef<'de>>::InvalidType(
                    Found::Value(self),
                    Expected::EmptyArray,
                ),
            },
    {
        match self {
            ValueRef::Array(arr) => {
                if arr.len() == 0 {
                    Ok(())
                } else {
                    Err(DeError::InvalidType(Found::Sequence, Expected::EmptyArray))
                }
            },
            _ => Err(DeError::InvalidType(Found::Value(self), Expected::EmptyArray)),
        }
    }

    /// Read as the newtype struct `name`: under the extension name, an extension value
    /// is handed out as its (tag, bytes) sequence and any other value is refused;
    /// under any other name the value itself is the newtype's content.
    pub fn deserialize_newtype_struct(self, name: &str) -> (r: Result<
        NewtypeVisitRef<'de, ValueRef<'de>>,
        DeError<ValueRef<'de>>,
    >)
        ensures
            name@ == MSGPACK_EXT_STRUCT_NAME@ ==> match self {
                ValueRef::Ext(tag, data) => r matches Ok(NewtypeVisitRef::Ext(de))
                    && de.tag_left() == Some(tag) && de.data_left() == Some(
                    ExtData::Borrowed(data),
                ),
                _ => r matches Err(e) && e == DeError::<ValueRef<'de>>::InvalidType(
                    Found::Value(self),
                    Expected::ExtStruct,
                ),
            },
            name@ != MSGPACK_EXT_STRUCT_NAME@ ==> (r matches Ok(NewtypeVisitRef::Content(v)) && v
                == self),
    {
        if is_ext_struct_name(name) {
            match self {
                ValueRef::Ext(tag, data) => {
                    return Ok(NewtypeVisitRef::Ext(ExtDeserializer::new_ref(tag, data)));
                },
                other => {
                    return Err(DeError::InvalidType(Found::Value(other), Expected::ExtStruct));
                },
            }
        }
        Ok(NewtypeVisitRef::Content(self))
    }

    /// Read by reference as the newtype struct `name`, as `deserialize_newtype_struct`
    /// reads an owned value.
    pub fn deserialize_newtype_struct_borrowed(&'de self, name: &str) -> (r: Result<
        NewtypeVisitRef<'de, &'de ValueRef<'de>>,
        DeError<&'de ValueRef<'de>>,
    >)
        ensures
            name@ == MSGPACK_EXT_STRUCT_NAME@ ==> match *self {
                ValueRef::Ext(tag, data) => r matches Ok(NewtypeVisitRef::Ext(de))
                    && de.tag_left() == Some(tag) && de.data_left() == Some(
                    ExtData::Borrowed(data),
                ),
                _ => r matches Err(e) && e == DeError::<&'de ValueRef<'de>>::InvalidType(
                    Found::Value(self),
                    Expected::ExtStruct,
                ),
            },
            name@ != MSGPACK_EXT_STRUCT_NAME@ ==> (r matches Ok(NewtypeVisitRef::Content(v)) && v
                == self),
    {
        if is_ext_struct_name(name) {
            match self {
                ValueRef::Ext(tag, data) => {
                    return Ok(NewtypeVisitRef::Ext(ExtDeserializer::new_ref(*tag, *data)));
                },
                _ => {
                    return Err(DeError::InvalidType(Found::Value(self), Expected::ExtStruct));
                },
            }
        }
        Ok(NewtypeVisitRef::Content(self))
    }
}

} // verus!
