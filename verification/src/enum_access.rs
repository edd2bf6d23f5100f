use vstd::prelude::*;
use crate::error::{DeError, Expected, Found};
use crate::value::Value;
use crate::value_ref::ValueRef;

verus! {

/// Access to an enum written as a variant identifier and an optional payload.
pub struct EnumDeserializer<U> {
    id: U,
    value: Option<U>,
}

/// Access to the payload of the variant that an `EnumDeserializer` named.
pub struct VariantDeserializer<U> {
    value: Option<U>,
}

impl<U> EnumDeserializer<U> {
    /// The value that names the variant.
    pub closed spec fn id(self) -> U {
        self.id
    }

    /// The payload, if there is one.
    pub closed spec fn payload(self) -> Option<U> {
        self.value
    }

    /// An enum access with this variant identifier and this payload.
    pub fn new(id: U, value: Option<U>) -> (r: Self)
        ensures
            r.id() == id,
            r.payload() == value,
    {
        EnumDeserializer { id, value }
    }

    /// Splits the access into the value that names the variant, to be handed to the
    /// caller's seed, and the access to the payload.
    pub fn variant_seed(self) -> (r: (U, VariantDeserializer<U>))
        ensures
            r.0 == self.id(),
            r.1.payload() == self.payload(),
    {
        (self.id, VariantDeserializer { value: self.value })
    }
}

impl<U> VariantDeserializer<U> {
    /// The payload, if there is one.
    pub closed spec fn payload(self) -> Option<U> {
        self.value
    }
}

impl VariantDeserializer<Value> {
    /// A unit variant has no payload, or an empty array as its payload.
    pub fn unit_variant(self) -> (r: Result<(), DeError<Value>>)
        ensures
            match self.payload() {
                None => r is Ok,
                Some(Value::Array(arr)) => if arr@.len() == 0 {
                    r is Ok
                } else {
                    r == Err::<(), DeError<Value>>(
                        DeError::InvalidValue(Found::Sequence, Expected::EmptyArray),
                    )
                },
                Some(v) => r == Err::<(), DeError<Value>>(
                    DeError::InvalidValue(Found::Value(v), Expected::EmptyArray),
                ),
            },
    {
        match self.value {
            Some(Value::Array(arr)) => {
                if arr.len() == 0 {
                    Ok(())
                } else {
                    Err(DeError::InvalidValue(Found::Sequence, Expected::EmptyArray))
                }
            },
            Some(v) => Err(DeError::InvalidValue(Found::Value(v), Expected::EmptyArray)),
            None => Ok(()),
        }
    }

    /// The value a newtype variant holds: the single element of a one-element array,
    /// or the payload itself.
    pub fn newtype_variant(self) -> (r: Result<Value, DeError<Value>>)
        ensures
            match self.payload() {
                None => r == Err::<Value, DeError<Value>>(
                    DeError::InvalidType(Found::UnitVariant, Expected::NewtypeVariant),
                ),
                Some(Value::Array(arr)) => if arr@.len() == 0 {
                    r == Err::<Value, DeError<Value>>(
                        DeError::InvalidValue(Found::Sequence, Expected::ArrayWithOneElement),
                    )
                } else if arr@.len() == 1 {
                    r == Ok::<Value, DeError<Value>>(arr@[0])
                } else {
                    r == Ok::<Value, DeError<Value>>(Value::Array(arr))
                },
                Some(v) => r == Ok::<Value, DeError<Value>>(v),
            },
    {
        match self.value {
            Some(Value::Array(arr)) => {
                if arr.len() == 0 {
                    Err(DeError::InvalidValue(Found::Sequence, Expected::ArrayWithOneElement))
                } else if arr.len() == 1 {
                    let mut arr = arr;
                    let x = arr.pop().unwrap();
                    Ok(x)
                } else {
                    Ok(Value::Array(arr))
                }
            },
            Some(v) => Ok(v),
            None => Err(DeError::InvalidType(Found::UnitVariant, Expected::NewtypeVariant)),
        }
    }

    /// The array that a tuple variant holds, to be read as a sequence.
    pub fn tuple_variant(self) -> (r: Result<Value, DeError<Value>>)
        ensures
            match self.payload() {
                None => r == Err::<Value, DeError<Value>>(
                    DeError::InvalidType(Found::UnitVariant, Expected::TupleVariant),
                ),
                Some(v) => if v is Array {
                    r == Ok::<Value, DeError<Value>>(v)
                } else {
                    r == Err::<Value, DeError<Value>>(
                        DeError::InvalidType(Found::Value(v), Expected::TupleVariant),
                    )
                },
            },
    {
        match self.value {
            Some(v) => {
                if let Value::Array(_) = v {
                    Ok(v)
                } else {
                    Err(DeError::InvalidType(Found::Value(v), Expected::TupleVariant))
                }
            },
            None => Err(DeError::InvalidType(Found::UnitVariant, Expected::TupleVariant)),
        }
    }

    /// The array or map that a struct variant holds, to be read as a sequence or a map.
    pub fn struct_variant(self) -> (r: Result<Value, DeError<Value>>)
        ensures
            match self.payload() {
                None => r == Err::<Value, DeError<Value>>(
                    DeError::InvalidType(Found::UnitVariant, Expected::StructVariant),
                ),
                Some(v) => if v is Array || v is Mapping {
                    r == Ok::<Value, DeError<Value>>(v)
                } else {
                    r == Err::<Value, DeError<Value>>(
                        DeError::InvalidType(Found::Value(v), Expected::StructVariant),
                    )
                },
            },
    {
        match self.value {
            Some(v) => {
                match v {
                    Value::Array(_) => Ok(v),
                    Value::Mapping(_) => Ok(v),
                    _ => Err(DeError::InvalidType(Found::Value(v), Expected::StructVariant)),
                }
            },
            None => Err(DeError::InvalidType(Found::UnitVariant, Expected::StructVariant)),
        }
    }
}

impl<'de> VariantDeserializer<ValueRef<'de>> {
    /// A unit variant has no payload, or an empty array as its payload.
    pub fn unit_variant(self) -> (r: Result<(), DeError<ValueRef<'de>>>)
        ensures
            match self.payload() {
                None => r is Ok,
                Some(ValueRef::Array(arr)) => if arr@.len() == 0 {
                    r is Ok
                } else {
                    r == Err::<(), DeError<ValueRef<'de>>>(
                        DeError::InvalidValue(Found::Sequence, Expected::EmptyArray),
                    )
                },
                Some(v) => r == Err::<(), DeError<ValueRef<'de>>>(
                    DeError::InvalidValue(Found::Value(v), Expected::EmptyArray),
                ),
            },
    {
        match self.value {
            Some(ValueRef::Array(arr)) => {
                if arr.len() == 0 {
                    Ok(())
                } else {
                    Err(DeError::InvalidValue(Found::Sequence, Expected::EmptyArray))
                }
            },
            Some(v) => Err(DeError::InvalidValue(Found::Value(v), Expected::EmptyArray)),
            None => Ok(()),
        }
    }

    /// The value a newtype variant holds: the single element of a one-element array,
    /// or the payload itself.
    pub fn newtype_variant(self) -> (r: Result<ValueRef<'de>, DeError<ValueRef<'de>>>)
        ensures
            match self.payload() {
                None => r == Err::<ValueRef<'de>, DeError<ValueRef<'de>>>(
                    DeError::InvalidType(Found::UnitVariant, Expected::NewtypeVariant),
                ),
                Some(ValueRef::Array(arr)) => if arr@.len() == 0 {
                    r == Err::<ValueRef<'de>, DeError<ValueRef<'de>>>(
                        DeError::InvalidValue(Found::Sequence, Expected::ArrayWithOneElement),
                    )
                } else if arr@.len() == 1 {
                    r == Ok::<ValueRef<'de>, DeError<ValueRef<'de>>>(arr@[0])
                } else {
                    r == Ok::<ValueRef<'de>, DeError<ValueRef<'de>>>(ValueRef::Array(arr))
                },
                Some(v) => r == Ok::<ValueRef<'de>, DeError<ValueRef<'de>>>(v),
            },
    {
        match self.value {
            Some(ValueRef::Array(arr)) => {
                if arr.len() == 0 {
                    Err(DeError::InvalidValue(Found::Sequence, Expected::ArrayWithOneElement))
                } else if arr.len() == 1 {
                    let mut arr = arr;
                    let x = arr.pop().unwrap();
                    Ok(x)
                } else {
                    Ok(ValueRef::Array(arr))
                }
            },
            Some(v) => Ok(v),
            None => Err(DeError::InvalidType(Found::UnitVariant, Expected::NewtypeVariant)),
        }
    }

    /// The array that a tuple variant holds, to be read as a sequence.
    pub fn tuple_variant(self) -> (r: Result<ValueRef<'de>, DeError<ValueRef<'de>>>)
        ensures
            match self.payload() {
                None => r == Err::<ValueRef<'de>, DeError<ValueRef<'de>>>(
                    DeError::InvalidType(Found::UnitVariant, Expected::TupleVariant),
                ),
                Some(v) => if v is Array {
                    r == Ok::<ValueRef<'de>, DeError<ValueRef<'de>>>(v)
                } else {
                    r == Err::<ValueRef<'de>, DeError<ValueRef<'de>>>(
                        DeError::InvalidType(Found::Value(v), Expected::TupleVariant),
                    )
                },
            },
    {
        match self.value {
            Some(v) => {
                if let ValueRef::Array(_) = v {
                    Ok(v)
                } else {
                    Err(DeError::InvalidType(Found::Value(v), Expected::TupleVariant))
                }
            },
            None => Err(DeError::InvalidType(Found::UnitVariant, Expected::TupleVariant)),
        }
    }

    /// The array or map that a struct variant holds, to be read as a sequence or a map.
    pub fn struct_variant(self) -> (r: Result<ValueRef<'de>, DeError<ValueRef<'de>>>)
        ensures
            match self.payload() {
                None => r == Err::<ValueRef<'de>, DeError<ValueRef<'de>>>(
                    DeError::InvalidType(Found::UnitVariant, Expected::StructVariant),
                ),
                Some(v) => if v is Array || v is Mapping {
                    r == Ok::<ValueRef<'de>, DeError<ValueRef<'de>>>(v)
                } else {
                    r == Err::<ValueRef<'de>, DeError<ValueRef<'de>>>(
                        DeError::InvalidType(Found::Value(v), Expected::StructVariant),
                    )
                },
            },
    {
        match self.value {
            Some(v) => {
                match v {
                    ValueRef::Array(_) => Ok(v),
                    ValueRef::Mapping(_) => Ok(v),
                    _ => Err(DeError::InvalidType(Found::Value(v), Expected::StructVariant)),
                }
            },
            None => Err(DeError::InvalidType(Found::UnitVariant, Expected::StructVariant)),
        }
    }
}

impl<'de> VariantDeserializer<&'de ValueRef<'de>> {
    /// A unit variant has no payload, or an empty array as its payload.
    pub fn unit_variant(self) -> (r: Result<(), DeError<&'de ValueRef<'de>>>)
        ensures
            match self.payload() {
                None => r is Ok,
                Some(v) => match *v {
                    ValueRef::Array(arr) => if arr@.len() == 0 {
                        r is Ok
                    } else {
                        r == Err::<(), DeError<&'de ValueRef<'de>>>(
                            DeError::InvalidValue(Found::Sequence, Expected::EmptyArray),
                        )
                    },
                    _ => r == Err::<(), DeError<&'de ValueRef<'de>>>(
                        DeError::InvalidValue(Found::Value(v), Expected::EmptyArray),
                    ),
                },
            },
    {
        match self.value {
            Some(v) => match v {
                ValueRef::Array(arr) => {
                    if arr.len() == 0 {
                        Ok(())
                    } else {
                        Err(DeError::InvalidValue(Found::Sequence, Expected::EmptyArray))
                    }
                },
                _ => Err(DeError::InvalidValue(Found::Value(v), Expected::EmptyArray)),
            },
            None => Ok(()),
        }
    }

    /// The value a newtype variant holds: the single element of a one-element array,
    /// or the payload itself.
    pub fn newtype_variant(self) -> (r: Result<&'de ValueRef<'de>, DeError<&'de ValueRef<'de>>>)
        ensures
            match self.payload() {
                None => r == Err::<&'de ValueRef<'de>, DeError<&'de ValueRef<'de>>>(
                    DeError::InvalidType(Found::UnitVariant, Expected::NewtypeVariant),
                ),
                Some(v) => match *v {
                    ValueRef::Array(arr) => if arr@.len() == 0 {
                        r == Err::<&'de ValueRef<'de>, DeError<&'de ValueRef<'de>>>(
                            DeError::InvalidValue(Found::Sequence, Expected::ArrayWithOneElement),
                        )
                    } else if arr@.len() == 1 {
                        r matches Ok(x) && *x == arr@[0]
                    } else {
                        r == Ok::<&'de ValueRef<'de>, DeError<&'de ValueRef<'de>>>(v)
                    },
                    _ => r == Ok::<&'de ValueRef<'de>, DeError<&'de ValueRef<'de>>>(v),
                },
            },
    {
        match self.value {
            Some(v) => match v {
                ValueRef::Array(arr) => {
                    if arr.len() == 0 {
                        Err(DeError::InvalidValue(Found::Sequence, Expected::ArrayWithOneElement))
                    } else if arr.len() == 1 {
                        Ok(&arr[0])
                    } else {
                        Ok(v)
                    }
                },
                _ => Ok(v),
            },
            None => Err(DeError::InvalidType(Found::UnitVariant, Expected::NewtypeVariant)),
        }
    }

    /// The array that a tuple variant holds, to be read as a sequence.
    pub fn tuple_variant(self) -> (r: Result<&'de ValueRef<'de>, DeError<&'de ValueRef<'de>>>)
        ensures
            match self.payload() {
                None => r == Err::<&'de ValueRef<'de>, DeError<&'de ValueRef<'de>>>(
                    DeError::InvalidType(Found::UnitVariant, Expected::TupleVariant),
                ),
                Some(v) => if *v is Array {
                    r == Ok::<&'de ValueRef<'de>, DeError<&'de ValueRef<'de>>>(v)
                } else {
                    r == Err::<&'de ValueRef<'de>, DeError<&'de ValueRef<'de>>>(
                        DeError::InvalidType(Found::Value(v), Expected::TupleVariant),
                    )
                },
            },
    {
        match self.value {
            Some(v) => match v {
                ValueRef::Array(_) => Ok(v),
                _ => Err(DeError::InvalidType(Found::Value(v), Expected::TupleVariant)),
            },
            None => Err(DeError::InvalidType(Found::UnitVariant, Expected::TupleVariant)),
        }
    }

    /// The array or map that a struct variant holds, to be read as a sequence or a map.
    pub fn struct_variant(self) -> (r: Result<&'de ValueRef<'de>, DeError<&'de ValueRef<'de>>>)
        ensures
            match self.payload() {
                None => r == Err::<&'de ValueRef<'de>, DeError<&'de ValueRef<'de>>>(
                    DeError::InvalidType(Found::UnitVariant, Expected::StructVariant),
                ),
                Some(v) => if *v is Array || *v is Mapping {
                    r == Ok::<&'de ValueRef<'de>, DeError<&'de ValueRef<'de>>>(v)
                } else {
                    r == Err::<&'de ValueRef<'de>, DeError<&'de ValueRef<'de>>>(
                        DeError::InvalidType(Found::Value(v), Expected::StructVariant),
                    )
                },
            },
    {
        match self.value {
            Some(v) => match v {
                ValueRef::Array(_) => Ok(v),
                ValueRef::Mapping(_) => Ok(v),
                _ => Err(DeError::InvalidType(Found::Value(v), Expected::StructVariant)),
            },
            None => Err(DeError::InvalidType(Found::UnitVariant, Expected::StructVariant)),
        }
    }
}

} // verus!
