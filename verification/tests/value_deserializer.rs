use rmpv::deserializer::{is_ext_struct_name, NewtypeVisit, Visit};
use rmpv::error::{DeError, Expected, Found, Unexpected};
use rmpv::ext::{ExtDeserializer, ExtElement};
use rmpv::value::{IntPriv, Integer, Utf8String, Value, MSGPACK_EXT_STRUCT_NAME};

fn num(v: i64) -> Value {
    Value::Integer(Integer::from_i64(v))
}

fn text(s: &str) -> Value {
    Value::String(Utf8String { s: Ok(String::from(s)) })
}

#[test]
fn any_nil_is_unit() {
    assert!(matches!(Value::Nil.deserialize_any(), Visit::Unit));
}

#[test]
fn any_scalars() {
    assert!(matches!(Value::Boolean(true).deserialize_any(), Visit::Bool(true)));
    assert!(matches!(Value::Integer(Integer::from_u64(7)).deserialize_any(), Visit::U64(7)));
    assert!(matches!(num(-7).deserialize_any(), Visit::I64(-7)));
    assert!(matches!(num(7).deserialize_any(), Visit::U64(7)));
    let bits = 1.5f32.to_bits();
    assert!(matches!(Value::F32(bits).deserialize_any(), Visit::F32(b) if b == bits));
    let bits = (-2.25f64).to_bits();
    assert!(matches!(Value::F64(bits).deserialize_any(), Visit::F64(b) if b == bits));
}

#[test]
fn any_strings_and_bytes() {
    match text("hi").deserialize_any() {
        Visit::String(s) => assert_eq!(s, "hi"),
        _ => panic!("expected a string"),
    }
    match Value::String(Utf8String { s: Err(vec![0xff, 0xfe]) }).deserialize_any() {
        Visit::ByteBuf(b) => assert_eq!(b, vec![0xff, 0xfe]),
        _ => panic!("expected bytes"),
    }
    match Value::Binary(vec![1, 2, 3]).deserialize_any() {
        Visit::ByteBuf(b) => assert_eq!(b, vec![1, 2, 3]),
        _ => panic!("expected bytes"),
    }
}

#[test]
fn any_array_hands_out_elements_in_order() {
    let v = Value::Array(vec![num(1), num(2), num(3)]);
    match v.deserialize_any() {
        Visit::Sequence(len, mut de) => {
            assert_eq!(len, 3);
            assert_eq!(de.len(), 3);
            assert_eq!(de.next_element(), Some(num(1)));
            assert_eq!(de.next_element(), Some(num(2)));
            assert!(matches!(de.finish(3), Err(DeError::InvalidLength(3, Expected::FewerElementsInArray))));
            assert_eq!(de.next_element(), Some(num(3)));
            assert_eq!(de.next_element(), None);
            assert_eq!(de.next_element(), None);
            assert!(de.finish(3).is_ok());
        }
        _ => panic!("expected a sequence"),
    }
}

#[test]
fn any_map_hands_out_key_then_value() {
    let v = Value::Mapping(vec![(text("a"), num(1)), (text("b"), num(2))]);
    match v.deserialize_any() {
        Visit::Mapping(len, mut de) => {
            assert_eq!(len, 2);
            assert!(matches!(de.next_value(), Err(DeError::MissingValue)));
            assert_eq!(de.next_key(), Some(text("a")));
            assert_eq!(de.next_value().unwrap(), num(1));
            assert!(matches!(de.next_value(), Err(DeError::MissingValue)));
            assert!(matches!(de.finish(2), Err(DeError::InvalidLength(2, Expected::FewerElementsInMap))));
            assert_eq!(de.next_key(), Some(text("b")));
            assert_eq!(de.next_value().unwrap(), num(2));
            assert_eq!(de.next_key(), None);
            assert_eq!(de.len(), 0);
            assert!(de.finish(2).is_ok());
        }
        _ => panic!("expected a map"),
    }
}

#[test]
fn any_ext_hands_out_tag_then_bytes() {
    match Value::Ext(5, vec![9, 8]).deserialize_any() {
        Visit::NewtypeStruct(mut de) => {
            assert!(de.has_element());
            assert_eq!(de.next_element(), Some(ExtElement::Tag(5)));
            assert!(de.has_element());
            assert_eq!(de.next_element(), Some(ExtElement::Owned(vec![9, 8])));
            assert!(!de.has_element());
            assert_eq!(de.next_element(), None);
        }
        _ => panic!("expected an extension"),
    }
}

#[test]
fn ext_deserializer_over_borrowed_bytes() {
    let data = [1u8, 2, 3];
    let mut de = ExtDeserializer::new_ref(-1, &data);
    assert_eq!(de.next_element(), Some(ExtElement::Tag(-1)));
    assert_eq!(de.next_element(), Some(ExtElement::Borrowed(&data[..])));
    assert_eq!(de.next_element(), None);
    let mut de = ExtDeserializer::new_owned(3, vec![]);
    assert_eq!(de.next_element(), Some(ExtElement::Tag(3)));
    assert_eq!(de.next_element(), Some(ExtElement::Owned(vec![])));
    assert!(!de.has_element());
}

#[test]
fn option_nil_is_none() {
    assert_eq!(Value::Nil.deserialize_option(), None);
    assert_eq!(num(4).deserialize_option(), Some(num(4)));
    assert_eq!(Value::Array(vec![]).deserialize_option(), Some(Value::Array(vec![])));
}

#[test]
fn enum_from_one_element_array() {
    let e = Value::Array(vec![num(2)]).deserialize_enum().unwrap();
    let (id, variant) = e.variant_seed();
    assert_eq!(id, num(2));
    assert!(variant.unit_variant().is_ok());
}

#[test]
fn enum_from_two_element_array() {
    let e = Value::Array(vec![num(1), text("payload")]).deserialize_enum().unwrap();
    let (id, variant) = e.variant_seed();
    assert_eq!(id, num(1));
    assert_eq!(variant.newtype_variant().unwrap(), text("payload"));
}

#[test]
fn enum_from_array_of_wrong_length() {
    assert!(matches!(
        Value::Array(vec![]).deserialize_enum(),
        Err(DeError::InvalidLength(0, Expected::ArrayWithOneOrTwoElements))
    ));
    assert!(matches!(
        Value::Array(vec![num(1), num(2), num(3)]).deserialize_enum(),
        Err(DeError::InvalidLength(3, Expected::ArrayWithOneOrTwoElements))
    ));
}

#[test]
fn enum_from_map_of_one_entry() {
    let e = Value::Mapping(vec![(text("V"), Value::Array(vec![num(1), num(2)]))])
        .deserialize_enum()
        .unwrap();
    let (id, variant) = e.variant_seed();
    assert_eq!(id, text("V"));
    assert_eq!(variant.tuple_variant().unwrap(), Value::Array(vec![num(1), num(2)]));
}

#[test]
fn enum_from_map_of_wrong_size() {
    assert!(matches!(
        Value::Mapping(vec![]).deserialize_enum(),
        Err(DeError::InvalidLength(0, Expected::MapWithOneElement))
    ));
    assert!(matches!(
        Value::Mapping(vec![(num(1), num(1)), (num(2), num(2))]).deserialize_enum(),
        Err(DeError::InvalidLength(2, Expected::MapWithOneElement))
    ));
}

#[test]
fn enum_from_string_has_no_payload() {
    let e = text("Unit").deserialize_enum().unwrap();
    let (id, variant) = e.variant_seed();
    assert_eq!(id, text("Unit"));
    assert!(variant.unit_variant().is_ok());
}

#[test]
fn enum_from_other_values_is_refused() {
    match num(3).deserialize_enum() {
        Err(DeError::InvalidType(Found::Value(v), Expected::ArrayMapIntOrString)) => assert_eq!(v, num(3)),
        _ => panic!("expected a refusal"),
    }
    assert!(matches!(
        Value::Nil.deserialize_enum(),
        Err(DeError::InvalidType(Found::Value(Value::Nil), Expected::ArrayMapIntOrString))
    ));
}

#[test]
fn unit_struct_is_an_empty_array() {
    assert!(Value::Array(vec![]).deserialize_unit_struct().is_ok());
    assert!(matches!(
        Value::Array(vec![num(1)]).deserialize_unit_struct(),
        Err(DeError::InvalidType(Found::Sequence, Expected::EmptyArray))
    ));
    assert!(matches!(
        Value::Boolean(false).deserialize_unit_struct(),
        Err(DeError::InvalidType(Found::Value(Value::Boolean(false)), Expected::EmptyArray))
    ));
}

#[test]
fn newtype_struct_under_ext_name() {
    match Value::Ext(7, vec![1]).deserialize_newtype_struct(MSGPACK_EXT_STRUCT_NAME) {
        Ok(NewtypeVisit::Ext(mut de)) => {
            assert_eq!(de.next_element(), Some(ExtElement::Tag(7)));
            assert_eq!(de.next_element(), Some(ExtElement::Owned(vec![1])));
        }
        _ => panic!("expected an extension"),
    }
    assert!(matches!(
        num(1).deserialize_newtype_struct("_ExtStruct"),
        Err(DeError::InvalidType(Found::Value(_), Expected::ExtStruct))
    ));
}

#[test]
fn newtype_struct_under_other_name() {
    match num(1).deserialize_newtype_struct("Meters") {
        Ok(NewtypeVisit::Content(v)) => assert_eq!(v, num(1)),
        _ => panic!("expected the value itself"),
    }
    match Value::Ext(1, vec![]).deserialize_newtype_struct("_ExtStruc") {
        Ok(NewtypeVisit::Content(v)) => assert_eq!(v, Value::Ext(1, vec![])),
        _ => panic!("expected the value itself"),
    }
}

#[test]
fn ext_struct_name_check() {
    assert!(is_ext_struct_name("_ExtStruct"));
    assert!(!is_ext_struct_name("_ExtStructs"));
    assert!(!is_ext_struct_name("_extStruct"));
    assert!(!is_ext_struct_name(""));
}

#[test]
fn unexpected_reports() {
    assert_eq!(Value::Nil.unexpected(), Unexpected::Unit);
    assert_eq!(Value::Boolean(true).unexpected(), Unexpected::Bool(true));
    assert_eq!(num(3).unexpected(), Unexpected::Unsigned(3));
    assert_eq!(num(-3).unexpected(), Unexpected::Signed(-3));
    assert_eq!(Value::F32(7).unexpected(), Unexpected::Float32(7));
    assert_eq!(Value::F64(8).unexpected(), Unexpected::Float64(8));
    assert_eq!(text("x").unexpected(), Unexpected::Str("x"));
    assert_eq!(Value::String(Utf8String { s: Err(vec![0xc3]) }).unexpected(), Unexpected::Bytes(&[0xc3]));
    assert_eq!(Value::Binary(vec![4]).unexpected(), Unexpected::Bytes(&[4]));
    assert_eq!(Value::Array(vec![]).unexpected(), Unexpected::Sequence);
    assert_eq!(Value::Mapping(vec![]).unexpected(), Unexpected::Mapping);
    assert_eq!(Value::Ext(0, vec![]).unexpected(), Unexpected::Sequence);
    assert_eq!(Found::<Value>::Sequence.unexpected(), Unexpected::Sequence);
    assert_eq!(Found::<Value>::UnitVariant.unexpected(), Unexpected::UnitVariant);
    assert_eq!(Found::Value(num(2)).unexpected(), Unexpected::Unsigned(2));
}

#[test]
fn expected_texts() {
    assert_eq!(Expected::FewerElementsInArray.text(), "fewer elements in array");
    assert_eq!(Expected::FewerElementsInMap.text(), "fewer elements in map");
    assert_eq!(Expected::ArrayWithOneOrTwoElements.text(), "array with one or two elements");
    assert_eq!(Expected::MapWithOneElement.text(), "map with one element");
    assert_eq!(Expected::ArrayMapIntOrString.text(), "array, map, int or string");
    assert_eq!(Expected::ExtStruct.text(), "expected Ext");
    assert_eq!(Expected::EmptyArray.text(), "empty array");
    assert_eq!(Expected::ArrayWithOneElement.text(), "array with one element");
    assert_eq!(Expected::NewtypeVariant.text(), "newtype variant");
    assert_eq!(Expected::TupleVariant.text(), "tuple variant");
    assert_eq!(Expected::StructVariant.text(), "struct variant");
    assert_eq!(Expected::ValidExt.text(), "a valid MessagePack Ext");
}

#[test]
fn integer_forms() {
    assert_eq!(Integer::from_i64(-1).n, IntPriv::NegInt(-1));
    assert_eq!(Integer::from_i64(0).n, IntPriv::PosInt(0));
    assert_eq!(Integer::from_i64(i64::MIN).n, IntPriv::NegInt(i64::MIN));
    assert_eq!(Integer::from_i64(i64::MAX).n, IntPriv::PosInt(i64::MAX as u64));
    assert_eq!(Integer::from_u64(u64::MAX).n, IntPriv::PosInt(u64::MAX));
}
