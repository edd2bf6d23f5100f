use rmpv::enum_access::EnumDeserializer;
use rmpv::error::{DeError, Expected, Found};
use rmpv::value::{Integer, Utf8String, Value};

fn num(v: i64) -> Value {
    Value::Integer(Integer::from_i64(v))
}

fn variant(payload: Option<Value>) -> rmpv::enum_access::VariantDeserializer<Value> {
    EnumDeserializer::new(num(0), payload).variant_seed().1
}

#[test]
fn enum_deserializer_new_keeps_its_parts() {
    let (id, v) = EnumDeserializer::new(num(9), Some(num(10))).variant_seed();
    assert_eq!(id, num(9));
    assert_eq!(v.newtype_variant().unwrap(), num(10));
    let (id, v) = EnumDeserializer::new(Value::Nil, None).variant_seed();
    assert_eq!(id, Value::Nil);
    assert!(v.unit_variant().is_ok());
}

#[test]
fn unit_variant_cases() {
    assert!(variant(None).unit_variant().is_ok());
    assert!(variant(Some(Value::Array(vec![]))).unit_variant().is_ok());
    assert!(matches!(
        variant(Some(Value::Array(vec![num(1)]))).unit_variant(),
        Err(DeError::InvalidValue(Found::Sequence, Expected::EmptyArray))
    ));
    assert!(matches!(
        variant(Some(num(1))).unit_variant(),
        Err(DeError::InvalidValue(Found::Value(_), Expected::EmptyArray))
    ));
}

#[test]
fn newtype_variant_cases() {
    assert!(matches!(
        variant(None).newtype_variant(),
        Err(DeError::InvalidType(Found::UnitVariant, Expected::NewtypeVariant))
    ));
    assert!(matches!(
        variant(Some(Value::Array(vec![]))).newtype_variant(),
        Err(DeError::InvalidValue(Found::Sequence, Expected::ArrayWithOneElement))
    ));
    assert_eq!(variant(Some(Value::Array(vec![num(5)]))).newtype_variant().unwrap(), num(5));
    assert_eq!(
        variant(Some(Value::Array(vec![num(5), num(6)]))).newtype_variant().unwrap(),
        Value::Array(vec![num(5), num(6)])
    );
    assert_eq!(variant(Some(num(5))).newtype_variant().unwrap(), num(5));
}

#[test]
fn tuple_variant_cases() {
    assert!(matches!(
        variant(None).tuple_variant(),
        Err(DeError::InvalidType(Found::UnitVariant, Expected::TupleVariant))
    ));
    assert_eq!(
        variant(Some(Value::Array(vec![num(1)]))).tuple_variant().unwrap(),
        Value::Array(vec![num(1)])
    );
    assert!(matches!(
        variant(Some(Value::Mapping(vec![]))).tuple_variant(),
        Err(DeError::InvalidType(Found::Value(Value::Mapping(_)), Expected::TupleVariant))
    ));
}

#[test]
fn struct_variant_cases() {
    assert!(matches!(
        variant(None).struct_variant(),
        Err(DeError::InvalidType(Found::UnitVariant, Expected::StructVariant))
    ));
    assert_eq!(variant(Some(Value::Array(vec![]))).struct_variant().unwrap(), Value::Array(vec![]));
    assert_eq!(
        variant(Some(Value::Mapping(vec![]))).struct_variant().unwrap(),
        Value::Mapping(vec![])
    );
    let s = Value::String(Utf8String { s: Ok(String::from("x")) });
    assert!(matches!(
        variant(Some(s)).struct_variant(),
        Err(DeError::InvalidType(Found::Value(Value::String(_)), Expected::StructVariant))
    ));
}
