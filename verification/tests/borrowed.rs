use rmpv::deserializer_ref::{elements_by_reference, pairs_by_reference, to_reference, NewtypeVisitRef, VisitRef};
use rmpv::error::{DeError, Expected, Found, Unexpected};
use rmpv::ext::ExtElement;
use rmpv::value::Integer;
use rmpv::value_ref::{Utf8StringRef, ValueRef};

fn num<'a>(v: i64) -> ValueRef<'a> {
    ValueRef::Integer(Integer::from_i64(v))
}

fn text(s: &str) -> ValueRef<'_> {
    ValueRef::String(Utf8StringRef { s: Ok(s) })
}

#[test]
fn owned_ref_any_events() {
    assert!(matches!(ValueRef::Nil.deserialize_any(), VisitRef::Unit));
    assert!(matches!(text("a").deserialize_any(), VisitRef::BorrowedStr("a")));
    let raw = [0xffu8];
    assert!(matches!(
        ValueRef::String(Utf8StringRef { s: Err(&raw) }).deserialize_any(),
        VisitRef::BorrowedBytes(b) if b == &raw[..]
    ));
    match ValueRef::Array(vec![num(1), num(2)]).deserialize_any() {
        VisitRef::Sequence(2, mut de) => {
            assert_eq!(de.next_element(), Some(num(1)));
            assert_eq!(de.next_element(), Some(num(2)));
            assert_eq!(de.next_element(), None);
        }
        _ => panic!("expected a sequence"),
    }
    match ValueRef::Ext(3, &raw).deserialize_any() {
        VisitRef::NewtypeStruct(mut de) => {
            assert_eq!(de.next_element(), Some(ExtElement::Tag(3)));
            assert_eq!(de.next_element(), Some(ExtElement::Borrowed(&raw[..])));
        }
        _ => panic!("expected an extension"),
    }
}

#[test]
fn borrowed_any_hands_out_references() {
    let v = ValueRef::Mapping(vec![(text("k"), num(1)), (text("j"), num(2))]);
    match v.deserialize_any_borrowed() {
        VisitRef::Mapping(2, mut de) => {
            assert_eq!(de.next_key(), Some(&text("k")));
            assert_eq!(de.next_value().unwrap(), &num(1));
            assert_eq!(de.next_key(), Some(&text("j")));
            assert_eq!(de.next_value().unwrap(), &num(2));
            assert_eq!(de.next_key(), None);
            assert!(de.finish(2).is_ok());
        }
        _ => panic!("expected a map"),
    }
}

#[test]
fn references_to_elements_and_pairs() {
    let items = vec![num(1), text("x")];
    let r = elements_by_reference(&items);
    assert_eq!(r, vec![&items[0], &items[1]]);
    let pairs = vec![(num(1), num(2)), (num(3), num(4))];
    let r = pairs_by_reference(&pairs);
    assert_eq!(r, vec![(&pairs[0].0, &pairs[0].1), (&pairs[1].0, &pairs[1].1)]);
    let (k, v) = to_reference(&pairs[1]);
    assert_eq!((k, v), (&num(3), &num(4)));
}

#[test]
fn borrowed_option_and_unit_struct() {
    let nil = ValueRef::Nil;
    assert_eq!(nil.deserialize_option_borrowed(), None);
    let one = num(1);
    assert_eq!(one.deserialize_option_borrowed(), Some(&one));
    assert_eq!(num(2).deserialize_option(), Some(num(2)));
    let empty = ValueRef::Array(vec![]);
    assert!(empty.deserialize_unit_struct_borrowed().is_ok());
    let full = ValueRef::Array(vec![num(1)]);
    assert!(matches!(
        full.deserialize_unit_struct_borrowed(),
        Err(DeError::InvalidType(Found::Sequence, Expected::EmptyArray))
    ));
    assert!(matches!(
        text("u").deserialize_unit_struct(),
        Err(DeError::InvalidType(Found::Value(_), Expected::EmptyArray))
    ));
}

#[test]
fn borrowed_enum_access() {
    let v = ValueRef::Array(vec![num(1), ValueRef::Array(vec![num(7)])]);
    let (id, variant) = v.deserialize_enum_borrowed().unwrap().variant_seed();
    assert_eq!(id, &num(1));
    assert_eq!(variant.newtype_variant().unwrap(), &num(7));
    let m = ValueRef::Mapping(vec![(text("S"), ValueRef::Mapping(vec![]))]);
    let (id, variant) = m.deserialize_enum_borrowed().unwrap().variant_seed();
    assert_eq!(id, &text("S"));
    assert_eq!(variant.struct_variant().unwrap(), &ValueRef::Mapping(vec![]));
    let bad = ValueRef::Boolean(true);
    match bad.deserialize_enum_borrowed() {
        Err(DeError::InvalidType(found, Expected::ArrayMapIntOrString)) => {
            assert_eq!(found.unexpected(), Unexpected::Bool(true))
        }
        _ => panic!("expected a refusal"),
    }
    let (id, variant) = ValueRef::Array(vec![num(4)]).deserialize_enum().unwrap().variant_seed();
    assert_eq!(id, num(4));
    assert!(variant.unit_variant().is_ok());
    assert!(matches!(
        ValueRef::Array(vec![]).deserialize_enum(),
        Err(DeError::InvalidLength(0, Expected::ArrayWithOneOrTwoElements))
    ));
}

#[test]
fn borrowed_variant_refusals() {
    let v = ValueRef::Array(vec![num(1)]);
    let (_, variant) = v.deserialize_enum_borrowed().unwrap().variant_seed();
    assert!(matches!(
        variant.tuple_variant(),
        Err(DeError::InvalidType(Found::UnitVariant, Expected::TupleVariant))
    ));
    let w = ValueRef::Array(vec![num(1), num(2)]);
    let (_, variant) = w.deserialize_enum_borrowed().unwrap().variant_seed();
    assert!(matches!(
        variant.unit_variant(),
        Err(DeError::InvalidValue(Found::Value(_), Expected::EmptyArray))
    ));
}

#[test]
fn borrowed_newtype_struct() {
    let data = [5u8];
    let e = ValueRef::Ext(1, &data);
    match e.deserialize_newtype_struct_borrowed("_ExtStruct") {
        Ok(NewtypeVisitRef::Ext(mut de)) => assert_eq!(de.next_element(), Some(ExtElement::Tag(1))),
        _ => panic!("expected an extension"),
    }
    let n = num(1);
    assert!(matches!(
        n.deserialize_newtype_struct_borrowed("_ExtStruct"),
        Err(DeError::InvalidType(Found::Value(_), Expected::ExtStruct))
    ));
    assert!(matches!(
        num(2).deserialize_newtype_struct("Wrapper"),
        Ok(NewtypeVisitRef::Content(ValueRef::Integer(_)))
    ));
}

#[test]
fn borrowed_unexpected_reports() {
    assert_eq!(text("q").unexpected(), Unexpected::Str("q"));
    assert_eq!(ValueRef::Binary(&[1]).unexpected(), Unexpected::Bytes(&[1]));
    assert_eq!(ValueRef::Mapping(vec![]).unexpected(), Unexpected::Mapping);
    assert_eq!(Found::<ValueRef>::UnitVariant.unexpected(), Unexpected::UnitVariant);
}
