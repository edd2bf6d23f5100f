use vstd::prelude::*;
use serde_bytes::ByteBuf;
use crate::error::{DeError, Expected};
use crate::value::Value;
use crate::value_ref::ValueRef;
use crate::deserializer::SpecEvent;
use crate::visitor::visit_spec;

verus! {

/// `serde_bytes::ByteBuf`, a growable buffer of bytes; opaque here.
#[verifier::external_type_specification]
#[verifier::external_body]
pub struct ExByteBuf(serde_bytes::ByteBuf);

/// The bytes that a `ByteBuf` holds.
pub uninterp spec fn byte_buf_contents(b: ByteBuf) -> Seq<u8>;

/// The vector of bytes that a `ByteBuf` wraps: `ByteBuf` dereferences to it, and the body
/// does nothing but that dereference. The contract claims that this vector holds the
/// buffer's bytes, in order; the copy that an extension value takes of them is made,
/// and proved, by the caller.
#[verifier::external_body]
fn byte_buf_to_vec(b: &ByteBuf) -> (r: &Vec<u8>)
    ensures
        r@ == byte_buf_contents(*b),
{
    &**b
}

/// The bytes of an extension value: owned, or borrowed from the input.
#[derive(Debug, PartialEq)]
pub enum ExtData<'de> {
    Owned(Vec<u8>),
    Borrowed(&'de [u8]),
}

/// An element that the extension deserializer hands out.
#[derive(Debug, PartialEq)]
pub enum ExtElement<'de> {
    /// The extension's type tag, handed out first.
    Tag(i8),
    /// The extension's bytes, handed out second, when they are owned.
    Owned(Vec<u8>),
    /// The extension's bytes, handed out second, when they are borrowed.
    Borrowed(&'de [u8]),
}

/// One step of an extension deserializer whose tag left is `tag` and whose bytes left
/// are `data`: the element it hands out, and the tag and bytes left after it.
pub open spec fn ext_next_spec<'de>(tag: Option<i8>, data: Option<ExtData<'de>>) -> (
    Option<ExtElement<'de>>,
    Option<i8>,
    Option<ExtData<'de>>,
) {
    match tag {
        Some(t) => (Some(ExtElement::Tag(t)), None, data),
        None => match data {
            Some(ExtData::Owned(v)) => (Some(ExtElement::Owned(v)), None, None),
            Some(ExtData::Borrowed(b)) => (Some(ExtElement::Borrowed(b)), None, None),
            None => (None, None, None),
        },
    }
}

/// Presents an extension value as a sequence of two elements: its tag, then its bytes.
pub struct ExtDeserializer<'de> {
    tag: Option<i8>,
    data: Option<ExtData<'de>>,
}

impl<'de> ExtDeserializer<'de> {
    /// The tag, while it has not been handed out.
    pub closed spec fn tag_left(self) -> Option<i8> {
        self.tag
    }

    /// The bytes, while they have not been handed out.
    pub closed spec fn data_left(self) -> Option<ExtData<'de>> {
        self.data
    }

    /// A deserializer over an extension value with owned bytes.
    pub fn new_owned(tag: i8, data: Vec<u8>) -> (r: Self)
        ensures
            r.tag_left() == Some(tag),
            r.data_left() == Some(ExtData::Owned(data)),
    {
        ExtDeserializer { tag: Some(tag), data: Some(ExtData::Owned(data)) }
    }

    /// A deserializer over an extension value with borrowed bytes.
    pub fn new_ref(tag: i8, data: &'de [u8]) -> (r: Self)
        ensures
            r.tag_left() == Some(tag),
            r.data_left() == Some(ExtData::Borrowed(data)),
    {
        ExtDeserializer { tag: Some(tag), data: Some(ExtData::Borrowed(data)) }
    }

    /// Whether an element is left to hand out.
    pub fn has_element(&self) -> (r: bool)
        ensures
            r == (self.tag_left() is Some || self.data_left() is Some),
    {
        self.tag.is_some() || self.data.is_some()
    }

    /// The next element: the tag while it is left, else the bytes while they are left,
    /// else `None` with nothing changed.
    pub fn next_element(&mut self) -> (r: Option<ExtElement<'de>>)
        ensures
            (r, final(self).tag_left(), final(self).data_left()) == ext_next_spec(
                old(self).tag_left(),
                old(self).data_left(),
            ),
    {
        if self.tag.is_some() {
            let tag = self.tag.take().unwrap();
            Some(ExtElement::Tag(tag))
        } else if self.data.is_some() {
            let data = self.data.take().unwrap();
            match data {
                ExtData::Owned(v) => Some(ExtElement::Owned(v)),
                ExtData::Borrowed(b) => Some(ExtElement::Borrowed(b)),
            }
        } else {
            None
        }
    }
}

/// Rebuilds an extension value of type `V` from the two elements of its sequence.
pub struct ExtValueVisitor<V>(pub core::marker::PhantomData<V>);

impl<V> ExtValueVisitor<V> {
    /// A visitor that builds values of type `V`.
    pub fn new() -> (r: Self) {
        ExtValueVisitor(core::marker::PhantomData)
    }

    /// The first element of the sequence must be there: it is the tag.
    pub fn expect_tag(&self, tag: Option<i8>) -> (r: Result<i8, DeError<V>>)
        ensures
            match tag {
                Some(t) => r == Ok::<i8, DeError<V>>(t),
                None => r == Err::<i8, DeError<V>>(DeError::InvalidLength(0, Expected::ValidExt)),
            },
    {
        match tag {
            Some(t) => Ok(t),
            None => Err(DeError::InvalidLength(0, Expected::ValidExt)),
        }
    }
}

impl ExtValueVisitor<Value> {
    /// The second element of the sequence must be there: it is the bytes, which
    /// together with the tag make the extension value.
    pub fn expect_bytes(&self, tag: i8, bytes: Option<ByteBuf>) -> (r: Result<Value, DeError<Value>>)
        ensures
            match bytes {
                Some(b) => r matches Ok(v) && v.model() == visit_spec(
                    SpecEvent::Ext(tag, byte_buf_contents(b)),
                ),
                None => r matches Err(e) && e == DeError::<Value>::InvalidLength(
                    1,
                    Expected::ValidExt,
                ),
            },
    {
        match bytes {
            Some(b) => Ok(self.to_ext_from_bytes(tag, b)),
            None => Err(DeError::InvalidLength(1, Expected::ValidExt)),
        }
    }

    /// The extension value with this tag and the bytes of this buffer.
    pub fn to_ext_from_bytes(&self, tag: i8, bytes: ByteBuf) -> (r: Value)
        ensures
            r matches Value::Ext(t, data) && t == tag && data@ == byte_buf_contents(bytes),
            r.model() == visit_spec(SpecEvent::Ext(tag, byte_buf_contents(bytes))),
    {
        let wrapped = byte_buf_to_vec(&bytes);
        let data = vstd::slice::slice_to_vec(wrapped.as_slice());
        Value::Ext(tag, data)
    }
}

impl<'de> ExtValueVisitor<ValueRef<'de>> {
    /// The second element of the sequence must be there: it is the borrowed bytes,
    /// which together with the tag make the extension value.
    pub fn expect_bytes(&self, tag: i8, bytes: Option<&'de [u8]>) -> (r: Result<
        ValueRef<'de>,
        DeError<ValueRef<'de>>,
    >)
        ensures
            match bytes {
                Some(b) => r matches Ok(v) && v == ValueRef::Ext(tag, b) && v.model() == visit_spec(
                    SpecEvent::Ext(tag, b@),
                ),
                None => r matches Err(e) && e == DeError::<ValueRef<'de>>::InvalidLength(
                    1,
                    Expected::ValidExt,
                ),
            },
    {
        match bytes {
            Some(b) => Ok(self.to_ext_from_bytes(tag, b)),
            None => Err(DeError::InvalidLength(1, Expected::ValidExt)),
        }
    }

    /// The extension value with this tag and these borrowed bytes.
    pub fn to_ext_from_bytes(&self, tag: i8, bytes: &'de [u8]) -> (r: ValueRef<'de>)
        ensures
            r == ValueRef::Ext(tag, bytes),
            r.model() == visit_spec(SpecEvent::Ext(tag, bytes@)),
    {
        ValueRef::Ext(tag, bytes)
    }
}

} // verus!
