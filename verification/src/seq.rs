use vstd::prelude::*;
use crate::error::{DeError, Expected};

verus! {

/// The elements of `items` in the opposite order.
pub(crate) fn reversed<T>(items: Vec<T>) -> (r: Vec<T>)
    ensures
        r@.len() == items@.len(),
        forall|j: int| 0 <= j < r@.len() ==> #[trigger] r@[j] == items@[items@.len() - 1 - j],
{
    let mut items = items;
    let ghost orig = items@;
    let mut rev: Vec<T> = Vec::new();
    while items.len() > 0
        invariant
            items@.len() + rev@.len() == orig.len(),
            forall|i: int| 0 <= i < items@.len() ==> #[trigger] items@[i] == orig[i],
            forall|j: int| 0 <= j < rev@.len() ==> #[trigger] rev@[j] == orig[orig.len() - 1 - j],
        decreases items@.len(),
    {
        let x = items.pop().unwrap();
        rev.push(x);
    }
    rev
}

/// One step of a sequence deserializer whose elements left are `rem`: the element it
/// hands out, and the elements left after it.
pub open spec fn seq_next_spec<U>(rem: Seq<U>) -> (Option<U>, Seq<U>) {
    if rem.len() == 0 {
        (None, rem)
    } else {
        (Some(rem[0]), rem.drop_first())
    }
}

/// Hands out the elements of an array one at a time, first to last.
pub struct SeqDeserializer<U> {
    /// The elements not handed out yet, the next one last.
    rev: Vec<U>,
}

impl<U> SeqDeserializer<U> {
    /// The elements not handed out yet, in order.
    pub closed spec fn remaining(self) -> Seq<U> {
        Seq::new(self.rev@.len(), |i: int| self.rev@[self.rev@.len() - 1 - i])
    }

    /// A deserializer that hands out `items` in order.
    pub fn new(items: Vec<U>) -> (r: Self)
        ensures
            r.remaining() == items@,
    {
        let ghost orig = items@;
        let r = SeqDeserializer { rev: reversed(items) };
        assert(r.remaining() =~= orig);
        r
    }

    /// The number of elements not handed out yet.
    pub fn len(&self) -> (r: usize)
        ensures
            r == self.remaining().len(),
    {
        self.rev.len()
    }

    /// The next element, or `None` when all have been handed out.
    pub fn next_element(&mut self) -> (r: Option<U>)
        ensures
            (r, final(self).remaining()) == seq_next_spec(old(self).remaining()),
    {
        let r = self.rev.pop();
        proof {
            if old(self).remaining().len() > 0 {
                assert(self.remaining() =~= old(self).remaining().drop_first());
            } else {
                assert(self.remaining() =~= old(self).remaining());
            }
        }
        r
    }

    /// What is decided once the visitor is done with an array of `len` elements:
    /// every element must have been taken.
    pub fn finish(&self, len: usize) -> (r: Result<(), DeError<U>>)
        ensures
            self.remaining().len() == 0 <==> r is Ok,
            r is Err ==> r == Err::<(), DeError<U>>(
                DeError::InvalidLength(len, Expected::FewerElementsInArray),
            ),
    {
        if self.rev.len() == 0 {
            Ok(())
        } else {
            Err(DeError::InvalidLength(len, Expected::FewerElementsInArray))
        }
    }
}

} // verus!
