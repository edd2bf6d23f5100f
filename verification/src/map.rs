use vstd::prelude::*;
use crate::error::{DeError, Expected};
use crate::seq::reversed;

verus! {

/// The key step of a map deserializer whose entries left are `rem` and whose value
/// waiting to be taken is `pending`: the key it hands out, the entries left after it,
/// and the value that then waits.
pub open spec fn map_next_key_spec<U>(rem: Seq<(U, U)>, pending: Option<U>) -> (
    Option<U>,
    Seq<(U, U)>,
    Option<U>,
) {
    if rem.len() == 0 {
        (None, rem, pending)
    } else {
        (Some(rem[0].0), rem.drop_first(), Some(rem[0].1))
    }
}

/// The value step of a map deserializer whose value waiting to be taken is `pending`.
pub open spec fn map_next_value_spec<U>(pending: Option<U>) -> Result<U, DeError<U>> {
    match pending {
        Some(v) => Ok(v),
        None => Err(DeError::MissingValue),
    }
}

/// Hands out the entries of a map one at a time, first to last: a key, then its value.
pub struct MapDeserializer<U> {
    /// The value of the key handed out last, until it is taken.
    val: Option<U>,
    /// The entries not handed out yet, the next one last.
    rev: Vec<(U, U)>,
}

impl<U> MapDeserializer<U> {
    /// The entries not handed out yet, in order.
    pub closed spec fn remaining(self) -> Seq<(U, U)> {
        Seq::new(self.rev@.len(), |i: int| self.rev@[self.rev@.len() - 1 - i])
    }

    /// The value that waits to be taken after its key was handed out.
    pub closed spec fn pending(self) -> Option<U> {
        self.val
    }

    /// A deserializer that hands out the entries of `pairs` in order.
    pub fn new(pairs: Vec<(U, U)>) -> (r: Self)
        ensures
            r.remaining() == pairs@,
            r.pending() is None,
    {
        let ghost orig = pairs@;
        let r = MapDeserializer { val: None, rev: reversed(pairs) };
        assert(r.remaining() =~= orig);
        r
    }

    /// The number of entries not handed out yet.
    pub fn len(&self) -> (r: usize)
        ensures
            r == self.remaining().len(),
    {
        self.rev.len()
    }

    /// The key of the next entry, whose value is kept for `next_value`;
    /// `None`, and nothing changed, when all entries have been handed out.
    pub fn next_key(&mut self) -> (r: Option<U>)
        ensures
            (r, final(self).remaining(), final(self).pending()) == map_next_key_spec(
                old(self).remaining(),
                old(self).pending(),
            ),
    {
        match self.rev.pop() {
            Some(pair) => {
                let (key, val) = pair;
                self.val = Some(val);
                proof {
                    assert(self.remaining() =~= old(self).remaining().drop_first());
                }
                Some(key)
            },
            None => {
                proof {
                    assert(self.remaining() =~= old(self).remaining());
                }
                None
            },
        }
    }

    /// The value of the key handed out last; an error when there is none waiting.
    pub fn next_value(&mut self) -> (r: Result<U, DeError<U>>)
        ensures
            final(self).remaining() == old(self).remaining(),
            final(self).pending() is None,
            r == map_next_value_spec(old(self).pending()),
    {
        match self.val.take() {
            Some(v) => Ok(v),
            None => Err(DeError::MissingValue),
        }
    }

    /// What is decided once the visitor is done with a map of `len` entries:
    /// every entry must have been taken.
    pub fn finish(&self, len: usize) -> (r: Result<(), DeError<U>>)
        ensures
            self.remaining().len() == 0 <==> r is Ok,
            r is Err ==> r == Err::<(), DeError<U>>(
                DeError::InvalidLength(len, Expected::FewerElementsInMap),
            ),
    {
        if self.rev.len() == 0 {
            Ok(())
        } else {
            Err(DeError::InvalidLength(len, Expected::FewerElementsInMap))
        }
    }
}

} // verus!
