use vstd::prelude::*;
use crate::deserializer::{any_event_spec, SpecEvent};
use crate::value::{IntPriv, Integer, SpecValue};
use crate::visitor::visit_spec;
use crate::seq::seq_next_spec;
use crate::map::{map_next_key_spec, map_next_value_spec};
use crate::ext::{ext_next_spec, ExtData, ExtElement};
use crate::error::DeError;

verus! {

/// A value in the form the value visitor builds: a `NegInt` holds a negative number
/// and every string is valid UTF-8, throughout arrays and maps.
pub open spec fn canonical(v: SpecValue) -> bool
    decreases v, 0int,
{
    match v {
        SpecValue::Integer(IntPriv::NegInt(n)) => n < 0,
        SpecValue::String(s) => s is Ok,
        SpecValue::Array(items) => all_canonical(items, items.len() as int),
        SpecValue::Mapping(pairs) => all_pairs_canonical(pairs, pairs.len() as int),
        _ => true,
    }
}

/// The first `n` values of `items` are canonical.
pub open spec fn all_canonical(items: Seq<SpecValue>, n: int) -> bool
    decreases items, n,
{
    if n <= 0 || n > items.len() {
        true
    } else {
        all_canonical(items, n - 1) && canonical(items[n - 1])
    }
}

/// The keys and values of the first `n` entries of `pairs` are canonical.
pub open spec fn all_pairs_canonical(pairs: Seq<(SpecValue, SpecValue)>, n: int) -> bool
    decreases pairs, n,
{
    if n <= 0 || n > pairs.len() {
        true
    } else {
        all_pairs_canonical(pairs, n - 1) && canonical(pairs[n - 1].0) && canonical(
            pairs[n - 1].1,
        )
    }
}

/// `all_canonical` says that each of the first `n` values is canonical.
pub proof fn lemma_all_canonical(items: Seq<SpecValue>, n: int)
    requires
        0 <= n <= items.len(),
    ensures
        all_canonical(items, n) <==> forall|i: int| 0 <= i < n ==> #[trigger] canonical(items[i]),
    decreases n,
{
    if n > 0 {
        lemma_all_canonical(items, n - 1);
        assert(all_canonical(items, n) == (all_canonical(items, n - 1) && canonical(items[n - 1])));
    }
}

/// `all_pairs_canonical` says that each of the first `n` entries is canonical.
pub proof fn lemma_all_pairs_canonical(pairs: Seq<(SpecValue, SpecValue)>, n: int)
    requires
        0 <= n <= pairs.len(),
    ensures
        all_pairs_canonical(pairs, n) <==> forall|i: int|
            0 <= i < n ==> #[trigger] canonical(pairs[i].0) && canonical(pairs[i].1),
    decreases n,
{
    if n > 0 {
        lemma_all_pairs_canonical(pairs, n - 1);
        assert(all_pairs_canonical(pairs, n) == (all_pairs_canonical(pairs, n - 1) && canonical(
            pairs[n - 1].0,
        ) && canonical(pairs[n - 1].1)));
    }
}

/// The value that the value visitor builds when a value of model `v` is read as whatever
/// it holds: `v` is turned into its event (`any_event_spec`), the elements of an array or
/// map are read the same way one by one, and the visitor builds its value from the event
/// (`visit_spec`).
pub open spec fn deserialized(v: SpecValue) -> SpecValue
    decreases v,
{
    match v {
        SpecValue::Array(items) => visit_spec(
            SpecEvent::Sequence(
                Seq::new(
                    items.len(),
                    |i: int|
                        if 0 <= i < items.len() {
                            deserialized(items[i])
                        } else {
                            SpecValue::Nil
                        },
                ),
            ),
        ),
        SpecValue::Mapping(pairs) => visit_spec(
            SpecEvent::Mapping(
                Seq::new(
                    pairs.len(),
                    |i: int|
                        if 0 <= i < pairs.len() {
                            (deserialized(pairs[i].0), deserialized(pairs[i].1))
                        } else {
                            (SpecValue::Nil, SpecValue::Nil)
                        },
                ),
            ),
        ),
        _ => visit_spec(any_event_spec(v)),
    }
}

/// An array or a map is read as the event that hands out exactly its own elements, in order.
pub proof fn lemma_containers_hand_out_their_elements(v: SpecValue)
    ensures
        v matches SpecValue::Array(items) ==> any_event_spec(v) == SpecEvent::Sequence(items),
        v matches SpecValue::Mapping(pairs) ==> any_event_spec(v) == SpecEvent::Mapping(pairs),
{
}

/// Reading a canonical value with the value visitor gives back the same value.
pub proof fn lemma_canonical_value_roundtrip(v: SpecValue)
    requires
        canonical(v),
    ensures
        deserialized(v) == v,
    decreases v,
{
    match v {
        SpecValue::Array(items) => {
            lemma_all_canonical(items, items.len() as int);
            assert forall|i: int| 0 <= i < items.len() implies deserialized(items[i]) == items[i] by {
                assert(canonical(items[i]));
                lemma_canonical_value_roundtrip(items[i]);
            }
            let built = match deserialized(v) {
                SpecValue::Array(s) => s,
                _ => Seq::empty(),
            };
            assert(built =~= items);
        },
        SpecValue::Mapping(pairs) => {
            lemma_all_pairs_canonical(pairs, pairs.len() as int);
            assert forall|i: int| 0 <= i < pairs.len() implies deserialized(pairs[i].0) == pairs[i].0
                && deserialized(pairs[i].1) == pairs[i].1 by {
                assert(canonical(pairs[i].0) && canonical(pairs[i].1));
                lemma_canonical_value_roundtrip(pairs[i].0);
                lemma_canonical_value_roundtrip(pairs[i].1);
            }
            let built = match deserialized(v) {
                SpecValue::Mapping(s) => s,
                _ => Seq::empty(),
            };
            assert(built =~= pairs);
        },
        SpecValue::Integer(IntPriv::NegInt(n)) => {},
        SpecValue::String(s) => {},
        _ => {},
    }
}

/// Whatever value is read, the value visitor builds a canonical one.
pub proof fn lemma_deserialized_is_canonical(v: SpecValue)
    ensures
        canonical(deserialized(v)),
    decreases v,
{
    match v {
        SpecValue::Array(items) => {
            let built = match deserialized(v) {
                SpecValue::Array(s) => s,
                _ => Seq::empty(),
            };
            assert forall|i: int| 0 <= i < built.len() implies #[trigger] canonical(built[i]) by {
                lemma_deserialized_is_canonical(items[i]);
            }
            assert(deserialized(v) == SpecValue::Array(built));
            lemma_all_canonical(built, built.len() as int);
        },
        SpecValue::Mapping(pairs) => {
            let built = match deserialized(v) {
                SpecValue::Mapping(s) => s,
                _ => Seq::empty(),
            };
            assert forall|i: int| 0 <= i < built.len() implies #[trigger] canonical(built[i].0)
                && canonical(built[i].1) by {
                lemma_deserialized_is_canonical(pairs[i].0);
                lemma_deserialized_is_canonical(pairs[i].1);
            }
            assert(deserialized(v) == SpecValue::Mapping(built));
            lemma_all_pairs_canonical(built, built.len() as int);
        },
        _ => {},
    }
}

/// Reading a value twice gives what reading it once gave.
pub proof fn lemma_deserialize_idempotent(v: SpecValue)
    ensures
        deserialized(deserialized(v)) == deserialized(v),
{
    lemma_deserialized_is_canonical(v);
    lemma_canonical_value_roundtrip(deserialized(v));
}

} // verus!

verus! {

/// What `k` steps of a sequence deserializer whose elements left are `rem` hand out,
/// and the elements left after them.
pub open spec fn seq_drain<U>(rem: Seq<U>, k: nat) -> (Seq<U>, Seq<U>)
    decreases k,
{
    if k == 0 {
        (Seq::empty(), rem)
    } else {
        let (handed, left) = seq_drain(rem, (k - 1) as nat);
        match seq_next_spec(left).0 {
            Some(x) => (handed.push(x), seq_next_spec(left).1),
            None => (handed, left),
        }
    }
}

/// A sequence deserializer hands out its elements first to last, and nothing once
/// they are all out.
pub proof fn lemma_seq_hands_out_in_order<U>(items: Seq<U>, k: nat)
    requires
        k <= items.len(),
    ensures
        seq_drain(items, k) == (items.take(k as int), items.skip(k as int)),
        k == items.len() ==> seq_next_spec(seq_drain(items, k).1).0 is None,
    decreases k,
{
    if k > 0 {
        lemma_seq_hands_out_in_order(items, (k - 1) as nat);
        assert(items.skip(k - 1).drop_first() =~= items.skip(k as int));
        assert(items.take(k - 1).push(items[k - 1]) =~= items.take(k as int));
    } else {
        assert(items.skip(0) =~= items);
        assert(items.take(0) =~= Seq::<U>::empty());
    }
}

/// What `k` rounds of a key step then a value step of a map deserializer hand out,
/// as (key, value) pairs, and the entries left and the value waiting after them.
pub open spec fn map_drain<U>(rem: Seq<(U, U)>, pending: Option<U>, k: nat) -> (
    Seq<(U, U)>,
    Seq<(U, U)>,
    Option<U>,
)
    decreases k,
{
    if k == 0 {
        (Seq::empty(), rem, pending)
    } else {
        let (handed, left, waiting) = map_drain(rem, pending, (k - 1) as nat);
        let (key, left2, waiting2) = map_next_key_spec(left, waiting);
        match (key, map_next_value_spec(waiting2)) {
            (Some(kk), Ok(vv)) => (handed.push((kk, vv)), left2, None),
            _ => (handed, left2, waiting2),
        }
    }
}

/// A map deserializer that alternates key and value steps hands out every key together
/// with its own value, first entry to last.
pub proof fn lemma_map_hands_out_entries_in_order<U>(pairs: Seq<(U, U)>, k: nat)
    requires
        k <= pairs.len(),
    ensures
        map_drain(pairs, None, k) == (pairs.take(k as int), pairs.skip(k as int), None::<U>),
    decreases k,
{
    if k > 0 {
        lemma_map_hands_out_entries_in_order(pairs, (k - 1) as nat);
        assert(pairs.skip(k - 1).drop_first() =~= pairs.skip(k as int));
        assert(pairs.take(k - 1).push((pairs[k - 1].0, pairs[k - 1].1)) =~= pairs.take(k as int));
    } else {
        assert(pairs.skip(0) =~= pairs);
        assert(pairs.take(0) =~= Seq::<(U, U)>::empty());
    }
}

/// A value step that does not follow a key step is refused.
pub proof fn lemma_map_value_needs_key<U>()
    ensures
        map_next_value_spec::<U>(None) == Err::<U, DeError<U>>(DeError::MissingValue),
{
}

/// An extension deserializer hands out its tag, then its bytes, then nothing.
pub proof fn lemma_ext_hands_out_tag_then_bytes<'de>(tag: i8, data: ExtData<'de>)
    ensures
        ext_next_spec(Some(tag), Some(data)) == (
            Some(ExtElement::<'de>::Tag(tag)),
            None::<i8>,
            Some(data),
        ),
        ext_next_spec(None, Some(data)).0 == Some(
            match data {
                ExtData::Owned(v) => ExtElement::<'de>::Owned(v),
                ExtData::Borrowed(b) => ExtElement::<'de>::Borrowed(b),
            },
        ),
        ext_next_spec(None, Some(data)).1 is None,
        ext_next_spec(None, Some(data)).2 is None,
        ext_next_spec(None, None::<ExtData<'de>>).0 is None,
{
}

} // verus!

verus! {

/// From a signed integer the value visitor builds a canonical integer whose value is that
/// very number, whatever its sign and size.
pub proof fn lemma_visited_signed_integer_keeps_its_value(n: i64)
    ensures
        visit_spec(SpecEvent::I64(n)) matches SpecValue::Integer(p) && (Integer { n: p }).as_int()
            == n && (Integer { n: p }).wf(),
{
}

/// From an unsigned integer the value visitor builds an integer whose value is that very
/// number.
pub proof fn lemma_visited_unsigned_integer_keeps_its_value(u: u64)
    ensures
        visit_spec(SpecEvent::U64(u)) matches SpecValue::Integer(p) && (Integer { n: p }).as_int()
            == u && (Integer { n: p }).wf(),
{
}

/// A non-negative number builds the same value whether it is handed to the value visitor
/// as a signed or as an unsigned integer.
pub proof fn lemma_non_negative_signed_is_unsigned(n: i64)
    requires
        n >= 0,
    ensures
        visit_spec(SpecEvent::I64(n)) == visit_spec(SpecEvent::U64(n as u64)),
{
}

/// From an extension's tag and bytes the value visitor builds the extension value with that
/// tag and exactly those bytes, in order.
pub proof fn lemma_visited_ext_keeps_tag_and_bytes(tag: i8, data: Seq<u8>)
    ensures
        visit_spec(SpecEvent::Ext(tag, data)) matches SpecValue::Ext(t, d) && t == tag && d.len()
            == data.len() && forall|i: int| 0 <= i < d.len() ==> d[i] == data[i],
{
}

} // verus!
