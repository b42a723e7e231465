//! The de-duplication rule in mathematical form, and what follows from it.

use vstd::prelude::*;

verus! {

/// The store after the items with the keys `keys` have been offered to it in
/// order: an identifier that the store does not hold yet is recorded with its
/// time, one that it holds is left as it is.
pub open spec fn store_after(seen: Map<Seq<char>, i64>, keys: Seq<(Seq<char>, i64)>) -> Map<
    Seq<char>,
    i64,
>
    decreases keys.len(),
{
    if keys.len() == 0 {
        seen
    } else {
        let before = store_after(seen, keys.drop_last());
        if before.contains_key(keys.last().0) {
            before
        } else {
            before.insert(keys.last().0, keys.last().1)
        }
    }
}

/// The items of `items` that are new to a store holding `seen`: those whose
/// identifier is neither in `seen` nor carried by an earlier item, in order.
pub open spec fn new_items<T>(
    seen: Map<Seq<char>, i64>,
    items: Seq<T>,
    key: spec_fn(T) -> (Seq<char>, i64),
) -> Seq<T>
    decreases items.len(),
{
    if items.len() == 0 {
        Seq::<T>::empty()
    } else {
        let earlier = new_items(seen, items.drop_last(), key);
        if store_after(seen, items.drop_last().map_values(key)).contains_key(key(items.last()).0) {
            earlier
        } else {
            earlier.push(items.last())
        }
    }
}

/// Whether the item at place `i` is the first of its identifier and that
/// identifier is not in `seen`.
pub open spec fn is_first_unseen(
    seen: Map<Seq<char>, i64>,
    keys: Seq<(Seq<char>, i64)>,
    i: int,
) -> bool {
    &&& !seen.contains_key(keys[i].0)
    &&& forall|j: int| 0 <= j < i ==> (#[trigger] keys[j]).0 != keys[i].0
}

/// After a cycle the store holds an identifier exactly if it held it before or
/// one of the offered items carries it.
pub proof fn lemma_store_after_contains(
    seen: Map<Seq<char>, i64>,
    keys: Seq<(Seq<char>, i64)>,
    id: Seq<char>,
)
    ensures
        store_after(seen, keys).contains_key(id) <==> (seen.contains_key(id) || exists|i: int|
            0 <= i < keys.len() && (#[trigger] keys[i]).0 == id),
    decreases keys.len(),
{
    if keys.len() > 0 {
        let rest = keys.drop_last();
        lemma_store_after_contains(seen, rest, id);
        if exists|i: int| 0 <= i < rest.len() && (#[trigger] rest[i]).0 == id {
            let i = choose|i: int| 0 <= i < rest.len() && (#[trigger] rest[i]).0 == id;
            assert(keys[i].0 == id);
        }
        if exists|i: int| 0 <= i < keys.len() && (#[trigger] keys[i]).0 == id {
            let i = choose|i: int| 0 <= i < keys.len() && (#[trigger] keys[i]).0 == id;
            if i < rest.len() {
                assert(rest[i].0 == id);
            }
        }
    }
}

/// A cycle never removes a record and never changes the time of an identifier
/// that the store held before.
pub proof fn lemma_store_after_keeps(
    seen: Map<Seq<char>, i64>,
    keys: Seq<(Seq<char>, i64)>,
    id: Seq<char>,
)
    requires
        seen.contains_key(id),
    ensures
        store_after(seen, keys).contains_key(id),
        store_after(seen, keys)[id] == seen[id],
    decreases keys.len(),
{
    if keys.len() > 0 {
        lemma_store_after_keeps(seen, keys.drop_last(), id);
    }
}

/// An identifier that a cycle adds is recorded with the time of the first
/// item that carries it.
pub proof fn lemma_store_after_records_first(
    seen: Map<Seq<char>, i64>,
    keys: Seq<(Seq<char>, i64)>,
    i: int,
)
    requires
        0 <= i < keys.len(),
        is_first_unseen(seen, keys, i),
    ensures
        store_after(seen, keys).contains_key(keys[i].0),
        store_after(seen, keys)[keys[i].0] == keys[i].1,
    decreases keys.len(),
{
    let rest = keys.drop_last();
    if i < keys.len() - 1 {
        assert(rest[i] == keys[i]);
        assert forall|j: int| 0 <= j < i implies (#[trigger] rest[j]).0 != rest[i].0 by {
            assert(keys[j].0 != keys[i].0);
        }
        lemma_store_after_records_first(seen, rest, i);
    } else {
        lemma_store_after_contains(seen, rest, keys[i].0);
        if exists|j: int| 0 <= j < rest.len() && (#[trigger] rest[j]).0 == keys[i].0 {
            let j = choose|j: int| 0 <= j < rest.len() && (#[trigger] rest[j]).0 == keys[i].0;
            assert(keys[j].0 == keys[i].0);
        }
    }
}

/// Every item that a cycle emits is one of the fetched items, stands at a
/// place where its identifier occurs first, and was not seen before; the
/// emitted items keep the order of the fetch.
pub proof fn lemma_new_items_sound<T>(
    seen: Map<Seq<char>, i64>,
    items: Seq<T>,
    key: spec_fn(T) -> (Seq<char>, i64),
) -> (places: Seq<int>)
    ensures
        places.len() == new_items(seen, items, key).len(),
        forall|j: int|
            0 <= j < places.len() ==> 0 <= #[trigger] places[j] < items.len() && new_items(
                seen,
                items,
                key,
            )[j] == items[places[j]] && is_first_unseen(seen, items.map_values(key), places[j]),
        forall|j: int, k: int| 0 <= j < k < places.len() ==> places[j] < places[k],
    decreases items.len(),
{
    if items.len() == 0 {
        Seq::<int>::empty()
    } else {
        let rest = items.drop_last();
        let keys = items.map_values(key);
        let last = items.len() - 1;
        let earlier = lemma_new_items_sound(seen, rest, key);
        assert(rest.map_values(key) == keys.drop_last());
        assert forall|j: int| 0 <= j < earlier.len() implies is_first_unseen(
            seen,
            keys,
            #[trigger] earlier[j],
        ) by {
            let p = earlier[j];
            assert(is_first_unseen(seen, rest.map_values(key), p));
            assert(keys[p] == rest.map_values(key)[p]);
            assert forall|q: int| 0 <= q < p implies (#[trigger] keys[q]).0 != keys[p].0 by {
                assert(rest.map_values(key)[q] == keys[q]);
            }
        }
        if store_after(seen, rest.map_values(key)).contains_key(key(items.last()).0) {
            earlier
        } else {
            lemma_store_after_contains(seen, rest.map_values(key), key(items.last()).0);
            assert forall|q: int| 0 <= q < last implies (#[trigger] keys[q]).0 != keys[last].0 by {
                assert(rest.map_values(key)[q] == keys[q]);
            }
            earlier.push(last)
        }
    }
}

/// An item whose identifier was not seen before, and which is the first of the
/// fetch to carry it, is emitted.
pub proof fn lemma_new_items_complete<T>(
    seen: Map<Seq<char>, i64>,
    items: Seq<T>,
    key: spec_fn(T) -> (Seq<char>, i64),
    i: int,
)
    requires
        0 <= i < items.len(),
        is_first_unseen(seen, items.map_values(key), i),
    ensures
        new_items(seen, items, key).contains(items[i]),
    decreases items.len(),
{
    let rest = items.drop_last();
    let keys = items.map_values(key);
    assert(rest.map_values(key) == keys.drop_last());
    let earlier = new_items(seen, rest, key);
    if i < items.len() - 1 {
        assert(keys[i] == rest.map_values(key)[i]);
        assert forall|j: int| 0 <= j < i implies (#[trigger] rest.map_values(key)[j]).0
            != rest.map_values(key)[i].0 by {
            assert(keys[j].0 != keys[i].0);
        }
        lemma_new_items_complete(seen, rest, key, i);
        let w = choose|w: int| 0 <= w < earlier.len() && earlier[w] == rest[i];
        assert(new_items(seen, items, key)[w] == items[i]);
    } else {
        lemma_store_after_contains(seen, rest.map_values(key), keys[i].0);
        if exists|j: int|
            0 <= j < rest.len() && (#[trigger] rest.map_values(key)[j]).0 == keys[i].0 {
            let j = choose|j: int|
                0 <= j < rest.len() && (#[trigger] rest.map_values(key)[j]).0 == keys[i].0;
            assert(keys[j].0 == keys[i].0);
        }
        assert(new_items(seen, items, key)[earlier.len() as int] == items[i]);
    }
}

/// A fetch whose items are all in the store emits nothing and leaves the
/// store as it is.
pub proof fn lemma_seen_items_emit_nothing<T>(
    seen: Map<Seq<char>, i64>,
    items: Seq<T>,
    key: spec_fn(T) -> (Seq<char>, i64),
)
    requires
        forall|i: int| 0 <= i < items.len() ==> seen.contains_key(key(#[trigger] items[i]).0),
    ensures
        new_items(seen, items, key) == Seq::<T>::empty(),
        store_after(seen, items.map_values(key)) == seen,
    decreases items.len(),
{
    if items.len() > 0 {
        let rest = items.drop_last();
        assert forall|i: int| 0 <= i < rest.len() implies seen.contains_key(
            key(#[trigger] rest[i]).0,
        ) by {
            assert(rest[i] == items[i]);
        }
        lemma_seen_items_emit_nothing(seen, rest, key);
        assert(items.map_values(key).drop_last() == rest.map_values(key));
        assert(seen.contains_key(key(items[items.len() - 1]).0));
    }
}

/// A second cycle over the items of the first emits nothing: what a cycle has
/// emitted is not emitted again.
pub proof fn lemma_repeat_emits_nothing<T>(
    seen: Map<Seq<char>, i64>,
    items: Seq<T>,
    key: spec_fn(T) -> (Seq<char>, i64),
)
    ensures
        new_items(store_after(seen, items.map_values(key)), items, key) == Seq::<T>::empty(),
        store_after(store_after(seen, items.map_values(key)), items.map_values(key))
            == store_after(seen, items.map_values(key)),
{
    let keys = items.map_values(key);
    let after = store_after(seen, keys);
    assert forall|i: int| 0 <= i < items.len() implies after.contains_key(
        key(#[trigger] items[i]).0,
    ) by {
        lemma_store_after_contains(seen, keys, key(items[i]).0);
        assert(keys[i].0 == key(items[i]).0);
    }
    lemma_seen_items_emit_nothing(after, items, key);
}

/// Choosing the new items and then looking at them through `f` is the same as
/// looking first and choosing then, where `f` keeps identifier and time.
pub proof fn lemma_new_items_map<T, U>(
    seen: Map<Seq<char>, i64>,
    items: Seq<T>,
    f: spec_fn(T) -> U,
    key_t: spec_fn(T) -> (Seq<char>, i64),
    key_u: spec_fn(U) -> (Seq<char>, i64),
)
    requires
        forall|t: T| #[trigger] key_u(f(t)) == key_t(t),
    ensures
        items.map_values(f).map_values(key_u) == items.map_values(key_t),
        new_items(seen, items.map_values(f), key_u) == new_items(seen, items, key_t).map_values(f),
    decreases items.len(),
{
    assert(items.map_values(f).map_values(key_u) =~= items.map_values(key_t)) by {
        assert forall|i: int| 0 <= i < items.len() implies items.map_values(f).map_values(key_u)[i]
            == items.map_values(key_t)[i] by {
            assert(key_u(f(items[i])) == key_t(items[i]));
        }
    }
    if items.len() > 0 {
        let rest = items.drop_last();
        lemma_new_items_map(seen, rest, f, key_t, key_u);
        assert(items.map_values(f).drop_last() == rest.map_values(f));
        assert(key_u(f(items.last())) == key_t(items.last()));
        assert(new_items(seen, items.map_values(f), key_u) =~= new_items(
            seen,
            items,
            key_t,
        ).map_values(f));
    } else {
        assert(new_items(seen, items.map_values(f), key_u) =~= new_items(
            seen,
            items,
            key_t,
        ).map_values(f));
    }
}

/// Every item that a cycle emits is in the store after the cycle, whatever
/// becomes of its delivery.
pub proof fn lemma_emitted_are_recorded<T>(
    seen: Map<Seq<char>, i64>,
    items: Seq<T>,
    key: spec_fn(T) -> (Seq<char>, i64),
    j: int,
)
    requires
        0 <= j < new_items(seen, items, key).len(),
    ensures
        store_after(seen, items.map_values(key)).contains_key(key(new_items(seen, items, key)[j]).0),
{
    let places = lemma_new_items_sound(seen, items, key);
    let keys = items.map_values(key);
    lemma_store_after_contains(seen, keys, key(new_items(seen, items, key)[j]).0);
    assert(keys[places[j]].0 == key(new_items(seen, items, key)[j]).0);
}

} // verus!
