//! Maps keyed by text.
use vstd::prelude::*;

use crate::string_map::{Deep, StringMap};

verus! {

/// A new map has no key.
pub proof fn new_map_is_empty<V>(
    map: StringMap<V>,
    count: usize,
    key: String,
    found: Option<&V>,
    holds: bool,
)
    requires
        call_ensures(StringMap::<V>::new, (), map),
        call_ensures(StringMap::<V>::len, (&map,), count),
        call_ensures(StringMap::<V>::get, (&map, &key), found),
        call_ensures(StringMap::<V>::contains_key, (&map, &key), holds),
    ensures
        count == 0,
        found is None,
        !holds,
{
}

/// A map has a key if and only if it gives a value for it.
pub proof fn keys_have_values<V>(map: StringMap<V>, key: String, found: Option<&V>, holds: bool)
    requires
        call_ensures(StringMap::<V>::get, (&map, &key), found),
        call_ensures(StringMap::<V>::contains_key, (&map, &key), holds),
    ensures
        holds <==> found is Some,
{
}

/// What is inserted is found under its key, and every other key keeps what it
/// had.
pub proof fn inserted_is_found<V>(
    map: &mut StringMap<V>,
    key: String,
    value: V,
    other: String,
    before: Option<&V>,
    after: Option<&V>,
)
    requires
        call_ensures(StringMap::<V>::insert, (map, key, value), ()),
        call_ensures(StringMap::<V>::get, (&*old(map), &other), before),
        call_ensures(StringMap::<V>::get, (&*final(map), &other), after),
    ensures
        other@ == key@ ==> after == Some(&value),
        other@ != key@ ==> after == before,
{
}

/// What is removed is not found any more, and every other key keeps what it had.
pub proof fn removed_is_gone<V>(
    map: &mut StringMap<V>,
    key: String,
    other: String,
    before: Option<&V>,
    after: Option<&V>,
)
    requires
        call_ensures(StringMap::<V>::remove, (map, &key), ()),
        call_ensures(StringMap::<V>::get, (&*old(map), &other), before),
        call_ensures(StringMap::<V>::get, (&*final(map), &other), after),
    ensures
        other@ == key@ ==> after is None,
        other@ != key@ ==> after == before,
{
}

/// A map that is extended has what the other one has, and what it had under all
/// other keys.
pub proof fn extended_has_both<V>(
    map: &mut StringMap<V>,
    more: StringMap<V>,
    key: String,
    before: Option<&V>,
    given: Option<&V>,
    after: Option<&V>,
)
    requires
        call_ensures(StringMap::<V>::extend, (map, more), ()),
        call_ensures(StringMap::<V>::get, (&*old(map), &key), before),
        call_ensures(StringMap::<V>::get, (&more, &key), given),
        call_ensures(StringMap::<V>::get, (&*final(map), &key), after),
    ensures
        given is Some ==> after == given,
        given is None ==> after == before,
{
}

/// A new key is counted once and comes last; a key that was there stays in its
/// place.
pub proof fn inserted_comes_last<V>(
    map: &mut StringMap<V>,
    key: String,
    value: V,
    had: bool,
    before: usize,
    after: usize,
    i: usize,
    first: &String,
    second: &String,
)
    requires
        call_ensures(StringMap::<V>::insert, (map, key, value), ()),
        call_ensures(StringMap::<V>::contains_key, (&*old(map), &key), had),
        call_ensures(StringMap::<V>::len, (&*old(map),), before),
        call_ensures(StringMap::<V>::len, (&*final(map),), after),
        i < after,
        call_ensures(StringMap::<V>::key_at, (&*final(map), i), second),
        i < before ==> call_ensures(StringMap::<V>::key_at, (&*old(map), i), first),
    ensures
        after == before + if had {
            0int
        } else {
            1int
        },
        i < before ==> second@ == first@,
        i >= before ==> second@ == key@,
{
}

/// A key that is removed leaves its place, and those behind it move up.
pub proof fn removed_leaves_its_place<V>(
    map: &mut StringMap<V>,
    key: String,
    had: bool,
    before: usize,
    after: usize,
)
    requires
        call_ensures(StringMap::<V>::remove, (map, &key), ()),
        call_ensures(StringMap::<V>::contains_key, (&*old(map), &key), had),
        call_ensures(StringMap::<V>::len, (&*old(map),), before),
        call_ensures(StringMap::<V>::len, (&*final(map),), after),
    ensures
        before == after + if had {
            1int
        } else {
            0int
        },
        !had ==> final(map).keys() == old(map).keys(),
        had ==> exists|at: int|
            #![trigger old(map).keys()[at]]
            0 <= at < before && old(map).keys()[at] == key@ && final(map).keys() == old(
                map,
            ).keys().take(at) + old(map).keys().skip(at + 1),
{
    if had {
        let keys = old(map).keys();
        assert(keys.contains(key@));
        let at = keys.index_of(key@);
        assert(keys[at] == key@);
        assert(keys.remove(at) =~= keys.take(at) + keys.skip(at + 1));
    }
}

/// A map gives its keys by their places: each of them once, with its value.
pub proof fn places_hold_keys<V>(
    map: StringMap<V>,
    count: usize,
    i: usize,
    j: usize,
    key: &String,
    other: &String,
    value: &V,
    found: Option<&V>,
)
    requires
        call_ensures(StringMap::<V>::len, (&map,), count),
        i < count,
        j < count,
        call_ensures(StringMap::<V>::key_at, (&map, i), key),
        call_ensures(StringMap::<V>::key_at, (&map, j), other),
        call_ensures(StringMap::<V>::value_at, (&map, i), value),
        call_ensures(StringMap::<V>::get, (&map, key), found),
    ensures
        found == Some(value),
        i != j ==> key@ != other@,
        key@ == map.keys()[i as int],
{
}

/// Every key that a map has stands at one of its places.
pub proof fn keys_have_places<V>(map: StringMap<V>, count: usize, key: String, holds: bool)
    requires
        call_ensures(StringMap::<V>::len, (&map,), count),
        call_ensures(StringMap::<V>::contains_key, (&map, &key), holds),
    ensures
        map.keys().len() == count,
        holds <==> exists|i: int| 0 <= i < count && #[trigger] map.keys()[i] == key@,
{
    if holds {
        assert(map.keys().contains(key@));
        assert(map.keys()[map.keys().index_of(key@)] == key@);
    }
    if exists|i: int| 0 <= i < count && #[trigger] map.keys()[i] == key@ {
        assert(map.keys().contains(key@));
    }
}

/// The entries of a map are its keys with their values, in the order of the
/// keys.
pub proof fn entries_are_keys_with_values<V>(
    map: StringMap<V>,
    entries: Vec<(String, V)>,
    count: usize,
    i: usize,
    found: Option<&V>,
)
    requires
        call_ensures(StringMap::<V>::into_entries, (map,), entries),
        call_ensures(StringMap::<V>::len, (&map,), count),
        i < count,
        call_ensures(StringMap::<V>::get, (&map, &entries@[i as int].0), found),
    ensures
        entries@.len() == count,
        entries@[i as int].0@ == map.keys()[i as int],
        found == Some(&entries@[i as int].1),
{
}

/// A copy has the same keys in the same order, each with a value that stands for
/// the same.
pub proof fn copy_is_the_same<V: Deep>(
    map: StringMap<V>,
    copy: StringMap<V>,
    duplicate: StringMap<V>,
    key: Seq<char>,
)
    requires
        call_ensures(StringMap::<V>::copy, (&map,), copy),
        call_ensures(<StringMap<V> as Deep>::duplicate, (&map,), duplicate),
    ensures
        copy.keys() == map.keys(),
        copy@.contains_key(key) <==> map@.contains_key(key),
        map@.contains_key(key) ==> copy@[key].model() == map@[key].model(),
        duplicate@.contains_key(key) <==> map@.contains_key(key),
        map@.contains_key(key) ==> duplicate@[key].model() == map@[key].model(),
{
    assert(copy.model().contains_key(key) == copy@.contains_key(key));
    assert(duplicate.model().contains_key(key) == duplicate@.contains_key(key));
    assert(map.model().contains_key(key) == map@.contains_key(key));
    if map@.contains_key(key) {
        assert(copy.model()[key] == copy@[key].model());
        assert(duplicate.model()[key] == duplicate@[key].model());
        assert(map.model()[key] == map@[key].model());
    }
}

/// Copies of texts, of what may be missing and of lists say the same.
pub proof fn plain_copies_are_the_same(
    text: String,
    text_copy: String,
    maybe: Option<String>,
    maybe_copy: Option<String>,
    list: Vec<String>,
    list_copy: Vec<String>,
    i: int,
)
    requires
        call_ensures(<String as Deep>::duplicate, (&text,), text_copy),
        call_ensures(<Option<String> as Deep>::duplicate, (&maybe,), maybe_copy),
        call_ensures(<Vec<String> as Deep>::duplicate, (&list,), list_copy),
    ensures
        text_copy@ == text@,
        maybe is None <==> maybe_copy is None,
        maybe matches Some(inner) ==> maybe_copy->Some_0@ == inner@,
        list_copy@.len() == list@.len(),
        0 <= i < list@.len() ==> list_copy@[i]@ == list@[i]@,
{
    assert(list_copy.model().len() == list.model().len());
    if 0 <= i < list@.len() {
        assert(list_copy.model()[i] == list_copy@[i].model());
        assert(list.model()[i] == list@[i].model());
    }
}

/// A clone has the same keys in the same order, each with a clone of its value.
pub proof fn clone_has_the_same_keys<V: Clone>(
    map: StringMap<V>,
    copy: StringMap<V>,
    key: Seq<char>,
)
    requires
        call_ensures(<StringMap<V> as Clone>::clone, (&map,), copy),
    ensures
        copy.keys() == map.keys(),
        map@.contains_key(key) ==> copy@.contains_key(key) && cloned::<V>(map@[key], copy@[key]),
{
    if map@.contains_key(key) {
        let value = copy@[key];
        assert(copy@.contains_key(key) && cloned::<V>(map@[key], value));
    }
}

} // verus!
