//! The model of a registry: its entries as a sequence of plain values, and
//! what each operation does to that sequence.
use vstd::prelude::*;

use super::entry::EntryView;
use super::key::{lemma_key_at_view, lemma_key_view_bound, lemma_key_view_injective, Key};

verus! {

broadcast use {lemma_key_at_view, lemma_key_view_bound, lemma_key_view_injective};

/// Some entry carries the id.
pub open spec fn has_id<T>(entries: Seq<EntryView<T>>, id: Seq<char>) -> bool {
    exists|i: int| 0 <= i < entries.len() && (#[trigger] entries[i]).id == id
}

/// No two entries carry the same id.
pub open spec fn ids_unique<T>(entries: Seq<EntryView<T>>) -> bool {
    forall|i: int, j: int|
        0 <= i < entries.len() && 0 <= j < entries.len() && i != j ==> (#[trigger] entries[i]).id
            != (#[trigger] entries[j]).id
}

/// The key map names exactly the entries: every id in it leads to the entry
/// carrying that id, every entry is reachable by its id, and every position
/// fits in a key.
pub open spec fn keys_match<T>(map: Map<Seq<char>, Key<T>>, entries: Seq<EntryView<T>>) -> bool {
    &&& entries.len() <= u32::MAX + 1
    &&& forall|id: Seq<char>| #[trigger]
        map.contains_key(id) ==> map[id]@ < entries.len() && entries[map[id]@ as int].id == id
    &&& forall|i: int|
        0 <= i < entries.len() ==> map.contains_key((#[trigger] entries[i]).id) && map[entries[i].id]@
            == i
}

/// Two entry sequences of one length whose entries carry the same ids.
pub open spec fn same_ids<T>(a: Seq<EntryView<T>>, b: Seq<EntryView<T>>) -> bool {
    &&& a.len() == b.len()
    &&& forall|i: int| 0 <= i < a.len() ==> (#[trigger] a[i]).id == b[i].id
}

/// The entry after it was given `value`.
pub open spec fn with_value<T>(e: EntryView<T>, value: T) -> EntryView<T> {
    EntryView { id: e.id, value: Some(value), yeeted: false }
}

/// A key map that matches its entries keeps matching them when only values
/// and flags change.
pub proof fn lemma_keys_match_same_ids<T>(
    map: Map<Seq<char>, Key<T>>,
    a: Seq<EntryView<T>>,
    b: Seq<EntryView<T>>,
)
    requires
        keys_match(map, a),
        same_ids(a, b),
    ensures
        keys_match(map, b),
{
    assert forall|i: int| 0 <= i < b.len() implies map.contains_key((#[trigger] b[i]).id)
        && map[b[i].id]@ == i by {
        assert(a[i].id == b[i].id);
    }
}

/// A matching key map matches every entry sequence with the same ids.
pub proof fn lemma_keys_match_keeps_ids<T>(map: Map<Seq<char>, Key<T>>, a: Seq<EntryView<T>>)
    requires
        keys_match(map, a),
    ensures
        forall|b: Seq<EntryView<T>>| same_ids(a, b) ==> #[trigger] keys_match(map, b),
{
    assert forall|b: Seq<EntryView<T>>| same_ids(a, b) implies #[trigger] keys_match(map, b) by {
        lemma_keys_match_same_ids(map, a, b);
    }
}

/// With a matching key map, ids are unique and an id is in the map exactly
/// when some entry carries it.
pub proof fn lemma_keys_match_facts<T>(map: Map<Seq<char>, Key<T>>, entries: Seq<EntryView<T>>)
    requires
        keys_match(map, entries),
    ensures
        ids_unique(entries),
        forall|id: Seq<char>| #[trigger] map.contains_key(id) <==> has_id(entries, id),
{
    assert forall|i: int, j: int|
        0 <= i < entries.len() && 0 <= j < entries.len() && i != j implies (#[trigger] entries[i]).id
        != (#[trigger] entries[j]).id by {
        if entries[i].id == entries[j].id {
            assert(map[entries[i].id]@ == i);
            assert(map[entries[j].id]@ == j);
        }
    }
    assert forall|id: Seq<char>| #[trigger] map.contains_key(id) <==> has_id(entries, id) by {
        if map.contains_key(id) {
            let i = map[id]@ as int;
            assert(entries[i].id == id);
        }
        if has_id(entries, id) {
            let i = choose|i: int| 0 <= i < entries.len() && (#[trigger] entries[i]).id == id;
            assert(map.contains_key(entries[i].id));
        }
    }
}

/// The position of the entry carrying the id (meaningful when some entry
/// carries it).
pub open spec fn index_of<T>(entries: Seq<EntryView<T>>, id: Seq<char>) -> int {
    choose|i: int| 0 <= i < entries.len() && (#[trigger] entries[i]).id == id
}

/// Every entry marked as left over from an earlier load.
pub open spec fn yeet_entries<T>(entries: Seq<EntryView<T>>) -> Seq<EntryView<T>> {
    Seq::new(entries.len(), |i: int| EntryView { yeeted: true, ..entries[i] })
}

/// The position at which the id's entry is found, or would be appended.
pub open spec fn key_position<T>(entries: Seq<EntryView<T>>, id: Seq<char>) -> nat {
    if has_id(entries, id) {
        index_of(entries, id) as nat
    } else {
        entries.len()
    }
}

/// The entries after asking for the id's key: unchanged when an entry carries
/// the id, otherwise with a new entry for it that holds no value yet.
pub open spec fn spec_get_or_insert<T>(entries: Seq<EntryView<T>>, id: Seq<char>) -> Seq<EntryView<T>> {
    if has_id(entries, id) {
        entries
    } else {
        entries.push(EntryView { id, value: None, yeeted: true })
    }
}

/// The entries after the entry at `i` was given `value`.
pub open spec fn set_value<T>(entries: Seq<EntryView<T>>, i: int, value: T) -> Seq<EntryView<T>> {
    entries.update(i, with_value(entries[i], value))
}

/// With unique ids, the entry found for an id is the one carrying it.
pub proof fn lemma_index_of_unique<T>(entries: Seq<EntryView<T>>, id: Seq<char>, i: int)
    requires
        ids_unique(entries),
        0 <= i < entries.len(),
        entries[i].id == id,
    ensures
        has_id(entries, id),
        index_of(entries, id) == i,
{
    assert(has_id(entries, id));
    let j = index_of(entries, id);
    assert(entries[j].id == id);
}

/// The entries after the pair `(id, value)` was added: an entry already
/// carrying the id is given the value, otherwise a new entry holding it is
/// appended.  Once every 32-bit position is taken, a pair with a new id is
/// left out, since no key could name its entry.
pub open spec fn insert_pair<T>(entries: Seq<EntryView<T>>, id: Seq<char>, value: T) -> Seq<EntryView<T>> {
    if has_id(entries, id) {
        set_value(entries, index_of(entries, id), value)
    } else if entries.len() <= u32::MAX {
        entries.push(EntryView { id, value: Some(value), yeeted: false })
    } else {
        entries
    }
}

/// The entries after every pair was added, in order.
pub open spec fn insert_pairs<T>(entries: Seq<EntryView<T>>, pairs: Seq<(Seq<char>, T)>) -> Seq<EntryView<T>>
    decreases pairs.len(),
{
    if pairs.len() == 0 {
        entries
    } else {
        let prefix = insert_pairs(entries, pairs.drop_last());
        insert_pair(prefix, pairs.last().0, pairs.last().1)
    }
}

/// The pairs with their ids taken as plain strings.
pub open spec fn pair_views<T>(pairs: Seq<(String, T)>) -> Seq<(Seq<char>, T)> {
    pairs.map_values(|p: (String, T)| (p.0@, p.1))
}

/// The entries after asking, in order, for the key of every id.
pub open spec fn get_or_insert_all<T>(entries: Seq<EntryView<T>>, ids: Seq<Seq<char>>) -> Seq<EntryView<T>>
    decreases ids.len(),
{
    if ids.len() == 0 {
        entries
    } else {
        spec_get_or_insert(get_or_insert_all(entries, ids.drop_last()), ids.last())
    }
}

/// The entries after storing `value` under `id`: the entry carrying the id
/// is given the value; when no entry carries it, nothing changes.
pub open spec fn store_pair<T>(entries: Seq<EntryView<T>>, id: Seq<char>, value: T) -> Seq<EntryView<T>> {
    if has_id(entries, id) {
        set_value(entries, index_of(entries, id), value)
    } else {
        entries
    }
}

/// The entries after storing every pair, in order.
pub open spec fn store_pairs<T>(entries: Seq<EntryView<T>>, pairs: Seq<(Seq<char>, T)>) -> Seq<EntryView<T>>
    decreases pairs.len(),
{
    if pairs.len() == 0 {
        entries
    } else {
        store_pair(store_pairs(entries, pairs.drop_last()), pairs.last().0, pairs.last().1)
    }
}

/// A matching key map keeps matching after a new id gets the next position.
pub(crate) proof fn lemma_keys_match_push<T>(
    map: Map<Seq<char>, Key<T>>,
    entries: Seq<EntryView<T>>,
    e: EntryView<T>,
    k: Key<T>,
)
    requires
        keys_match(map, entries),
        !has_id(entries, e.id),
        entries.len() <= u32::MAX,
        k@ == entries.len(),
    ensures
        keys_match(map.insert(e.id, k), entries.push(e)),
{
    lemma_keys_match_facts(map, entries);
    let m2 = map.insert(e.id, k);
    let s2 = entries.push(e);
    assert forall|id: Seq<char>| #[trigger] m2.contains_key(id) implies m2[id]@ < s2.len() && s2[m2[id]@ as int].id == id by {
        if id != e.id {
            assert(map.contains_key(id));
        }
    }
    assert forall|i: int| 0 <= i < s2.len() implies m2.contains_key((#[trigger] s2[i]).id) && m2[s2[i].id]@ == i by {
        if i < entries.len() {
            assert(s2[i] == entries[i]);
            assert(entries[i].id != e.id);
        }
    }
}

} // verus!
