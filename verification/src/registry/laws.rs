//! What holds of a registry across calls.
use std::any::TypeId;
use vstd::prelude::*;

use super::entry::EntryView;
use super::key::{cast_result, lemma_key_at_of_view, lemma_key_view_injective, lemma_untyped_of, untyped_of, Key};
use super::spec::{
    get_or_insert_all, has_id, ids_unique, index_of, insert_pair, insert_pairs, key_position,
    lemma_index_of_unique, lemma_keys_match_same_ids, pair_views, same_ids, set_value, spec_get_or_insert,
    store_pair, store_pairs, yeet_entries,
};
use super::Registry;

verus! {

/// Asking twice for the key of one id hands out the same key, and the second
/// request leaves the registry as the first one left it.
pub proof fn law_get_or_insert_idempotent<T>(r: &Registry<T>, id: Seq<char>)
    requires
        r.wf(),
        has_id(r@, id) || r@.len() <= u32::MAX,
    ensures
        spec_get_or_insert(spec_get_or_insert(r@, id), id) == spec_get_or_insert(r@, id),
        key_position(spec_get_or_insert(r@, id), id) == key_position(r@, id),
{
    r.lemma_wf_keys_match();
    let e = r@;
    let e2 = spec_get_or_insert(e, id);
    if has_id(e, id) {
    } else {
        assert(e2[e.len() as int].id == id);
        lemma_push_new_id_unique(e, EntryView { id, value: None, yeeted: true });
        lemma_index_of_unique(e2, id, e.len() as int);
    }
}

/// Once an id was given a key, looking the id up finds that key.
pub proof fn law_lookup_after_get_or_insert<T>(r: &Registry<T>, id: Seq<char>)
    requires
        r.wf(),
        has_id(r@, id) || r@.len() <= u32::MAX,
    ensures
        has_id(spec_get_or_insert(r@, id), id),
        index_of(spec_get_or_insert(r@, id), id) == key_position(r@, id),
{
    law_get_or_insert_idempotent(r, id);
}

/// Keys handed out stay valid: asking for a key never moves or renames the
/// entries already there.
pub proof fn law_get_or_insert_keeps_entries<T>(r: &Registry<T>, id: Seq<char>)
    requires
        r.wf(),
    ensures
        spec_get_or_insert(r@, id).len() >= r@.len(),
        forall|i: int| 0 <= i < r@.len() ==> spec_get_or_insert(r@, id)[i] == #[trigger] r@[i],
{
}

/// A value given to an entry is the value the entry then holds, and the
/// entry is current; no other entry and no id changes.
pub proof fn law_read_after_insert_value<T>(r: &Registry<T>, k: Key<T>, value: T)
    requires
        r.wf(),
        k@ < r@.len(),
    ensures
        set_value(r@, k@ as int, value)[k@ as int].value == Some(value),
        !set_value(r@, k@ as int, value)[k@ as int].yeeted,
        same_ids(r@, set_value(r@, k@ as int, value)),
        forall|i: int| 0 <= i < r@.len() && i != k@ ==> set_value(r@, k@ as int, value)[i] == #[trigger] r@[i],
{
}

/// Filling in values keeps a key map matching its entries, so a registry
/// whose entries were refilled through `split_mut` is well formed again.
pub proof fn law_refill_keeps_registry_wf<T>(before: &Registry<T>, after: &Registry<T>)
    requires
        before.wf(),
        after.key_map() == before.key_map(),
        same_ids(before@, after@),
    ensures
        after.wf(),
{
    before.lemma_wf_keys_match();
    lemma_keys_match_same_ids(before.key_map(), before@, after@);
    Registry::<T>::lemma_wf_from_keys_match(after);
}

/// The registry keeps exactly one key per entry.
pub proof fn law_key_count_matches<T>(r: &Registry<T>)
    requires
        r.wf(),
    ensures
        r.key_map().len() == r@.len(),
{
    r.lemma_wf_keys_match();
    let ids = r@.map_values(|e: EntryView<T>| e.id);
    assert forall|i: int, j: int| 0 <= i < ids.len() && 0 <= j < ids.len() && i != j implies ids[i] != ids[j] by {
        assert(r@[i].id != r@[j].id);
    }
    assert(ids.no_duplicates());
    ids.unique_seq_to_set();
    assert forall|id: Seq<char>| #[trigger] r.key_map().dom().contains(id) <==> ids.to_set().contains(id) by {
        if r.key_map().contains_key(id) {
            let i = r.key_map()[id]@ as int;
            assert(ids[i] == id);
        }
        if ids.to_set().contains(id) {
            let i = choose|i: int| 0 <= i < ids.len() && ids[i] == id;
            assert(r@[i].id == id);
        }
    }
    assert(r.key_map().dom() =~= ids.to_set());
}

/// An untyped key made from a key, cast back with the same type identity,
/// gives the key back: what `cast_with` returns for the result of
/// `as_untyped_with`.
pub proof fn law_cast_undoes_as_untyped<T>(k: Key<T>, type_id: TypeId)
    ensures
        cast_result::<T>(untyped_of(k, type_id), type_id) == Some(k),
{
    lemma_untyped_of(k, type_id);
    lemma_key_at_of_view(k);
}

/// Adding one pair to entries with unique ids: ids stay unique, the entries
/// already there keep their ids, the pair's id is then present with the
/// pair's value (unless every position was taken), and other ids keep their
/// entries.
pub proof fn lemma_insert_pair_facts<T>(e: Seq<EntryView<T>>, id: Seq<char>, value: T)
    requires
        ids_unique(e),
    ensures
        ids_unique(insert_pair(e, id, value)),
        e.len() <= insert_pair(e, id, value).len() <= e.len() + 1,
        forall|i: int| 0 <= i < e.len() ==> (#[trigger] insert_pair(e, id, value)[i]).id == e[i].id,
        has_id(e, id) || e.len() <= u32::MAX ==> has_id(insert_pair(e, id, value), id) && insert_pair(
            e,
            id,
            value,
        )[index_of(insert_pair(e, id, value), id)].value == Some(value),
        forall|x: Seq<char>|
            x != id ==> (#[trigger] has_id(insert_pair(e, id, value), x) <==> has_id(e, x)),
        forall|x: Seq<char>|
            x != id && #[trigger] has_id(e, x) ==> insert_pair(e, id, value)[index_of(
                insert_pair(e, id, value),
                x,
            )] == e[index_of(e, x)],
{
    let e2 = insert_pair(e, id, value);
    if has_id(e, id) {
        let p = index_of(e, id);
        assert(same_ids(e, e2));
        assert(ids_unique(e2)) by {
            assert forall|i: int, j: int| 0 <= i < e2.len() && 0 <= j < e2.len() && i != j implies (#[trigger] e2[i]).id != (#[trigger] e2[j]).id by {
                assert(e2[i].id == e[i].id);
                assert(e2[j].id == e[j].id);
            }
        }
        lemma_index_of_unique(e2, id, p);
        assert forall|x: Seq<char>| x != id implies (#[trigger] has_id(e2, x) <==> has_id(e, x)) by {
            if has_id(e, x) {
                let i = index_of(e, x);
                assert(e2[i].id == x);
            }
            if has_id(e2, x) {
                let i = index_of(e2, x);
                assert(e[i].id == x);
            }
        }
        assert forall|x: Seq<char>| x != id && #[trigger] has_id(e, x) implies e2[index_of(e2, x)] == e[index_of(e, x)] by {
            let i = index_of(e, x);
            assert(e2[i].id == x);
            lemma_index_of_unique(e2, x, i);
        }
    } else if e.len() <= u32::MAX {
        let ne = EntryView { id, value: Some(value), yeeted: false };
        lemma_push_new_id_unique(e, ne);
        lemma_index_of_unique(e2, id, e.len() as int);
        assert forall|x: Seq<char>| x != id implies (#[trigger] has_id(e2, x) <==> has_id(e, x)) by {
            if has_id(e, x) {
                let i = index_of(e, x);
                assert(e2[i].id == x);
            }
            if has_id(e2, x) {
                let i = index_of(e2, x);
                assert(i != e.len());
                assert(e[i].id == x);
            }
        }
        assert forall|x: Seq<char>| x != id && #[trigger] has_id(e, x) implies e2[index_of(e2, x)] == e[index_of(e, x)] by {
            let i = index_of(e, x);
            assert(e2[i].id == x);
            lemma_index_of_unique(e2, x, i);
        }
    } else {
    }
}

/// Pushing an entry whose id no entry carries keeps ids unique.
pub proof fn lemma_push_new_id_unique<T>(e: Seq<EntryView<T>>, ne: EntryView<T>)
    requires
        ids_unique(e),
        !has_id(e, ne.id),
    ensures
        ids_unique(e.push(ne)),
{
    let e2 = e.push(ne);
    assert forall|i: int, j: int| 0 <= i < e2.len() && 0 <= j < e2.len() && i != j implies (#[trigger] e2[i]).id != (#[trigger] e2[j]).id by {
        if i < e.len() && j < e.len() {
            assert(e2[i] == e[i]);
            assert(e2[j] == e[j]);
        } else if i < e.len() {
            assert(e2[i] == e[i]);
        } else {
            assert(e2[j] == e[j]);
        }
    }
}

/// Adding pairs in order to entries with unique ids, with room for all of
/// them: ids stay unique, an id is present exactly when it was present or
/// some pair carries it, and an id holds the value of the last pair that
/// carries it.
pub proof fn lemma_insert_pairs_facts<T>(e: Seq<EntryView<T>>, ps: Seq<(Seq<char>, T)>)
    requires
        ids_unique(e),
        e.len() + ps.len() <= u32::MAX + 1,
    ensures
        ids_unique(insert_pairs(e, ps)),
        insert_pairs(e, ps).len() <= e.len() + ps.len(),
        forall|x: Seq<char>|
            #[trigger] has_id(insert_pairs(e, ps), x) <==> (has_id(e, x) || exists|j: int|
                0 <= j < ps.len() && (#[trigger] ps[j]).0 == x),
        forall|i: int|
            0 <= i < ps.len() && (forall|j: int| i < j < ps.len() ==> (#[trigger] ps[j]).0 != ps[i].0)
                ==> insert_pairs(e, ps)[index_of(insert_pairs(e, ps), (#[trigger] ps[i]).0)].value
                == Some(ps[i].1),
    decreases ps.len(),
{
    if ps.len() == 0 {
    } else {
        let front = ps.drop_last();
        let (id, value) = ps.last();
        lemma_insert_pairs_facts(e, front);
        let mid = insert_pairs(e, front);
        lemma_insert_pair_facts(mid, id, value);
        let fin = insert_pairs(e, ps);
        assert(fin == insert_pair(mid, id, value));
        assert forall|x: Seq<char>|
            #[trigger] has_id(fin, x) <==> (has_id(e, x) || exists|j: int|
                0 <= j < ps.len() && (#[trigger] ps[j]).0 == x) by {
            if x == id {
                assert(ps[ps.len() - 1].0 == x);
            } else {
                if exists|j: int| 0 <= j < ps.len() && (#[trigger] ps[j]).0 == x {
                    let j = choose|j: int| 0 <= j < ps.len() && (#[trigger] ps[j]).0 == x;
                    assert(j != ps.len() - 1);
                    assert(front[j] == ps[j]);
                }
                if exists|j: int| 0 <= j < front.len() && (#[trigger] front[j]).0 == x {
                    let j = choose|j: int| 0 <= j < front.len() && (#[trigger] front[j]).0 == x;
                    assert(ps[j] == front[j]);
                }
            }
        }
        assert forall|i: int|
            0 <= i < ps.len() && (forall|j: int| i < j < ps.len() ==> (#[trigger] ps[j]).0 != ps[i].0)
                implies fin[index_of(fin, (#[trigger] ps[i]).0)].value == Some(ps[i].1) by {
            if i == ps.len() - 1 {
            } else {
                assert(front[i] == ps[i]);
                assert(ps[ps.len() - 1].0 != ps[i].0);
                assert forall|j: int| i < j < front.len() implies (#[trigger] front[j]).0 != front[i].0 by {
                    assert(front[j] == ps[j]);
                }
                assert(has_id(mid, ps[i].0));
            }
        }
    }
}

/// After adding pairs, an entry is current exactly when it was current
/// before or some pair carries its id, and an entry whose id no pair carries
/// is unchanged.
pub proof fn lemma_insert_pairs_currency<T>(e: Seq<EntryView<T>>, ps: Seq<(Seq<char>, T)>, x: Seq<char>)
    requires
        ids_unique(e),
        e.len() + ps.len() <= u32::MAX + 1,
        has_id(insert_pairs(e, ps), x),
    ensures
        !insert_pairs(e, ps)[index_of(insert_pairs(e, ps), x)].yeeted <==> ((has_id(e, x) && !e[index_of(e, x)].yeeted)
            || exists|j: int| 0 <= j < ps.len() && (#[trigger] ps[j]).0 == x),
        (forall|j: int| 0 <= j < ps.len() ==> (#[trigger] ps[j]).0 != x) ==> insert_pairs(e, ps)[index_of(
            insert_pairs(e, ps),
            x,
        )] == e[index_of(e, x)],
    decreases ps.len(),
{
    if ps.len() == 0 {
    } else {
        let front = ps.drop_last();
        let (id, value) = ps.last();
        let mid = insert_pairs(e, front);
        let fin = insert_pairs(e, ps);
        assert(fin == insert_pair(mid, id, value));
        lemma_insert_pairs_facts(e, front);
        lemma_insert_pair_facts(mid, id, value);
        let in_ps = exists|j: int| 0 <= j < ps.len() && (#[trigger] ps[j]).0 == x;
        let in_front = exists|j: int| 0 <= j < front.len() && (#[trigger] front[j]).0 == x;
        if x == id {
            assert(ps[ps.len() - 1].0 == x);
            assert(in_ps);
            assert(!fin[index_of(fin, x)].yeeted);
        } else {
            assert(has_id(mid, x));
            lemma_insert_pairs_currency(e, front, x);
            assert(fin[index_of(fin, x)] == mid[index_of(mid, x)]);
            assert(in_ps == in_front) by {
                if in_ps {
                    let j = choose|j: int| 0 <= j < ps.len() && (#[trigger] ps[j]).0 == x;
                    assert(j != ps.len() - 1);
                    assert(front[j] == ps[j]);
                }
                if in_front {
                    let j = choose|j: int| 0 <= j < front.len() && (#[trigger] front[j]).0 == x;
                    assert(ps[j] == front[j]);
                }
            }
        }
    }
}

/// A reload marks every entry stale and then gives values to the ids it
/// reads: afterwards an entry is current exactly when the reload gave its id
/// a value, and an entry the reload did not mention keeps its old value.
pub proof fn law_reload_marks_missing_entries_stale<T>(r: &Registry<T>, ps: Seq<(Seq<char>, T)>, x: Seq<char>)
    requires
        r.wf(),
        r@.len() + ps.len() <= u32::MAX + 1,
        has_id(insert_pairs(yeet_entries(r@), ps), x),
    ensures
        !insert_pairs(yeet_entries(r@), ps)[index_of(insert_pairs(yeet_entries(r@), ps), x)].yeeted
            <==> exists|j: int| 0 <= j < ps.len() && (#[trigger] ps[j]).0 == x,
        (forall|j: int| 0 <= j < ps.len() ==> (#[trigger] ps[j]).0 != x) ==> insert_pairs(yeet_entries(r@), ps)[index_of(
            insert_pairs(yeet_entries(r@), ps),
            x,
        )].value == r@[index_of(r@, x)].value,
{
    r.lemma_wf_keys_match();
    let e = r@;
    let y = yeet_entries(e);
    assert(ids_unique(y)) by {
        assert forall|i: int, j: int| 0 <= i < y.len() && 0 <= j < y.len() && i != j implies (#[trigger] y[i]).id != (#[trigger] y[j]).id by {
            assert(e[i].id != e[j].id);
        }
    }
    lemma_insert_pairs_currency(y, ps, x);
    lemma_insert_pairs_facts(y, ps);
    if has_id(y, x) {
        let i = index_of(y, x);
        assert(y[i].yeeted);
        assert(e[i].id == x);
        lemma_index_of_unique(e, x, i);
    }
}

/// A registry built from pairs holds an entry for exactly the ids the pairs
/// carry, and each id holds the value of the last pair carrying it.
pub proof fn law_from_pairs_last_value_wins<T>(ps: Seq<(Seq<char>, T)>)
    requires
        ps.len() <= u32::MAX + 1,
    ensures
        ids_unique(insert_pairs(Seq::<EntryView<T>>::empty(), ps)),
        forall|x: Seq<char>|
            #[trigger] has_id(insert_pairs(Seq::<EntryView<T>>::empty(), ps), x) <==> exists|j: int|
                0 <= j < ps.len() && (#[trigger] ps[j]).0 == x,
        forall|i: int|
            0 <= i < ps.len() && (forall|j: int| i < j < ps.len() ==> (#[trigger] ps[j]).0 != ps[i].0)
                ==> insert_pairs(Seq::<EntryView<T>>::empty(), ps)[index_of(
                insert_pairs(Seq::<EntryView<T>>::empty(), ps),
                (#[trigger] ps[i]).0,
            )].value == Some(ps[i].1),
{
    lemma_insert_pairs_facts(Seq::<EntryView<T>>::empty(), ps);
}

/// Adding pairs in two runs leaves the entries as adding, in one run, the
/// pairs of the first run followed by those of the second.
pub proof fn law_insert_pairs_concat<T>(e: Seq<EntryView<T>>, xs: Seq<(Seq<char>, T)>, ys: Seq<(Seq<char>, T)>)
    ensures
        insert_pairs(insert_pairs(e, xs), ys) == insert_pairs(e, xs + ys),
    decreases ys.len(),
{
    if ys.len() == 0 {
        assert(xs + ys =~= xs);
    } else {
        law_insert_pairs_concat(e, xs, ys.drop_last());
        assert((xs + ys).drop_last() =~= xs + ys.drop_last());
        assert((xs + ys).last() == ys.last());
    }
}

/// Extending a registry by `xs` and then by `ys` leaves the same entries as
/// extending it once by `xs` followed by `ys`; in particular a registry built
/// from pairs holds what an empty registry extended by them holds.
pub proof fn law_extend_twice_is_one_extend<T>(e: Seq<EntryView<T>>, xs: Seq<(String, T)>, ys: Seq<(String, T)>)
    ensures
        insert_pairs(insert_pairs(e, pair_views(xs)), pair_views(ys)) == insert_pairs(e, pair_views(xs + ys)),
{
    assert(pair_views(xs + ys) =~= pair_views(xs) + pair_views(ys));
    law_insert_pairs_concat(e, pair_views(xs), pair_views(ys));
}

/// Two well-formed registries holding the same entries hand out the same
/// keys: the entries decide the key map.
pub proof fn law_same_entries_same_keys<T>(a: &Registry<T>, b: &Registry<T>)
    requires
        a.wf(),
        b.wf(),
        a@ == b@,
    ensures
        a.key_map() == b.key_map(),
{
    a.lemma_wf_keys_match();
    b.lemma_wf_keys_match();
    let (ma, mb) = (a.key_map(), b.key_map());
    assert forall|id: Seq<char>| ma.contains_key(id) <==> mb.contains_key(id) by {
        if ma.contains_key(id) {
            assert(a@[ma[id]@ as int].id == id);
        }
        if mb.contains_key(id) {
            assert(b@[mb[id]@ as int].id == id);
        }
    }
    assert forall|id: Seq<char>| #[trigger] ma.contains_key(id) implies ma[id] == mb[id] by {
        let i = ma[id]@ as int;
        assert(a@[i].id == id);
        assert(mb[a@[i].id]@ == i);
        lemma_key_view_injective(ma[id], mb[id]);
    }
    assert(ma =~= mb);
}

/// Asking in order for the keys of ids, starting from entries with unique
/// ids: ids stay unique, the entries already there stay in place, every new
/// entry holds no value and is marked as left over, and an id is present
/// exactly when it was present or was asked for.
pub proof fn lemma_get_or_insert_all_facts<T>(e: Seq<EntryView<T>>, ids: Seq<Seq<char>>)
    requires
        ids_unique(e),
    ensures
        ids_unique(get_or_insert_all(e, ids)),
        get_or_insert_all(e, ids).len() >= e.len(),
        forall|i: int| 0 <= i < e.len() ==> #[trigger] get_or_insert_all(e, ids)[i] == e[i],
        forall|i: int|
            e.len() <= i < get_or_insert_all(e, ids).len() ==> (#[trigger] get_or_insert_all(e, ids)[i]).value is None
                && get_or_insert_all(e, ids)[i].yeeted,
        forall|x: Seq<char>|
            #[trigger] has_id(get_or_insert_all(e, ids), x) <==> (has_id(e, x) || exists|j: int|
                0 <= j < ids.len() && ids[j] == x),
    decreases ids.len(),
{
    if ids.len() > 0 {
        let front = ids.drop_last();
        let id = ids.last();
        let g0 = get_or_insert_all(e, front);
        let g = get_or_insert_all(e, ids);
        lemma_get_or_insert_all_facts(e, front);
        assert(g == spec_get_or_insert(g0, id));
        if !has_id(g0, id) {
            lemma_push_new_id_unique(g0, EntryView { id, value: None, yeeted: true });
        }
        assert forall|i: int| 0 <= i < e.len() implies #[trigger] g[i] == e[i] by {
            assert(g0[i] == e[i]);
        }
        assert forall|i: int| e.len() <= i < g.len() implies (#[trigger] g[i]).value is None && g[i].yeeted by {
            if i < g0.len() {
                assert(g[i] == g0[i]);
            }
        }
        assert forall|x: Seq<char>| #[trigger] has_id(g, x) <==> (has_id(e, x) || exists|j: int| 0 <= j < ids.len() && ids[j] == x) by {
            let in_front = exists|j: int| 0 <= j < front.len() && front[j] == x;
            assert(has_id(g0, x) <==> (has_id(e, x) || in_front));
            if in_front {
                let j = choose|j: int| 0 <= j < front.len() && front[j] == x;
                assert(ids[j] == x);
            }
            if exists|j: int| 0 <= j < ids.len() && ids[j] == x {
                let j = choose|j: int| 0 <= j < ids.len() && ids[j] == x;
                if j < front.len() {
                    assert(front[j] == x);
                } else {
                    assert(x == id);
                }
            }
            if has_id(g0, x) {
                let i = choose|i: int| 0 <= i < g0.len() && (#[trigger] g0[i]).id == x;
                assert(g[i] == g0[i]);
            }
            if has_id(g, x) && !has_id(g0, x) {
                let i = choose|i: int| 0 <= i < g.len() && (#[trigger] g[i]).id == x;
                if i < g0.len() {
                    assert(g[i] == g0[i]);
                }
                assert(x == id);
                assert(ids[ids.len() - 1] == x);
            }
            if x == id && !has_id(g0, x) {
                assert(g[g0.len() as int].id == x);
            }
        }
    }
}

/// Storing pairs into entries with unique ids keeps every id in place; an
/// entry is current afterwards exactly when it was current before or some
/// pair carries its id, and an entry whose id no pair carries is unchanged.
pub proof fn lemma_store_pairs_facts<T>(g: Seq<EntryView<T>>, ps: Seq<(Seq<char>, T)>)
    requires
        ids_unique(g),
    ensures
        same_ids(g, store_pairs(g, ps)),
        forall|i: int|
            0 <= i < g.len() ==> (!(#[trigger] store_pairs(g, ps)[i]).yeeted <==> (!g[i].yeeted || exists|j: int|
                0 <= j < ps.len() && ps[j].0 == g[i].id)),
        forall|i: int|
            0 <= i < g.len() && (forall|j: int| 0 <= j < ps.len() ==> ps[j].0 != g[i].id) ==> #[trigger] store_pairs(
                g,
                ps,
            )[i] == g[i],
    decreases ps.len(),
{
    if ps.len() > 0 {
        let front = ps.drop_last();
        let (id, value) = ps.last();
        let s0 = store_pairs(g, front);
        let s = store_pairs(g, ps);
        lemma_store_pairs_facts(g, front);
        assert(s == store_pair(s0, id, value));
        assert forall|i: int| 0 <= i < g.len() implies (#[trigger] s[i]).id == g[i].id && (!s[i].yeeted <==> (
        !g[i].yeeted || exists|j: int| 0 <= j < ps.len() && ps[j].0 == g[i].id)) && ((forall|j: int|
            0 <= j < ps.len() ==> ps[j].0 != g[i].id) ==> s[i] == g[i]) by {
            let in_front = exists|j: int| 0 <= j < front.len() && front[j].0 == g[i].id;
            let in_ps = exists|j: int| 0 <= j < ps.len() && ps[j].0 == g[i].id;
            assert(s0[i].id == g[i].id);
            assert(!s0[i].yeeted <==> (!g[i].yeeted || in_front));
            if in_front {
                let j = choose|j: int| 0 <= j < front.len() && front[j].0 == g[i].id;
                assert(ps[j] == front[j]);
            }
            if forall|j: int| 0 <= j < ps.len() ==> ps[j].0 != g[i].id {
                assert forall|j: int| 0 <= j < front.len() implies front[j].0 != g[i].id by {
                    assert(ps[j] == front[j]);
                }
                assert(ps[ps.len() - 1].0 != g[i].id);
            }
            if has_id(s0, id) {
                let k = index_of(s0, id);
                assert(s0[k].id == id);
                if i == k {
                    assert(ps[ps.len() - 1].0 == g[i].id);
                } else {
                    assert(s[i] == s0[i]);
                    assert(g[k].id == id);
                    assert(g[i].id != id);
                    if in_ps {
                        let j = choose|j: int| 0 <= j < ps.len() && ps[j].0 == g[i].id;
                        assert(j != ps.len() - 1);
                        assert(front[j] == ps[j]);
                    }
                }
            } else {
                assert(s0[i].id != id);
                if in_ps {
                    let j = choose|j: int| 0 <= j < ps.len() && ps[j].0 == g[i].id;
                    assert(j != ps.len() - 1);
                    assert(front[j] == ps[j]);
                }
            }
        }
    }
}

/// A reload in two phases, as a file-backed definition does it: every entry
/// is marked as left over, the ids read are given keys, then values are
/// stored under ids.  Afterwards the entries already there keep their
/// positions and so their keys; an id is present exactly when it was present
/// before or was read; an entry is current exactly when some value was
/// stored under its id; and an entry under whose id nothing was stored
/// keeps its old value, or holds none when it is new.
pub proof fn law_two_phase_reload<T>(r: &Registry<T>, ids: Seq<Seq<char>>, stores: Seq<(Seq<char>, T)>)
    requires
        r.wf(),
    ensures
        ({
            let after = store_pairs(get_or_insert_all(yeet_entries(r@), ids), stores);
            &&& ids_unique(after)
            &&& after.len() >= r@.len()
            &&& forall|i: int| 0 <= i < r@.len() ==> (#[trigger] after[i]).id == r@[i].id
            &&& forall|x: Seq<char>|
                #[trigger] has_id(after, x) <==> (has_id(r@, x) || exists|j: int| 0 <= j < ids.len() && ids[j] == x)
            &&& forall|i: int|
                0 <= i < after.len() ==> (!(#[trigger] after[i]).yeeted <==> exists|j: int|
                    0 <= j < stores.len() && stores[j].0 == after[i].id)
            &&& forall|i: int|
                0 <= i < after.len() && (forall|j: int| 0 <= j < stores.len() ==> stores[j].0 != after[i].id)
                    ==> (#[trigger] after[i]).value == (if i < r@.len() {
                    r@[i].value
                } else {
                    None
                })
        }),
{
    r.lemma_wf_keys_match();
    let e = r@;
    let y = yeet_entries(e);
    assert(ids_unique(y)) by {
        assert forall|i: int, j: int| 0 <= i < y.len() && 0 <= j < y.len() && i != j implies (#[trigger] y[i]).id != (#[trigger] y[j]).id by {
            assert(e[i].id != e[j].id);
        }
    }
    let g = get_or_insert_all(y, ids);
    let after = store_pairs(g, stores);
    lemma_get_or_insert_all_facts(y, ids);
    lemma_store_pairs_facts(g, stores);
    assert forall|x: Seq<char>| has_id(y, x) <==> has_id(e, x) by {
        if has_id(y, x) {
            let i = choose|i: int| 0 <= i < y.len() && (#[trigger] y[i]).id == x;
            assert(e[i].id == x);
        }
        if has_id(e, x) {
            let i = choose|i: int| 0 <= i < e.len() && (#[trigger] e[i]).id == x;
            assert(y[i].id == x);
        }
    }
    assert(ids_unique(after)) by {
        assert forall|i: int, j: int| 0 <= i < after.len() && 0 <= j < after.len() && i != j implies (#[trigger] after[i]).id != (#[trigger] after[j]).id by {
            assert(g[i].id != g[j].id);
        }
    }
    assert forall|x: Seq<char>| #[trigger] has_id(after, x) <==> has_id(g, x) by {
        if has_id(after, x) {
            let i = choose|i: int| 0 <= i < after.len() && (#[trigger] after[i]).id == x;
            assert(g[i].id == x);
        }
        if has_id(g, x) {
            let i = choose|i: int| 0 <= i < g.len() && (#[trigger] g[i]).id == x;
            assert(after[i].id == x);
        }
    }
    assert forall|i: int| 0 <= i < r@.len() implies (#[trigger] after[i]).id == r@[i].id by {
        assert(g[i] == y[i]);
    }
    assert forall|i: int| 0 <= i < after.len() implies (!(#[trigger] after[i]).yeeted <==> exists|j: int|
        0 <= j < stores.len() && stores[j].0 == after[i].id) by {
        assert(after[i].id == g[i].id);
        if i < y.len() {
            assert(g[i] == y[i]);
        }
        assert(g[i].yeeted);
    }
    assert forall|i: int|
        0 <= i < after.len() && (forall|j: int| 0 <= j < stores.len() ==> stores[j].0 != after[i].id) implies (
    #[trigger] after[i]).value == (if i < r@.len() {
        r@[i].value
    } else {
        None
    }) by {
        assert(after[i].id == g[i].id);
        assert(after[i] == g[i]);
        if i < y.len() {
            assert(g[i] == y[i]);
        }
    }
}

} // verus!
