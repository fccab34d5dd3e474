use good_ressource::registry::entry::EntryMut;
use good_ressource::registry::key::Key;
use good_ressource::registry::Registry;

fn s(x: &str) -> String {
    x.to_string()
}

#[test]
fn new_registry_is_empty() {
    let r: Registry<u32> = Registry::new();
    assert_eq!(r.len(), 0);
    assert!(r.is_empty());
    assert!(r.iter().is_empty());
    let d: Registry<u32> = Registry::default();
    assert!(d.is_empty());
    let c: Registry<u32> = Registry::with_capacity(8);
    assert!(c.is_empty());
}

#[test]
fn keys_are_handed_out_in_order_of_first_sight() {
    let mut r: Registry<u32> = Registry::new();
    let a = r.get_or_insert_key(s("a"));
    let b = r.get_or_insert_key(s("b"));
    let a2 = r.get_or_insert_key(s("a"));
    assert_eq!(a, a2);
    assert_ne!(a, b);
    assert!(a < b);
    assert_eq!(r.len(), 2);
    let entries = r.iter();
    assert_eq!(entries[0].id, "a");
    assert_eq!(entries[0].key, a);
    assert_eq!(entries[1].id, "b");
    assert_eq!(entries[1].key, b);
}

#[test]
fn asking_twice_for_a_key_changes_nothing() {
    let mut r: Registry<u32> = Registry::new();
    let k1 = r.get_or_insert_key(s("mob"));
    r.insert_value(k1, 5);
    let k2 = r.get_or_insert_key(s("mob"));
    assert_eq!(k1, k2);
    assert_eq!(r.len(), 1);
    assert_eq!(r[k2], 5);
    assert!(!r.entry(k2).yeeted);
}

#[test]
fn new_entry_has_no_value_and_is_stale() {
    let mut r: Registry<u32> = Registry::new();
    let k = r.get_or_insert_key(s("x"));
    let e = r.entry(k);
    assert_eq!(e.key, k);
    assert_eq!(e.id, "x");
    assert_eq!(e.value, None);
    assert!(e.yeeted);
}

#[test]
fn lookup_after_get_or_insert_finds_the_key() {
    let mut r: Registry<u32> = Registry::new();
    assert_eq!(r.get_key("x"), None);
    let k = r.get_or_insert_key(s("x"));
    assert_eq!(r.get_key("x"), Some(k));
    assert_eq!(r.get_key("y"), None);
}

#[test]
fn insert_value_returns_the_previous_value() {
    let mut r: Registry<String> = Registry::new();
    let k = r.get_or_insert_key(s("x"));
    assert_eq!(r.insert_value(k, s("first")), None);
    assert_eq!(r.insert_value(k, s("second")), Some(s("first")));
    let e = r.entry(k);
    assert_eq!(e.value, Some(&s("second")));
    assert!(!e.yeeted);
    assert_eq!(r.value(k), "second");
}

#[test]
fn yeet_all_marks_every_entry_and_keeps_values() {
    let mut r: Registry<u32> = Registry::new();
    let a = r.get_or_insert_key(s("a"));
    let b = r.get_or_insert_key(s("b"));
    r.insert_value(a, 1);
    r.insert_value(b, 2);
    r.yeet_all();
    assert!(r.entry(a).yeeted);
    assert!(r.entry(b).yeeted);
    assert_eq!(r[a], 1);
    assert_eq!(r[b], 2);
    r.insert_value(a, 3);
    assert!(!r.entry(a).yeeted);
    assert!(r.entry(b).yeeted);
}

#[test]
fn entry_mut_changes_the_value_in_place() {
    let mut r: Registry<u32> = Registry::new();
    let a = r.get_or_insert_key(s("a"));
    r.insert_value(a, 1);
    {
        let e: EntryMut<'_, u32> = r.entry_mut(a);
        assert_eq!(e.id, "a");
        assert_eq!(e.key, a);
        *e.value.unwrap() += 10;
    }
    assert_eq!(r[a], 11);
    let b = r.get_or_insert_key(s("b"));
    assert!(r.entry_mut(b).value.is_none());
}

#[test]
fn iter_mut_visits_every_entry_in_key_order() {
    let mut r: Registry<u32> = Registry::from_pairs(vec![(s("a"), 1), (s("b"), 2)]);
    let c = r.get_or_insert_key(s("c"));
    for e in r.iter_mut() {
        if let Some(v) = e.value {
            *v *= 100;
        }
    }
    assert_eq!(r[Key::clone(&r.get_key("a").unwrap())], 100);
    assert_eq!(r[r.get_key("b").unwrap()], 200);
    assert_eq!(r.entry(c).value, None);
    let ids: Vec<String> = r.iter().iter().map(|e| e.id.to_string()).collect();
    assert_eq!(ids, vec![s("a"), s("b"), s("c")]);
}

#[test]
fn from_pairs_keeps_the_last_value_for_an_id() {
    let r = Registry::from_pairs(vec![(s("a"), 1), (s("b"), 2), (s("a"), 3)]);
    assert_eq!(r.len(), 2);
    let entries = r.iter();
    assert_eq!(entries[0].id, "a");
    assert_eq!(entries[0].value, Some(&3));
    assert_eq!(entries[1].id, "b");
    assert_eq!(entries[1].value, Some(&2));
    assert!(!entries[0].yeeted);
}

#[test]
fn extend_pairs_updates_and_appends() {
    let mut r = Registry::from_pairs(vec![(s("a"), 1)]);
    r.yeet_all();
    r.extend_pairs(vec![(s("b"), 2), (s("a"), 4)]);
    assert_eq!(r.len(), 2);
    assert_eq!(r[r.get_key("a").unwrap()], 4);
    assert_eq!(r[r.get_key("b").unwrap()], 2);
    assert!(!r.entry(r.get_key("a").unwrap()).yeeted);
}

#[test]
fn split_mut_stores_values_by_id() {
    let mut r: Registry<u32> = Registry::new();
    let a = r.get_or_insert_key(s("a"));
    let b = r.get_or_insert_key(s("b"));
    {
        let (keys, values) = r.split_mut();
        assert_eq!(values.len(), 2);
        assert_eq!(values.store(keys, "b", 7), Ok(b));
        assert_eq!(values.store(keys, "zzz", 9), Err(9));
        assert!(values.contains_key(a));
        assert_eq!(values.replace_value(a, 1), None);
        assert_eq!(values.replace_value(a, 2), Some(1));
    }
    assert_eq!(r[a], 2);
    assert_eq!(r[b], 7);
    assert_eq!(r.len(), 2);
    assert_eq!(r.get_key("zzz"), None);
}

#[test]
fn keys_beyond_the_entries_are_not_contained() {
    let mut big: Registry<u32> = Registry::new();
    big.get_or_insert_key(s("a"));
    let k = big.get_or_insert_key(s("b"));
    let mut small: Registry<u32> = Registry::from_pairs(vec![(s("a"), 1)]);
    let (_, values) = small.split_mut();
    assert!(!values.contains_key(k));
}

#[test]
fn a_reload_leaves_unmentioned_entries_stale_with_their_old_values() {
    let mut r = Registry::from_pairs(vec![(s("a"), 1), (s("b"), 2), (s("c"), 3)]);
    r.yeet_all();
    r.extend_pairs(vec![(s("c"), 30), (s("d"), 40), (s("a"), 10)]);
    let entries = r.iter();
    let seen: Vec<(String, Option<u32>, bool)> =
        entries.iter().map(|e| (e.id.to_string(), e.value.copied(), e.yeeted)).collect();
    assert_eq!(
        seen,
        vec![
            (s("a"), Some(10), false),
            (s("b"), Some(2), true),
            (s("c"), Some(30), false),
            (s("d"), Some(40), false),
        ]
    );
}

#[test]
fn a_clone_keeps_ids_keys_marks_and_values() {
    let mut r = Registry::from_pairs(vec![(s("a"), s("x")), (s("b"), s("y"))]);
    let c = r.get_or_insert_key(s("c"));
    r.yeet_all();
    let copy = r.clone();
    assert_eq!(copy.len(), 3);
    assert_eq!(copy.get_key("a"), r.get_key("a"));
    assert_eq!(copy.get_key("c"), Some(c));
    assert_eq!(copy[copy.get_key("b").unwrap()], "y");
    assert_eq!(copy.entry(c).value, None);
    assert!(copy.entry(c).yeeted);
    r.insert_value(c, s("z"));
    assert_eq!(copy.entry(c).value, None);
}

#[test]
fn reload_keeps_old_keys_and_marks_what_it_did_not_read() {
    let mut r = Registry::from_pairs(vec![(s("a"), 1), (s("b"), 2), (s("c"), 3)]);
    let b = r.get_key("b").unwrap();
    let c = r.get_key("c").unwrap();
    r.reload(vec![(s("c"), 30), (s("d"), 40), (s("c"), 31)]);
    assert_eq!(r.len(), 4);
    assert_eq!(r.get_key("b"), Some(b));
    assert_eq!(r.get_key("c"), Some(c));
    assert!(r.entry(b).yeeted);
    assert_eq!(r.entry(b).value, Some(&2));
    assert!(!r.entry(c).yeeted);
    assert_eq!(r[c], 31);
    assert!(r.entry(r.get_key("a").unwrap()).yeeted);
    assert_eq!(r[r.get_key("d").unwrap()], 40);
}

#[test]
fn index_mut_changes_the_value_in_place() {
    let mut r = Registry::from_pairs(vec![(s("a"), 1), (s("b"), 2)]);
    let a = r.get_key("a").unwrap();
    r.yeet_all();
    r[a] += 10;
    assert_eq!(r[a], 11);
    assert!(r.entry(a).yeeted);
    *r.value_mut(a) = 20;
    assert_eq!(r[a], 20);
    assert_eq!(r[r.get_key("b").unwrap()], 2);
}

#[test]
fn extending_twice_equals_extending_once_by_both() {
    let mut r1 = Registry::from_pairs(vec![(s("a"), 1)]);
    r1.extend_pairs(vec![(s("b"), 2), (s("a"), 3)]);
    r1.extend_pairs(vec![(s("c"), 4), (s("b"), 5)]);
    let mut r2 = Registry::from_pairs(vec![(s("a"), 1)]);
    r2.extend_pairs(vec![(s("b"), 2), (s("a"), 3), (s("c"), 4), (s("b"), 5)]);
    let v1: Vec<(String, Option<u32>, bool)> = r1.iter().iter().map(|e| (e.id.to_string(), e.value.copied(), e.yeeted)).collect();
    let v2: Vec<(String, Option<u32>, bool)> = r2.iter().iter().map(|e| (e.id.to_string(), e.value.copied(), e.yeeted)).collect();
    assert_eq!(v1, v2);
    assert_eq!(r1.get_key("c"), r2.get_key("c"));
}

#[test]
fn a_two_phase_reload_marks_entries_no_value_was_stored_under() {
    let mut r = Registry::from_pairs(vec![(s("a"), 1), (s("b"), 2)]);
    let b = r.get_key("b").unwrap();
    r.yeet_all();
    let c = r.get_or_insert_key(s("c"));
    let a = r.get_or_insert_key(s("a"));
    let (keys, values) = r.split_mut();
    assert_eq!(values.store(keys, "a", 10), Ok(a));
    assert_eq!(values.store(keys, "z", 99), Err(99));
    assert!(!r.entry(a).yeeted);
    assert_eq!(r[a], 10);
    assert!(r.entry(b).yeeted);
    assert_eq!(r.entry(b).value, Some(&2));
    assert!(r.entry(c).yeeted);
    assert_eq!(r.entry(c).value, None);
    assert_eq!(r.get_key("z"), None);
}
