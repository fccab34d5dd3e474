use good_ressource::registry::key::UntypedKey;
use good_ressource::registry::keymap::lookup_untyped;
use good_ressource::registry::Registry;
use good_ressource::ResourceKeyMap;
use std::any::TypeId;

#[test]
fn untyped_key_casts_back_to_its_own_type_only() {
    let mut r: Registry<u32> = Registry::new();
    r.get_or_insert_key("zero".to_string());
    let k = r.get_or_insert_key("one".to_string());
    let u: UntypedKey = k.as_untyped();
    assert_eq!(u.cast::<u32>(), Some(k));
    assert_eq!(u.cast::<String>(), None);
    assert_eq!(u.cast_with::<u32>(TypeId::of::<u32>()), Some(k));
    assert_eq!(u.cast_with::<u32>(TypeId::of::<i64>()), None);
}

#[test]
fn untyped_keys_compare_by_position_and_type() {
    let mut a: Registry<u32> = Registry::new();
    let mut b: Registry<String> = Registry::new();
    let ka = a.get_or_insert_key("x".to_string());
    let kb = b.get_or_insert_key("x".to_string());
    assert_eq!(ka.as_untyped(), ka.as_untyped());
    assert_ne!(ka.as_untyped(), kb.as_untyped());
    let tagged = ka.as_untyped_with(TypeId::of::<String>());
    assert_eq!(tagged, kb.as_untyped());
}

#[test]
fn key_map_answers_only_for_its_own_type() {
    let mut r: Registry<u32> = Registry::new();
    r.get_or_insert_key("a".to_string());
    let k = r.get_or_insert_key("b".to_string());
    let (keys, _) = r.split_mut();
    let keys = &*keys;
    assert_eq!(keys.get_key::<u32>("b"), Some(k));
    assert_eq!(keys.get_key::<u32>("c"), None);
    assert_eq!(keys.get_key::<String>("b"), None);
    assert_eq!(keys.get_key_untyped("b", TypeId::of::<u32>()), Some(k.as_untyped()));
    assert_eq!(lookup_untyped(keys, "b", TypeId::of::<u8>(), TypeId::of::<u32>()), None);
    assert_eq!(
        lookup_untyped(keys, "b", TypeId::of::<u32>(), TypeId::of::<u32>()),
        Some(k.as_untyped())
    );
}

#[test]
fn tuple_key_maps_ask_each_member_in_turn() {
    let mut mobs: Registry<u32> = Registry::new();
    let mut worlds: Registry<String> = Registry::new();
    let m = mobs.get_or_insert_key("orc".to_string());
    let w = worlds.get_or_insert_key("earth".to_string());
    let wo = worlds.get_or_insert_key("orc".to_string());
    let (mk, _) = mobs.split_mut();
    let (wk, _) = worlds.split_mut();
    let both = (&*mk, &*wk);
    assert_eq!(both.get_key::<u32>("orc"), Some(m));
    assert_eq!(both.get_key::<String>("earth"), Some(w));
    assert_eq!(both.get_key::<String>("orc"), Some(wo));
    assert_eq!(both.get_key::<u32>("earth"), None);
    assert_eq!(both.get_key::<u64>("orc"), None);
    let one = (&*mk,);
    assert_eq!(one.get_key::<u32>("orc"), Some(m));
}
