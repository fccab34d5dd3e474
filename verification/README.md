# good_ressource

Registries of game resources: values of one type, each stored under a string
id and reached through a key that stays valid for the registry's lifetime.
Resource definitions load registries in two steps, first the ids of every
entry and then the values, so that a value can refer to entries of any
registry by key.

The two loading traits, `ResourceKeyMap` and `ResourceDef`, describe their
outcomes through spec functions (`finds`, `visits`, `keys_loaded`,
`values_loaded`) whose default is `true`.  The tuple impls in `src/` define
them in terms of their members.  The key map of a registry says that an
answer names the id's key under the asked type identity and that an unknown
id has no key; whether a known id is found depends on the type identity,
which only the functions that take it as an argument state.  An impl that keeps the
default, such as the file and directory definitions in `app/` or one written
by a user, has no loading contract beyond what its own code does.

## Layout

- `src/` is the verified library (Verus).
  - `registry/` holds the registry itself (`mod.rs`), its entries and keys,
    the model its contracts are written in (`spec.rs`), key lookup across
    value types (`keymap.rs`), the rule for which files of a directory are
    read (`files.rs`), and proofs of what holds across calls (`laws.rs`).
  - `lib.rs` holds the key-lookup and resource-definition traits, with their
    impls for tuples; `notify.rs` decides when watched files call for a
    reload; `error.rs` the loading error; `type_tag.rs` runtime type identity.
- `app/` is ordinary Rust around it: file and directory loading with serde
  (RON and JSON), the serde adapters that read keys as ids, and the file
  watcher.
- `tests/` exercises the library.
