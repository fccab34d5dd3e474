use std::cell::RefCell;
use std::path::PathBuf;
use std::rc::Rc;

use good_ressource::error::RegistryDeserializeError;
use good_ressource::notify::{reload_if, triggers_reload, watch_recursively, ChangeKind};
use good_ressource::registry::key::UntypedKey;
use good_ressource::{ResourceDef, ResourceKeyMap, ResourcePathKind};

/// A resource definition that records what is done to it.
struct Recorder {
    name: &'static str,
    log: Rc<RefCell<Vec<String>>>,
    fail_keys: bool,
    fail_values: bool,
}

#[derive(Clone, Copy)]
struct NoKeys;

impl ResourceKeyMap for NoKeys {
    fn get_key_untyped(&self, _id: &str, _type_id: std::any::TypeId) -> Option<UntypedKey> {
        None
    }
}

impl ResourceDef for Recorder {
    type Error = String;
    type KeyMap = NoKeys;
    type ValueMap = (&'static str, Rc<RefCell<Vec<String>>>, bool);

    fn visit_resource_paths<E>(
        &self,
        mut visitor: impl FnMut(&PathBuf, ResourcePathKind) -> Result<(), E>,
    ) -> Result<(), E> {
        visitor(&PathBuf::from(self.name), ResourcePathKind::Directory)
    }

    fn load_keys(self) -> Result<(Self::KeyMap, Self::ValueMap), Self::Error> {
        self.log.borrow_mut().push(format!("keys {}", self.name));
        if self.fail_keys {
            return Err(format!("no keys {}", self.name));
        }
        Ok((NoKeys, (self.name, self.log, self.fail_values)))
    }

    fn load_values<K: ResourceKeyMap>(_keys: &K, values: Self::ValueMap) -> Result<(), Self::Error> {
        values.1.borrow_mut().push(format!("values {}", values.0));
        if values.2 {
            return Err(format!("no values {}", values.0));
        }
        Ok(())
    }
}

fn recorder(name: &'static str, log: &Rc<RefCell<Vec<String>>>) -> Recorder {
    Recorder { name, log: log.clone(), fail_keys: false, fail_values: false }
}

#[test]
fn loading_a_tuple_reads_all_keys_before_any_value() {
    let log = Rc::new(RefCell::new(Vec::new()));
    let def = (recorder("a", &log), recorder("b", &log), recorder("c", &log));
    assert_eq!(def.load(), Ok(()));
    assert_eq!(
        *log.borrow(),
        vec!["keys a", "keys b", "keys c", "values a", "values b", "values c"]
    );
}

#[test]
fn loading_stops_at_the_first_error() {
    let log = Rc::new(RefCell::new(Vec::new()));
    let mut second = recorder("b", &log);
    second.fail_keys = true;
    let def = (recorder("a", &log), second, recorder("c", &log));
    assert_eq!(def.load(), Err("no keys b".to_string()));
    assert_eq!(*log.borrow(), vec!["keys a", "keys b"]);

    let log = Rc::new(RefCell::new(Vec::new()));
    let mut first = recorder("a", &log);
    first.fail_values = true;
    let def = (first, recorder("b", &log));
    assert_eq!(def.load(), Err("no values a".to_string()));
    assert_eq!(*log.borrow(), vec!["keys a", "keys b", "values a"]);
}

#[test]
fn a_tuple_visits_the_paths_of_each_member_in_order() {
    let log = Rc::new(RefCell::new(Vec::new()));
    let def = (recorder("a", &log), recorder("b", &log));
    let mut seen = Vec::new();
    let r: Result<(), ()> = def.visit_resource_paths(|p, k| {
        seen.push((p.clone(), k));
        Ok(())
    });
    assert_eq!(r, Ok(()));
    assert_eq!(
        seen,
        vec![
            (PathBuf::from("a"), ResourcePathKind::Directory),
            (PathBuf::from("b"), ResourcePathKind::Directory)
        ]
    );
    let mut count = 0;
    let r: Result<(), u32> = def.visit_resource_paths(|_, _| {
        count += 1;
        Err(7)
    });
    assert_eq!(r, Err(7));
    assert_eq!(count, 1);
}

#[test]
fn reload_happens_only_when_needed() {
    let log = Rc::new(RefCell::new(Vec::new()));
    assert_eq!(reload_if(false, recorder("a", &log)), Ok(false));
    assert!(log.borrow().is_empty());
    assert_eq!(reload_if(true, recorder("a", &log)), Ok(true));
    assert_eq!(*log.borrow(), vec!["keys a", "values a"]);
    let mut failing = recorder("b", &log);
    failing.fail_values = true;
    assert_eq!(reload_if(true, failing), Err("no values b".to_string()));
}

#[test]
fn only_creation_change_and_removal_trigger_a_reload() {
    assert!(triggers_reload(ChangeKind::Create));
    assert!(triggers_reload(ChangeKind::Modify));
    assert!(triggers_reload(ChangeKind::Remove));
    assert!(!triggers_reload(ChangeKind::Any));
    assert!(!triggers_reload(ChangeKind::Access));
    assert!(!triggers_reload(ChangeKind::Other));
}

#[test]
fn only_recursive_directories_are_watched_recursively() {
    assert!(watch_recursively(ResourcePathKind::RecursiveDirectory));
    assert!(!watch_recursively(ResourcePathKind::Directory));
    assert!(!watch_recursively(ResourcePathKind::File));
}

#[test]
fn io_errors_convert_to_the_io_variant() {
    let e: RegistryDeserializeError<u8> =
        std::io::Error::new(std::io::ErrorKind::NotFound, "gone").into();
    match e {
        RegistryDeserializeError::Io(inner) => assert_eq!(inner.kind(), std::io::ErrorKind::NotFound),
        RegistryDeserializeError::Deserialize(_) => panic!("expected an io error"),
    }
    let d: RegistryDeserializeError<u8> = RegistryDeserializeError::Deserialize(3);
    assert!(matches!(d, RegistryDeserializeError::Deserialize(3)));
}
