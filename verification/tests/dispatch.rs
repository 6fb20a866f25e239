use key_value::dispatch::{Config, ImplConfig, KeyValueDispatch};
use key_value::sqlite::DatabaseLocation;
use key_value::{Error, KeyValue, KeyValueComponent};
use std::path::PathBuf;

fn in_memory(name: &str) -> Config {
    Config { configs: vec![(name.to_owned(), ImplConfig::Sqlite(DatabaseLocation::InMemory))] }
}

fn unreachable_file() -> DatabaseLocation {
    DatabaseLocation::Path(PathBuf::from("/nonexistent-directory/of/key_value/tests.db"))
}

#[test]
fn all() {
    let mut kv = KeyValueDispatch::new(in_memory(""));

    assert!(matches!(kv.key_exists(42, "bar"), Err(Error::InvalidStore)));

    assert!(matches!(kv.open("foo"), Err(Error::NoSuchStore)));

    let store = kv.open("").unwrap();

    assert!(!kv.key_exists(store, "bar").unwrap());

    assert!(matches!(kv.get(store, "bar"), Err(Error::NoSuchKey)));

    kv.set(store, "bar", b"baz").unwrap();

    assert!(kv.key_exists(store, "bar").unwrap());

    assert_eq!(b"baz" as &[u8], &kv.get(store, "bar").unwrap()[..]);

    kv.set(store, "bar", b"wow").unwrap();

    assert_eq!(b"wow" as &[u8], &kv.get(store, "bar").unwrap()[..]);

    kv.delete(store, "bar").unwrap();

    assert!(!kv.key_exists(store, "bar").unwrap());

    assert!(matches!(kv.get(store, "bar"), Err(Error::NoSuchKey)));

    kv.close(store);

    assert!(matches!(kv.key_exists(store, "bar"), Err(Error::InvalidStore)));
}

#[test]
fn scenario_on_store_named_s() {
    let mut kv = KeyValueDispatch::new(in_memory("s"));
    let s = kv.open("s").unwrap();
    assert_eq!(kv.key_exists(s, "bar").unwrap(), false);
    assert!(matches!(kv.get(s, "bar"), Err(Error::NoSuchKey)));
    assert!(kv.set(s, "bar", b"baz").is_ok());
    assert_eq!(kv.key_exists(s, "bar").unwrap(), true);
    assert_eq!(kv.get(s, "bar").unwrap(), b"baz".to_vec());
    assert!(kv.set(s, "bar", b"wow").is_ok());
    assert_eq!(kv.get(s, "bar").unwrap(), b"wow".to_vec());
    assert!(kv.delete(s, "bar").is_ok());
    assert_eq!(kv.key_exists(s, "bar").unwrap(), false);
    assert!(matches!(kv.get(s, "bar"), Err(Error::NoSuchKey)));
    kv.close(s);
    assert!(matches!(kv.key_exists(s, "bar"), Err(Error::InvalidStore)));
}

#[test]
fn never_opened_handle_is_invalid_for_every_operation() {
    let mut kv = KeyValueDispatch::new(in_memory("s"));
    for handle in [0u32, 1, 42, u32::MAX] {
        assert!(matches!(kv.get(handle, "k"), Err(Error::InvalidStore)));
        assert!(matches!(kv.set(handle, "k", b"v"), Err(Error::InvalidStore)));
        assert!(matches!(kv.delete(handle, "k"), Err(Error::InvalidStore)));
        assert!(matches!(kv.key_exists(handle, "k"), Err(Error::InvalidStore)));
    }
    let s = kv.open("s").unwrap();
    assert!(matches!(kv.get(s + 1, "k"), Err(Error::InvalidStore)));
}

#[test]
fn closed_handle_is_invalid_for_every_operation() {
    let mut kv = KeyValueDispatch::new(in_memory("s"));
    let s = kv.open("s").unwrap();
    kv.set(s, "k", b"v").unwrap();
    kv.close(s);
    assert!(matches!(kv.get(s, "k"), Err(Error::InvalidStore)));
    assert!(matches!(kv.set(s, "k", b"v"), Err(Error::InvalidStore)));
    assert!(matches!(kv.delete(s, "k"), Err(Error::InvalidStore)));
    assert!(matches!(kv.key_exists(s, "k"), Err(Error::InvalidStore)));
}

#[test]
fn close_is_idempotent_and_spares_other_handles() {
    let mut kv = KeyValueDispatch::new(in_memory("s"));
    kv.close(7);
    let a = kv.open("s").unwrap();
    let b = kv.open("s").unwrap();
    kv.close(a);
    kv.close(a);
    assert!(matches!(kv.key_exists(a, "k"), Err(Error::InvalidStore)));
    assert_eq!(kv.key_exists(b, "k").unwrap(), false);
}

#[test]
fn round_trip_keeps_every_byte() {
    let mut kv = KeyValueDispatch::new(in_memory("s"));
    let s = kv.open("s").unwrap();
    let all_bytes: Vec<u8> = (0..=255u8).collect();
    kv.set(s, "bytes", &all_bytes).unwrap();
    assert_eq!(kv.get(s, "bytes").unwrap(), all_bytes);
    kv.set(s, "empty", b"").unwrap();
    assert_eq!(kv.get(s, "empty").unwrap(), Vec::<u8>::new());
    assert_eq!(kv.key_exists(s, "empty").unwrap(), true);
    kv.set(s, "", b"empty key").unwrap();
    assert_eq!(kv.get(s, "").unwrap(), b"empty key".to_vec());
}

#[test]
fn set_overwrites_and_does_not_append() {
    let mut kv = KeyValueDispatch::new(in_memory("s"));
    let s = kv.open("s").unwrap();
    kv.set(s, "k", b"first").unwrap();
    kv.set(s, "k", b"2").unwrap();
    assert_eq!(kv.get(s, "k").unwrap(), b"2".to_vec());
}

#[test]
fn delete_of_absent_key_succeeds_and_changes_nothing() {
    let mut kv = KeyValueDispatch::new(in_memory("s"));
    let s = kv.open("s").unwrap();
    kv.set(s, "kept", b"v").unwrap();
    assert!(kv.delete(s, "absent").is_ok());
    assert!(kv.delete(s, "absent").is_ok());
    assert_eq!(kv.get(s, "kept").unwrap(), b"v".to_vec());
    assert!(matches!(kv.get(s, "absent"), Err(Error::NoSuchKey)));
}

#[test]
fn exists_follows_set_and_delete() {
    let mut kv = KeyValueDispatch::new(in_memory("s"));
    let s = kv.open("s").unwrap();
    assert_eq!(kv.key_exists(s, "k").unwrap(), false);
    kv.set(s, "k", b"v").unwrap();
    assert_eq!(kv.key_exists(s, "k").unwrap(), true);
    kv.delete(s, "k").unwrap();
    assert_eq!(kv.key_exists(s, "k").unwrap(), false);
}

#[test]
fn open_hands_out_distinct_handles_and_skips_live_ones() {
    let mut kv = KeyValueDispatch::new(in_memory("s"));
    assert_eq!(kv.open("s").unwrap(), 0);
    assert_eq!(kv.open("s").unwrap(), 1);
    kv.close(0);
    assert_eq!(kv.open("s").unwrap(), 2);
    assert!(matches!(kv.key_exists(0, "k"), Err(Error::InvalidStore)));
}

#[test]
fn unconfigured_name_allocates_no_handle() {
    let mut kv = KeyValueDispatch::new(in_memory("s"));
    assert!(matches!(kv.open("other"), Err(Error::NoSuchStore)));
    assert!(matches!(kv.open(""), Err(Error::NoSuchStore)));
    assert!(matches!(kv.key_exists(0, "k"), Err(Error::InvalidStore)));
    assert_eq!(kv.open("s").unwrap(), 0);
}

#[test]
fn empty_configuration_knows_no_store() {
    let mut kv = KeyValueDispatch::new(Config { configs: vec![] });
    assert!(matches!(kv.open(""), Err(Error::NoSuchStore)));
}

#[test]
fn stores_of_one_backend_share_the_partition_of_their_name() {
    let mut kv = KeyValueDispatch::new(in_memory("s"));
    let a = kv.open("s").unwrap();
    let b = kv.open("s").unwrap();
    kv.set(a, "k", b"v").unwrap();
    assert_eq!(kv.get(b, "k").unwrap(), b"v".to_vec());
    kv.close(a);
    assert_eq!(kv.get(b, "k").unwrap(), b"v".to_vec());
}

#[test]
fn backends_of_different_names_are_separate() {
    let config = Config {
        configs: vec![
            ("one".to_owned(), ImplConfig::Sqlite(DatabaseLocation::InMemory)),
            ("two".to_owned(), ImplConfig::Sqlite(DatabaseLocation::InMemory)),
        ],
    };
    let mut kv = KeyValueDispatch::new(config);
    let one = kv.open("one").unwrap();
    let two = kv.open("two").unwrap();
    kv.set(one, "k", b"v").unwrap();
    assert!(matches!(kv.get(two, "k"), Err(Error::NoSuchKey)));
}

#[test]
fn backend_that_cannot_connect_reports_a_storage_error() {
    let config = Config { configs: vec![("bad".to_owned(), ImplConfig::Sqlite(unreachable_file()))] };
    let mut kv = KeyValueDispatch::new(config);
    match kv.open("bad") {
        Err(Error::Store(detail)) => assert!(!detail.is_empty()),
        other => panic!("expected a storage error, got {:?}", other),
    }
    assert!(matches!(kv.key_exists(0, "k"), Err(Error::InvalidStore)));
    assert!(matches!(kv.open("bad"), Err(Error::Store(_))));
}

#[test]
fn last_entry_of_a_repeated_name_counts() {
    let good_last = Config {
        configs: vec![
            ("s".to_owned(), ImplConfig::Sqlite(unreachable_file())),
            ("s".to_owned(), ImplConfig::Sqlite(DatabaseLocation::InMemory)),
        ],
    };
    assert!(KeyValueDispatch::new(good_last).open("s").is_ok());
    let bad_last = Config {
        configs: vec![
            ("s".to_owned(), ImplConfig::Sqlite(DatabaseLocation::InMemory)),
            ("s".to_owned(), ImplConfig::Sqlite(unreachable_file())),
        ],
    };
    assert!(matches!(KeyValueDispatch::new(bad_last).open("s"), Err(Error::Store(_))));
}

#[test]
fn component_builds_independent_dispatchers() {
    let component = KeyValueComponent::new(in_memory("s"));
    let mut first = component.build_data();
    let mut second = component.build_data();
    let a = first.open("s").unwrap();
    let b = second.open("s").unwrap();
    first.set(a, "k", b"v").unwrap();
    assert!(matches!(second.get(b, "k"), Err(Error::NoSuchKey)));
    assert!(matches!(second.open("t"), Err(Error::NoSuchStore)));
}

#[test]
fn configuration_clone_keeps_names_and_kinds() {
    let config = in_memory("s");
    let copy = config.clone();
    assert_eq!(copy.configs.len(), 1);
    assert_eq!(copy.configs[0].0, "s");
    assert!(matches!(copy.configs[0].1, ImplConfig::Sqlite(DatabaseLocation::InMemory)));
    let mut kv = KeyValueDispatch::new(copy);
    assert!(kv.open("s").is_ok());
}
