use key_value::sqlite::DatabaseLocation;
use key_value::standalone::KeyValueSqlite;
use key_value::{Error, KeyValue};
use std::path::PathBuf;

#[test]
fn lib_all() {
    let mut kv = KeyValueSqlite::at(DatabaseLocation::InMemory);

    assert!(matches!(kv.key_exists(42, "bar"), Err(Error::InvalidNamespace)));

    let namespace = kv.open("foo").unwrap();

    assert!(!kv.key_exists(namespace, "bar").unwrap());

    assert!(matches!(kv.get(namespace, "bar"), Err(Error::NoSuchKey)));

    kv.set(namespace, "bar", b"baz").unwrap();

    assert!(kv.key_exists(namespace, "bar").unwrap());

    assert_eq!(b"baz" as &[u8], &kv.get(namespace, "bar").unwrap()[..]);

    kv.set(namespace, "bar", b"wow").unwrap();

    assert_eq!(b"wow" as &[u8], &kv.get(namespace, "bar").unwrap()[..]);

    kv.delete(namespace, "bar").unwrap();

    assert!(!kv.key_exists(namespace, "bar").unwrap());

    assert!(matches!(kv.get(namespace, "bar"), Err(Error::NoSuchKey)));

    kv.close(namespace);

    assert!(matches!(kv.key_exists(namespace, "bar"), Err(Error::InvalidNamespace)));
}

#[test]
fn standalone_open_needs_no_database() {
    let unreachable = DatabaseLocation::Path(PathBuf::from("/nonexistent-directory/kv.db"));
    let mut kv = KeyValueSqlite::at(unreachable);
    let namespace = kv.open("foo").unwrap();
    assert_eq!(namespace, 0);
    assert!(matches!(kv.get(namespace, "k"), Err(Error::Store(_))));
    assert!(matches!(kv.set(namespace, "k", b"v"), Err(Error::Store(_))));
    assert!(matches!(kv.delete(namespace, "k"), Err(Error::Store(_))));
    assert!(matches!(kv.key_exists(namespace, "k"), Err(Error::Store(_))));
}

#[test]
fn standalone_unknown_namespace_wins_over_an_unreachable_database() {
    let unreachable = DatabaseLocation::Path(PathBuf::from("/nonexistent-directory/kv.db"));
    let mut kv = KeyValueSqlite::at(unreachable);
    assert!(matches!(kv.get(3, "k"), Err(Error::InvalidNamespace)));
    assert!(matches!(kv.set(3, "k", b"v"), Err(Error::InvalidNamespace)));
    assert!(matches!(kv.delete(3, "k"), Err(Error::InvalidNamespace)));
    assert!(matches!(kv.key_exists(3, "k"), Err(Error::InvalidNamespace)));
}

#[test]
fn standalone_namespaces_of_one_name_share_their_keys() {
    let mut kv = KeyValueSqlite::at(DatabaseLocation::InMemory);
    let a = kv.open("shared").unwrap();
    let b = kv.open("shared").unwrap();
    let c = kv.open("other").unwrap();
    assert_eq!((a, b, c), (0, 1, 2));
    kv.set(a, "k", b"v").unwrap();
    assert_eq!(kv.get(b, "k").unwrap(), b"v".to_vec());
    assert!(matches!(kv.get(c, "k"), Err(Error::NoSuchKey)));
}

#[test]
fn standalone_close_keeps_what_was_stored() {
    let mut kv = KeyValueSqlite::at(DatabaseLocation::InMemory);
    let a = kv.open("kept").unwrap();
    kv.set(a, "k", b"").unwrap();
    kv.close(a);
    kv.close(a);
    assert!(matches!(kv.get(a, "k"), Err(Error::InvalidNamespace)));
    let b = kv.open("kept").unwrap();
    assert_ne!(a, b);
    assert_eq!(kv.get(b, "k").unwrap(), Vec::<u8>::new());
    assert_eq!(kv.key_exists(b, "k").unwrap(), true);
}

#[test]
fn standalone_overwrite_and_delete() {
    let mut kv = KeyValueSqlite::at(DatabaseLocation::InMemory);
    let n = kv.open("n").unwrap();
    kv.set(n, "k", b"one").unwrap();
    kv.set(n, "k", b"two").unwrap();
    assert_eq!(kv.get(n, "k").unwrap(), b"two".to_vec());
    assert!(kv.delete(n, "missing").is_ok());
    kv.delete(n, "k").unwrap();
    assert!(matches!(kv.get(n, "k"), Err(Error::NoSuchKey)));
    assert_eq!(kv.key_exists(n, "k").unwrap(), false);
}
