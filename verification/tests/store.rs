use key_value::dispatch::{Config, ImplConfig, KeyValueDispatch};
use key_value::sqlite::DatabaseLocation;
use key_value::standalone::KeyValueSqlite;
use key_value::{Error, KeyValueSqliteComponent, Store};

fn host() -> KeyValueDispatch {
    KeyValueDispatch::new(Config {
        configs: vec![("".to_owned(), ImplConfig::Sqlite(DatabaseLocation::InMemory))],
    })
}

#[test]
fn store_counts_views() {
    let mut host = host();
    let store = Store::open(&mut host, "").unwrap();
    assert!(matches!(store.get(&mut host, "/app-data"), Err(Error::NoSuchKey)));
    store.set(&mut host, "/app-data", b"{\"view_count\":1}").unwrap();
    assert_eq!(store.get(&mut host, "/app-data").unwrap(), b"{\"view_count\":1}".to_vec());
    assert_eq!(store.key_exists(&mut host, "/app-data").unwrap(), true);
    store.delete(&mut host, "/app-data").unwrap();
    assert_eq!(store.key_exists(&mut host, "/app-data").unwrap(), false);
    store.close(&mut host);
}

#[test]
fn store_open_fails_for_an_unconfigured_name() {
    let mut host = host();
    assert!(matches!(Store::open(&mut host, "missing"), Err(Error::NoSuchStore)));
}

#[test]
fn store_of_another_host_is_not_open() {
    let mut first = host();
    let mut second = host();
    let store = Store::open(&mut first, "").unwrap();
    assert!(matches!(store.get(&mut second, "k"), Err(Error::InvalidStore)));
    assert!(matches!(store.set(&mut second, "k", b"v"), Err(Error::InvalidStore)));
    assert!(matches!(store.delete(&mut second, "k"), Err(Error::InvalidStore)));
    assert!(matches!(store.key_exists(&mut second, "k"), Err(Error::InvalidStore)));
}

#[test]
fn store_works_on_the_standalone_host() {
    let mut host = KeyValueSqlite::at(DatabaseLocation::InMemory);
    let store = Store::open(&mut host, "ns").unwrap();
    store.set(&mut host, "k", b"v").unwrap();
    assert_eq!(store.get(&mut host, "k").unwrap(), b"v".to_vec());
    let again = Store::open(&mut host, "ns").unwrap();
    store.close(&mut host);
    assert_eq!(again.get(&mut host, "k").unwrap(), b"v".to_vec());
}

#[test]
fn standalone_component_builds_an_unconnected_host() {
    let mut host = KeyValueSqliteComponent.build_data();
    assert!(matches!(Store::open(&mut host, "ns"), Ok(_)));
    let mut fresh = KeyValueSqlite::default();
    assert!(matches!(Store::open(&mut fresh, "ns"), Ok(_)));
}
