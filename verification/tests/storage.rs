use sharded_kv::db::decode_fetched;
use sharded_kv::db::found_or_unbound;
use sharded_kv::db::storage_failure;
use sharded_kv::db::Database;
use sharded_kv::error::ErrorKind;
use std::time::SystemTime;
use std::time::UNIX_EPOCH;

fn fresh_store_path(name: &str) -> String {
    let nanos = SystemTime::now().duration_since(UNIX_EPOCH).map(|d| d.as_nanos()).unwrap_or(0);
    format!("/tmp/sharded_kv_store_{}_{}", name, nanos)
}

fn open_store(path: &str, read_only: bool) -> Database {
    match Database::new(path, read_only) {
        Ok(store) => store,
        Err(kind) => panic!("cannot open {}: {:?}", path, kind),
    }
}

#[test]
fn set_then_get_returns_the_value() {
    let mut store = open_store(&fresh_store_path("round_trip"), false);
    assert_eq!(store.set("foo", "bar"), Ok(()));
    assert_eq!(store.get("foo"), Some("bar".to_string()));
    assert_eq!(store.fetch("foo"), Ok(Some("bar".to_string())));
}

#[test]
fn set_replaces_an_earlier_value() {
    let mut store = open_store(&fresh_store_path("replace"), false);
    assert_eq!(store.set("k", "one"), Ok(()));
    assert_eq!(store.set("k", "two"), Ok(()));
    assert_eq!(store.get("k"), Some("two".to_string()));
}

#[test]
fn set_leaves_other_keys_alone() {
    let mut store = open_store(&fresh_store_path("others"), false);
    assert_eq!(store.set("a", "1"), Ok(()));
    assert_eq!(store.set("b", "2"), Ok(()));
    assert_eq!(store.get("a"), Some("1".to_string()));
    assert_eq!(store.get("b"), Some("2".to_string()));
    assert_eq!(store.delete("a"), Ok(()));
    assert_eq!(store.get("b"), Some("2".to_string()));
}

#[test]
fn get_of_an_unbound_key_is_none() {
    let store = open_store(&fresh_store_path("unbound"), false);
    assert_eq!(store.get("missing"), None);
    assert_eq!(store.fetch("missing"), Ok(None));
}

#[test]
fn an_empty_value_differs_from_no_value() {
    let mut store = open_store(&fresh_store_path("empty_value"), false);
    assert_eq!(store.set("k", ""), Ok(()));
    assert_eq!(store.get("k"), Some(String::new()));
    assert_eq!(store.get("other"), None);
}

#[test]
fn values_keep_their_text() {
    let mut store = open_store(&fresh_store_path("text"), false);
    assert_eq!(store.set("ключ", "значение é"), Ok(()));
    assert_eq!(store.get("ключ"), Some("значение é".to_string()));
}

#[test]
fn delete_of_an_unbound_key_succeeds() {
    let mut store = open_store(&fresh_store_path("delete_unbound"), false);
    assert_eq!(store.delete("missing"), Ok(()));
    assert_eq!(store.get("missing"), None);
}

#[test]
fn delete_twice_succeeds_and_the_key_stays_unbound() {
    let mut store = open_store(&fresh_store_path("delete_twice"), false);
    assert_eq!(store.set("k", "v"), Ok(()));
    assert_eq!(store.delete("k"), Ok(()));
    assert_eq!(store.get("k"), None);
    assert_eq!(store.delete("k"), Ok(()));
    assert_eq!(store.get("k"), None);
}

#[test]
fn read_only_store_refuses_writes_and_keeps_its_records() {
    let path = fresh_store_path("read_only");
    {
        let mut store = open_store(&path, false);
        assert!(!store.is_read_only());
        assert_eq!(store.set("k", "v"), Ok(()));
    }
    let mut store = open_store(&path, true);
    assert!(store.is_read_only());
    assert_eq!(store.set("k", "changed"), Err(ErrorKind::ReadOnly));
    assert_eq!(store.set("new", "x"), Err(ErrorKind::ReadOnly));
    assert_eq!(store.delete("k"), Err(ErrorKind::ReadOnly));
    assert_eq!(store.get("k"), Some("v".to_string()));
    assert_eq!(store.get("new"), None);
}

#[test]
fn acknowledged_writes_are_there_after_reopening() {
    let path = fresh_store_path("reopen");
    {
        let mut store = open_store(&path, false);
        assert_eq!(store.set("kept", "v"), Ok(()));
        assert_eq!(store.set("gone", "v"), Ok(()));
        assert_eq!(store.delete("gone"), Ok(()));
    }
    let store = open_store(&path, false);
    assert_eq!(store.get("kept"), Some("v".to_string()));
    assert_eq!(store.get("gone"), None);
}

#[test]
fn a_path_that_cannot_hold_a_store_is_a_storage_failure() {
    assert!(matches!(Database::new("/dev/null/store", false), Err(ErrorKind::StorageIo)));
}

#[test]
fn a_store_that_is_open_cannot_be_opened_again() {
    let path = fresh_store_path("locked");
    let _first = open_store(&path, false);
    assert!(matches!(Database::new(&path, false), Err(ErrorKind::StorageIo)));
}

#[test]
fn storage_failure_keeps_a_success() {
    assert_eq!(storage_failure(Ok(5u32)), Ok(5u32));
    assert_eq!(storage_failure(Ok(Some(vec![1u8, 2]))), Ok(Some(vec![1u8, 2])));
}

#[test]
fn storage_failure_maps_every_engine_error() {
    let unsupported: Result<u32, sled::Error> = Err(sled::Error::Unsupported("no".to_string()));
    assert_eq!(storage_failure(unsupported), Err(ErrorKind::StorageIo));
    let bug: Result<(), sled::Error> = Err(sled::Error::ReportableBug("bug".to_string()));
    assert_eq!(storage_failure(bug), Err(ErrorKind::StorageIo));
}

#[test]
fn decode_fetched_returns_the_text_of_the_bytes() {
    assert_eq!(decode_fetched(Ok(Some(b"bar".to_vec()))), Ok(Some("bar".to_string())));
    assert_eq!(decode_fetched(Ok(Some(vec![0xc3, 0xa9]))), Ok(Some("é".to_string())));
    assert_eq!(decode_fetched(Ok(Some(Vec::new()))), Ok(Some(String::new())));
}

#[test]
fn decode_fetched_keeps_an_unbound_key() {
    assert_eq!(decode_fetched(Ok(None)), Ok(None));
}

#[test]
fn decode_fetched_refuses_bytes_that_are_no_text() {
    assert_eq!(decode_fetched(Ok(Some(vec![0xff, 0xfe]))), Err(ErrorKind::StorageIo));
    assert_eq!(decode_fetched(Ok(Some(vec![0xc3]))), Err(ErrorKind::StorageIo));
}

#[test]
fn decode_fetched_keeps_a_failure() {
    assert_eq!(decode_fetched(Err(ErrorKind::StorageIo)), Err(ErrorKind::StorageIo));
}

#[test]
fn found_or_unbound_keeps_what_was_found() {
    assert_eq!(found_or_unbound(Ok(Some("bar".to_string()))), Some("bar".to_string()));
    assert_eq!(found_or_unbound(Ok(Some(String::new()))), Some(String::new()));
    assert_eq!(found_or_unbound(Ok(None)), None);
}

#[test]
fn found_or_unbound_takes_a_failure_for_an_unbound_key() {
    assert_eq!(found_or_unbound(Err(ErrorKind::StorageIo)), None);
    assert_eq!(found_or_unbound(Err(ErrorKind::ReadOnly)), None);
}
