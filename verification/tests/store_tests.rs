//! Tests of the snapshot store: lookups, inserts, the file-name identity,
//! and the persist/open round trip.

use cargo_casper::ledger::{Digest, LedgerKey, StoredValue};
use cargo_casper::store::{snapshot_file_name, Storage, StorageError};
use casper_types::bytesrepr::ToBytes;
use casper_types::{CLValue, Key};

fn digest_from(data: &[u8]) -> Digest {
    Digest::new(casper_types::Digest::hash(data).value().to_vec())
}

fn key_from(data: &[u8]) -> LedgerKey {
    let key = Key::Hash(casper_types::Digest::hash(data).value());
    LedgerKey::new(key.to_bytes().unwrap())
}

fn value_from_str(text: &str) -> StoredValue {
    let value = casper_types::StoredValue::CLValue(CLValue::from_t(text).unwrap());
    StoredValue::new(value.to_bytes().unwrap())
}

#[test]
fn should_persist_storage() {
    let state_hash = digest_from(&[1]);
    let chain_name = "net";
    let key = key_from(&[2]);
    let stored_value = value_from_str("stuff");

    let file_name = snapshot_file_name(chain_name, &state_hash);
    let persisted = {
        let mut storage = Storage::open(file_name.clone(), None, true).unwrap();
        storage.insert(key.clone(), stored_value.clone());
        storage.persist_bytes()
    };

    let storage = Storage::open(file_name, Some(persisted), true).unwrap();
    let retrieved_value = storage.get(&key).unwrap();
    assert_eq!(retrieved_value.as_bytes(), stored_value.as_bytes());
}

#[test]
fn insert_overwrites_existing_key() {
    let mut storage = Storage::open("s".to_string(), None, true).unwrap();
    let key = key_from(&[3]);
    storage.insert(key.clone(), value_from_str("first"));
    storage.insert(key.clone(), value_from_str("second"));
    assert_eq!(storage.entry_count(), 1);
    let got = storage.get(&key).unwrap();
    assert_eq!(got.as_bytes(), value_from_str("second").as_bytes());
}

#[test]
fn get_missing_key_returns_none() {
    let storage = Storage::open("s".to_string(), None, true).unwrap();
    assert!(storage.get(&key_from(&[4])).is_none());
    assert!(!storage.contains(&key_from(&[4])));
}

#[test]
fn open_missing_file_without_create_fails() {
    let result = Storage::open("root/net-abc".to_string(), None, false);
    match result {
        Err(StorageError::MissingFile { path }) => assert_eq!(path, "root/net-abc"),
        _ => panic!("expected a missing-file error"),
    }
}

#[test]
fn open_create_then_reopen_yields_empty_store() {
    let created = Storage::open("fresh".to_string(), None, true).unwrap();
    assert_eq!(created.entry_count(), 0);
    let bytes = created.persist_bytes();
    let reopened = Storage::open("fresh".to_string(), Some(bytes), false).unwrap();
    assert_eq!(reopened.entry_count(), 0);
}

#[test]
fn open_garbage_reports_deserialize_error() {
    let result = Storage::open("bad".to_string(), Some(vec![1, 2, 3]), true);
    match result {
        Err(StorageError::Deserialize { path }) => assert_eq!(path, "bad"),
        _ => panic!("expected a deserialize error"),
    }
}

#[test]
fn trailing_bytes_are_a_deserialize_error() {
    let mut storage = Storage::open("t".to_string(), None, true).unwrap();
    storage.insert(key_from(&[8]), value_from_str("v"));
    let mut bytes = storage.persist_bytes();
    bytes.push(0);
    assert!(matches!(
        Storage::open("t".to_string(), Some(bytes), true),
        Err(StorageError::Deserialize { .. })
    ));
}

#[test]
fn round_trip_restores_every_entry() {
    let mut storage = Storage::open("many".to_string(), None, true).unwrap();
    let entries = vec![
        (LedgerKey::new(vec![]), StoredValue::new(vec![9, 9])),
        (key_from(&[5]), value_from_str("alpha")),
        (key_from(&[6]), StoredValue::new(vec![])),
        (key_from(&[7]), StoredValue::new(vec![0; 300])),
    ];
    for (key, value) in &entries {
        storage.insert(key.clone(), value.clone());
    }
    let bytes = storage.persist_bytes();
    let reopened = Storage::open("many".to_string(), Some(bytes), false).unwrap();
    assert_eq!(reopened.entry_count(), entries.len());
    for (key, value) in &entries {
        let got = reopened.get(key).unwrap();
        assert_eq!(got.as_bytes(), value.as_bytes());
    }
}

#[test]
fn snapshot_file_name_takes_seven_hex_chars() {
    let casper_digest = casper_types::Digest::hash([1]);
    let digest = Digest::new(casper_digest.value().to_vec());
    let mut expected_short = format!("{:?}", casper_digest);
    expected_short.truncate(7);
    let name = snapshot_file_name("casper-net-1", &digest);
    assert_eq!(name, format!("casper-net-1-{}", expected_short));
}

#[test]
fn storage_error_messages_name_path_and_cause() {
    let missing = StorageError::MissingFile { path: "p1".to_string() };
    assert_eq!(missing.message(), "no global state found at `p1`");
    let read = StorageError::Read { cause: "denied".to_string(), path: "p2".to_string() };
    assert_eq!(
        read.message(),
        "failed to read stored global state file at `p2`: denied"
    );
    let decode = StorageError::Deserialize { path: "p3".to_string() };
    assert_eq!(
        decode.message(),
        "failed to deserialize stored global state file at `p3`"
    );
    let create = StorageError::CreateDir { cause: "full".to_string(), path: "p4".to_string() };
    assert_eq!(
        create.message(),
        "failed to create dir for stored global state at `p4`: full"
    );
    let write = StorageError::Write { cause: "full".to_string(), path: "p5".to_string() };
    assert_eq!(
        write.message(),
        "failed to write stored global state file to `p5`: full"
    );
}
