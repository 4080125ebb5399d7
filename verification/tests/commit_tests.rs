//! Tests of the transform applicator: ordering within a batch, the
//! missing-key and rejected-transform failures, and idempotent writes.

use cargo_casper::ledger::{LedgerKey, StoredValue};
use cargo_casper::store::Storage;
use cargo_casper::transform::{commit_effects, CommitError, Transform, UpdateKind};
use casper_types::bytesrepr::ToBytes;
use casper_types::execution::TransformKindV2;
use casper_types::{CLValue, Key};

fn key_from(data: &[u8]) -> LedgerKey {
    let key = Key::Hash(casper_types::Digest::hash(data).value());
    LedgerKey::new(key.to_bytes().unwrap())
}

fn value_of_u64(n: u64) -> StoredValue {
    let value = casper_types::StoredValue::CLValue(CLValue::from_t(n).unwrap());
    StoredValue::new(value.to_bytes().unwrap())
}

fn value_of_str(text: &str) -> StoredValue {
    let value = casper_types::StoredValue::CLValue(CLValue::from_t(text).unwrap());
    StoredValue::new(value.to_bytes().unwrap())
}

fn add_u64_kind(n: u64) -> UpdateKind {
    UpdateKind::new(TransformKindV2::AddUInt64(n).to_bytes().unwrap())
}

fn empty_store() -> Storage {
    Storage::open("commit-test".to_string(), None, true).unwrap()
}

#[test]
fn write_then_update_sees_written_value() {
    let mut storage = empty_store();
    let key = key_from(&[1]);
    let batch = vec![
        (key.clone(), Transform::Write(value_of_u64(1))),
        (key.clone(), Transform::Update(add_u64_kind(1))),
    ];
    commit_effects(&mut storage, &batch).unwrap();
    let got = storage.get(&key).unwrap();
    assert_eq!(got.as_bytes(), value_of_u64(2).as_bytes());
}

#[test]
fn update_on_missing_key_fails_and_stores_nothing() {
    let mut storage = empty_store();
    let key = key_from(&[2]);
    let batch = vec![(key.clone(), Transform::Update(add_u64_kind(1)))];
    match commit_effects(&mut storage, &batch) {
        Err(CommitError::KeyNotFound { key: failed }) => {
            assert_eq!(failed.as_bytes(), key.as_bytes());
        }
        _ => panic!("expected a key-not-found error"),
    }
    assert!(storage.get(&key).is_none());
    assert_eq!(storage.entry_count(), 0);
}

#[test]
fn writing_twice_leaves_one_entry() {
    let mut storage = empty_store();
    let key = key_from(&[3]);
    let value = value_of_str("stable");
    let batch = vec![(key.clone(), Transform::Write(value.clone()))];
    commit_effects(&mut storage, &batch).unwrap();
    commit_effects(&mut storage, &batch).unwrap();
    assert_eq!(storage.entry_count(), 1);
    let got = storage.get(&key).unwrap();
    assert_eq!(got.as_bytes(), value.as_bytes());
}

#[test]
fn identity_changes_nothing() {
    let mut storage = empty_store();
    let key = key_from(&[4]);
    let batch = vec![(key.clone(), Transform::Identity)];
    commit_effects(&mut storage, &batch).unwrap();
    assert_eq!(storage.entry_count(), 0);
    assert!(storage.get(&key).is_none());
}

#[test]
fn rejected_transform_reports_failure() {
    let mut storage = empty_store();
    let key = key_from(&[5]);
    let seed = vec![(key.clone(), Transform::Write(value_of_str("not a number")))];
    commit_effects(&mut storage, &seed).unwrap();
    let batch = vec![(key.clone(), Transform::Update(add_u64_kind(1)))];
    match commit_effects(&mut storage, &batch) {
        Err(CommitError::TransformFailed { key: failed }) => {
            assert_eq!(failed.as_bytes(), key.as_bytes());
        }
        _ => panic!("expected a transform failure"),
    }
    let kept = storage.get(&key).unwrap();
    assert_eq!(kept.as_bytes(), value_of_str("not a number").as_bytes());
}

#[test]
fn failing_batch_keeps_earlier_effects() {
    let mut storage = empty_store();
    let first_key = key_from(&[6]);
    let missing_key = key_from(&[7]);
    let batch = vec![
        (first_key.clone(), Transform::Write(value_of_u64(10))),
        (missing_key.clone(), Transform::Update(add_u64_kind(1))),
    ];
    assert!(commit_effects(&mut storage, &batch).is_err());
    let kept = storage.get(&first_key).unwrap();
    assert_eq!(kept.as_bytes(), value_of_u64(10).as_bytes());
    assert!(storage.get(&missing_key).is_none());
}

#[test]
fn commit_error_messages_are_exact() {
    let key_not_found = CommitError::KeyNotFound { key: key_from(&[8]) };
    assert_eq!(
        key_not_found.message(),
        "update transform aimed at a key not present in storage"
    );
    let failed = CommitError::TransformFailed { key: key_from(&[9]) };
    assert_eq!(
        failed.message(),
        "failed to apply the transform to the current value"
    );
}
