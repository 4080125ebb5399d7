//! Tests of the remote-backed view: read-through caching, the not-found
//! and failure outcomes, placeholder proofs, checkout, commit, and the
//! unsupported trie operations.

use cargo_casper::ledger::{Digest, LedgerKey, StoredValue};
use cargo_casper::remote::{RemoteOutcome, RemoteView, ViewError};
use cargo_casper::store::Storage;
use cargo_casper::transform::Transform;
use casper_types::bytesrepr::ToBytes;
use casper_types::{CLValue, Key};

fn digest_from(data: &[u8]) -> Digest {
    Digest::new(casper_types::Digest::hash(data).value().to_vec())
}

fn key_from(data: &[u8]) -> LedgerKey {
    let key = Key::Hash(casper_types::Digest::hash(data).value());
    LedgerKey::new(key.to_bytes().unwrap())
}

fn value_of_str(text: &str) -> StoredValue {
    let value = casper_types::StoredValue::CLValue(CLValue::from_t(text).unwrap());
    StoredValue::new(value.to_bytes().unwrap())
}

fn fresh_view(tag: &[u8]) -> RemoteView {
    let storage = Storage::open("view-test".to_string(), None, true).unwrap();
    RemoteView::new(digest_from(tag), storage, "http://localhost:11101".to_string())
}

#[test]
fn remote_hit_is_cached_for_later_reads() {
    let mut view = fresh_view(&[1]);
    let key = key_from(&[1]);
    let value = value_of_str("remote");
    assert!(view.read_local(&key).is_none());
    let first = view
        .absorb_remote(&key, RemoteOutcome::Found(value.clone()))
        .unwrap()
        .unwrap();
    assert_eq!(first.as_bytes(), value.as_bytes());
    let second = view.read_local(&key).unwrap();
    assert_eq!(second.as_bytes(), value.as_bytes());
}

#[test]
fn remote_not_found_is_none_and_stores_nothing() {
    let mut view = fresh_view(&[2]);
    let key = key_from(&[2]);
    let outcome = view.absorb_remote(&key, RemoteOutcome::NotFound).unwrap();
    assert!(outcome.is_none());
    assert_eq!(view.storage().entry_count(), 0);
    assert!(view.read_local(&key).is_none());
}

#[test]
fn remote_failure_is_an_error_and_stores_nothing() {
    let mut view = fresh_view(&[3]);
    let key = key_from(&[3]);
    let result = view.absorb_remote(&key, RemoteOutcome::Failure("boom".to_string()));
    match result {
        Err(ViewError::Remote { cause }) => assert_eq!(cause, "boom"),
        _ => panic!("expected a remote error"),
    }
    assert_eq!(view.storage().entry_count(), 0);
}

#[test]
fn proof_wraps_value_with_empty_path() {
    let key = key_from(&[4]);
    let value = value_of_str("proved");
    let proof = RemoteView::wrap_in_proof(&key, Some(value.clone())).unwrap();
    assert_eq!(proof.key().as_bytes(), key.as_bytes());
    assert_eq!(proof.value().as_bytes(), value.as_bytes());
    assert!(RemoteView::wrap_in_proof(&key, None).is_none());
}

#[test]
fn checkout_serves_the_pinned_root() {
    let view = fresh_view(&[5]);
    let same_root = digest_from(&[5]);
    let checked_out = view.checkout(&same_root);
    assert!(checked_out.is_some());
}

#[test]
fn commit_answers_with_the_placeholder_root() {
    let mut view = fresh_view(&[6]);
    let root = digest_from(&[6]);
    let key = key_from(&[6]);
    let value = value_of_str("committed");
    let batch = vec![(key.clone(), Transform::Write(value.clone()))];
    let answered_root = view.commit(&root, &batch).unwrap();
    assert_eq!(answered_root.as_bytes(), &vec![0u8; 32]);
    let got = view.read_local(&key).unwrap();
    assert_eq!(got.as_bytes(), value.as_bytes());
}

#[test]
fn empty_root_is_all_zero() {
    let view = fresh_view(&[7]);
    assert_eq!(view.empty_root().as_bytes(), &vec![0u8; 32]);
}

#[test]
fn trie_operations_are_unsupported() {
    let view = fresh_view(&[8]);
    let digest = digest_from(&[8]);
    let key = key_from(&[8]);
    match view.keys_with_prefix(&vec![0]) {
        Err(ViewError::Unsupported { operation }) => assert_eq!(operation, "keys_with_prefix"),
        _ => panic!("expected unsupported"),
    }
    match view.get_trie_full(&digest) {
        Err(ViewError::Unsupported { operation }) => assert_eq!(operation, "get_trie_full"),
        _ => panic!("expected unsupported"),
    }
    match view.put_trie(&vec![0]) {
        Err(ViewError::Unsupported { operation }) => assert_eq!(operation, "put_trie"),
        _ => panic!("expected unsupported"),
    }
    match view.missing_children(&vec![0]) {
        Err(ViewError::Unsupported { operation }) => assert_eq!(operation, "missing_children"),
        _ => panic!("expected unsupported"),
    }
    match view.delete_keys(&digest, &vec![key]) {
        Err(ViewError::Unsupported { operation }) => assert_eq!(operation, "delete_keys"),
        _ => panic!("expected unsupported"),
    }
}

#[test]
fn view_error_messages_are_exact() {
    let remote = ViewError::Remote { cause: "timeout".to_string() };
    assert_eq!(remote.message(), "remote query failed: timeout");
    let unsupported = ViewError::Unsupported { operation: "put_trie".to_string() };
    assert_eq!(
        unsupported.message(),
        "operation not supported by this backend: put_trie"
    );
}
