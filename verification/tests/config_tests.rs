//! Tests of the run-configuration logic: combining cached values with a
//! run's options, choosing the state-root request, and the flag rules for
//! the snapshot identifier.

use cargo_casper::cached_config::{CachedConfig, CachedConfigError};
use cargo_casper::exec::{
    resolve_run, snapshot_id_from_flags, state_hash_from_response, state_hash_request, Error,
    HashSource, SnapshotId, StateHashRequest, UserProvidedOrDefault,
};
use cargo_casper::ledger::Digest;

fn digest_from(data: &[u8]) -> Digest {
    Digest::new(casper_types::Digest::hash(data).value().to_vec())
}

fn cached() -> CachedConfig {
    CachedConfig {
        storage_dir: "/cached/dir".to_string(),
        chain_name: "cached-chain".to_string(),
        node_address: "http://cached:1".to_string(),
        state_hash: digest_from(&[1]),
    }
}

#[test]
fn value_unwraps_either_way() {
    assert_eq!(UserProvidedOrDefault::User(7u64).value(), 7);
    assert_eq!(UserProvidedOrDefault::Default(9u64).value(), 9);
}

#[test]
fn resolve_keeps_cached_values_for_defaults() {
    let run = resolve_run(
        Some(cached()),
        UserProvidedOrDefault::Default("/default/dir".to_string()),
        UserProvidedOrDefault::Default("default-chain".to_string()),
        UserProvidedOrDefault::Default("http://default:1".to_string()),
        UserProvidedOrDefault::Default(SnapshotId::Latest),
    );
    assert_eq!(run.storage_dir, "/cached/dir");
    assert_eq!(run.chain_name, "cached-chain");
    assert_eq!(run.node_address, "http://cached:1");
    match run.hash_source {
        HashSource::UseCached(digest) => {
            assert_eq!(digest.as_bytes(), digest_from(&[1]).as_bytes());
        }
        _ => panic!("expected the cached state hash to be kept"),
    }
}

#[test]
fn resolve_prefers_user_values_over_cache() {
    let run = resolve_run(
        Some(cached()),
        UserProvidedOrDefault::User("/user/dir".to_string()),
        UserProvidedOrDefault::User("user-chain".to_string()),
        UserProvidedOrDefault::User("http://user:1".to_string()),
        UserProvidedOrDefault::User(SnapshotId::BlockHeight(5)),
    );
    assert_eq!(run.storage_dir, "/user/dir");
    assert_eq!(run.chain_name, "user-chain");
    assert_eq!(run.node_address, "http://user:1");
    match run.hash_source {
        HashSource::Resolve(SnapshotId::BlockHeight(height)) => assert_eq!(height, 5),
        _ => panic!("expected the user's snapshot identifier to be resolved"),
    }
}

#[test]
fn resolve_without_cache_uses_the_options() {
    let run = resolve_run(
        None,
        UserProvidedOrDefault::Default("/default/dir".to_string()),
        UserProvidedOrDefault::Default("default-chain".to_string()),
        UserProvidedOrDefault::User("http://user:1".to_string()),
        UserProvidedOrDefault::Default(SnapshotId::Latest),
    );
    assert_eq!(run.storage_dir, "/default/dir");
    assert_eq!(run.chain_name, "default-chain");
    assert_eq!(run.node_address, "http://user:1");
    assert!(matches!(
        run.hash_source,
        HashSource::Resolve(SnapshotId::Latest)
    ));
}

#[test]
fn snapshot_flags_pick_exactly_one_identifier() {
    assert!(matches!(
        snapshot_id_from_flags(true, None, None, None),
        Some(UserProvidedOrDefault::User(SnapshotId::Latest))
    ));
    assert!(matches!(
        snapshot_id_from_flags(false, Some(digest_from(&[2])), None, None),
        Some(UserProvidedOrDefault::User(SnapshotId::StateHash(_)))
    ));
    assert!(matches!(
        snapshot_id_from_flags(false, None, Some(9), None),
        Some(UserProvidedOrDefault::User(SnapshotId::BlockHeight(9)))
    ));
    assert!(matches!(
        snapshot_id_from_flags(false, None, None, Some(digest_from(&[3]))),
        Some(UserProvidedOrDefault::User(SnapshotId::BlockHash(_)))
    ));
    assert!(matches!(
        snapshot_id_from_flags(false, None, None, None),
        Some(UserProvidedOrDefault::Default(SnapshotId::Latest))
    ));
    assert!(snapshot_id_from_flags(true, Some(digest_from(&[4])), None, None).is_none());
    assert!(snapshot_id_from_flags(false, None, Some(1), Some(digest_from(&[5]))).is_none());
}

#[test]
fn state_hash_request_fetches_only_when_needed() {
    assert!(matches!(
        state_hash_request(SnapshotId::Latest),
        StateHashRequest::FetchLatest
    ));
    match state_hash_request(SnapshotId::StateHash(digest_from(&[6]))) {
        StateHashRequest::UseDigest(digest) => {
            assert_eq!(digest.as_bytes(), digest_from(&[6]).as_bytes());
        }
        _ => panic!("a state hash in hand needs no request"),
    }
    assert!(matches!(
        state_hash_request(SnapshotId::BlockHeight(4)),
        StateHashRequest::FetchByHeight(4)
    ));
    assert!(matches!(
        state_hash_request(SnapshotId::BlockHash(digest_from(&[7]))),
        StateHashRequest::FetchByHash(_)
    ));
}

#[test]
fn missing_state_hash_in_response_is_an_error() {
    let ok = state_hash_from_response(Some(digest_from(&[8]))).unwrap();
    assert_eq!(ok.as_bytes(), digest_from(&[8]).as_bytes());
    match state_hash_from_response(None) {
        Err(error) => assert_eq!(error.message(), "requested state hash not found on node"),
        _ => panic!("expected the unknown-state-hash error"),
    }
}

#[test]
fn exec_error_messages_are_exact() {
    let state_hash = Error::FailedToGetStateHash { cause: "refused".to_string() };
    assert_eq!(
        state_hash.message(),
        "failed to get state hash from node: refused"
    );
    let read = Error::ReadTransaction {
        cause: "no such file".to_string(),
        path: "deploy.json".to_string(),
    };
    assert_eq!(
        read.message(),
        "failed to read transaction file at `deploy.json`: no such file"
    );
    let invalid = Error::InvalidTransaction { cause: "too large".to_string() };
    assert_eq!(invalid.message(), "invalid transaction: too large");
    let execution = Error::Execution { cause: "out of gas".to_string() };
    assert_eq!(execution.message(), "failed to execute: out of gas");
    let chainspec = Error::ChainspecDeserialization { cause: "bad toml".to_string() };
    assert_eq!(chainspec.message(), "failed to parse chainspec: bad toml");
}

#[test]
fn cached_config_error_messages_are_exact() {
    let read = CachedConfigError::Read { cause: "denied".to_string(), path: "c1".to_string() };
    assert_eq!(
        read.message(),
        "failed to read cached config at `c1`: denied"
    );
    let decode = CachedConfigError::Decode { cause: "bad".to_string(), path: "c2".to_string() };
    assert_eq!(decode.message(), "failed to decode cached config at `c2`: bad");
    let encode = CachedConfigError::Encode { cause: "odd".to_string() };
    assert_eq!(encode.message(), "failed to encode cached config: odd");
    let wrapped = Error::CachedConfig(CachedConfigError::Write {
        cause: "full".to_string(),
        path: "c3".to_string(),
    });
    assert_eq!(
        wrapped.message(),
        "failed to write cached config to `c3`: full"
    );
}
