//! The decision logic of an execution run: which configuration values the
//! run uses, which state root it pins, and how failures are reported.
//!
//! A run combines the cached configuration, if one exists, with whatever
//! the user provided on this run; values the user did not provide fall
//! back to the cached ones, or to defaults when nothing is cached.  The
//! state root is either kept from the cache or resolved from the snapshot
//! identifier the user chose; resolving by block or "latest" needs one
//! remote request, which the shell performs, handing its answer back to
//! the library.

use vstd::prelude::*;
use vstd::string::StringExecFns;
use crate::cached_config::{CachedConfig, CachedConfigError};
use crate::ledger::Digest;
use crate::store::StorageError;
use crate::transform::CommitError;

verus! {

/// An option either provided by the user on the command line, or a default
/// to use when no corresponding cached option is available.
pub enum UserProvidedOrDefault<T> {
    /// The user provided the given value.
    User(T),
    /// The user did not provide a value, and this default should be
    /// considered.
    Default(T),
}

impl<T> UserProvidedOrDefault<T> {
    /// The value carried, whichever way it arrived.
    pub open spec fn spec_value(self) -> T {
        match self {
            UserProvidedOrDefault::User(value) => value,
            UserProvidedOrDefault::Default(value) => value,
        }
    }

    /// Whether the user provided the value.
    pub open spec fn is_user(self) -> bool {
        self matches UserProvidedOrDefault::User(_)
    }

    /// The wrapped value.
    pub fn value(self) -> (r: T)
        ensures
            r == self.spec_value(),
    {
        match self {
            UserProvidedOrDefault::User(value) => value,
            UserProvidedOrDefault::Default(value) => value,
        }
    }
}

/// Identifier for a snapshot of global state.
pub enum SnapshotId {
    /// The latest known by the node.
    Latest,
    /// The given state root.
    StateHash(Digest),
    /// The state root named in the block at the given height.
    BlockHeight(u64),
    /// The state root named in the block with the given hash.
    BlockHash(Digest),
}

/// What it takes to turn a snapshot identifier into a state root: either
/// the digest is already in hand, or one remote request must be made.
pub enum StateHashRequest {
    /// The identifier was the state root itself; no request is needed.
    UseDigest(Digest),
    /// Ask the node for the latest block's state root.
    FetchLatest,
    /// Ask the node for the state root at the given block height.
    FetchByHeight(u64),
    /// Ask the node for the state root of the block with the given hash.
    FetchByHash(Digest),
}

/// Decides whether resolving `id` needs a remote request, and which.
/// Only an identifier that already carries the state root avoids one.
pub fn state_hash_request(id: SnapshotId) -> (r: StateHashRequest)
    ensures
        match id {
            SnapshotId::Latest => r is FetchLatest,
            SnapshotId::StateHash(d) => r == StateHashRequest::UseDigest(d),
            SnapshotId::BlockHeight(h) => r == StateHashRequest::FetchByHeight(h),
            SnapshotId::BlockHash(d) => r == StateHashRequest::FetchByHash(d),
        },
{
    match id {
        SnapshotId::Latest => StateHashRequest::FetchLatest,
        SnapshotId::StateHash(d) => StateHashRequest::UseDigest(d),
        SnapshotId::BlockHeight(h) => StateHashRequest::FetchByHeight(h),
        SnapshotId::BlockHash(d) => StateHashRequest::FetchByHash(d),
    }
}

/// Reads the node's answer to a state-root request: a missing root in the
/// response means the requested state is unknown to the node.
pub fn state_hash_from_response(maybe_hash: Option<Digest>) -> (r: Result<Digest, Error>)
    ensures
        match maybe_hash {
            Some(d) => r == Ok::<Digest, Error>(d),
            None => r matches Err(e) && e is UnknownStateHash,
        },
{
    match maybe_hash {
        Some(d) => Ok(d),
        None => Err(Error::UnknownStateHash),
    }
}

/// Options for one execution run, as they arrive from the command line.
pub struct Options {
    /// The directory used for storing fetched global state.
    pub storage_dir: UserProvidedOrDefault<String>,
    /// The network chain name.
    pub chain_name: UserProvidedOrDefault<String>,
    /// The address of a node on the network, in the form "host:port".
    pub node_address: UserProvidedOrDefault<String>,
    /// The identifier of the global state to be used.
    pub snapshot_id: UserProvidedOrDefault<SnapshotId>,
    /// The path of the transaction to execute.
    pub transaction_path: String,
}

/// Where the run's state root comes from.
pub enum HashSource {
    /// Keep the state root of the cached configuration.
    UseCached(Digest),
    /// Resolve the given snapshot identifier, fetching if it needs it.
    Resolve(SnapshotId),
}

/// The configuration values one run works with, after cached values and
/// this run's options are combined.
pub struct ResolvedRun {
    /// The directory used for storing fetched global state.
    pub storage_dir: String,
    /// The network chain name.
    pub chain_name: String,
    /// The address of the node to query.
    pub node_address: String,
    /// Where the state root comes from.
    pub hash_source: HashSource,
}

/// Combines the cached configuration with this run's options.  A value
/// the user provided wins; otherwise the cached value stands, or the
/// run's default when nothing is cached.  The state root is refreshed
/// only when the user chose a snapshot identifier; otherwise a cached
/// root is kept, and with no cache the identifier in hand is resolved.
pub fn resolve_run(
    cached: Option<CachedConfig>,
    storage_dir: UserProvidedOrDefault<String>,
    chain_name: UserProvidedOrDefault<String>,
    node_address: UserProvidedOrDefault<String>,
    snapshot_id: UserProvidedOrDefault<SnapshotId>,
) -> (r: ResolvedRun)
    ensures
        match cached {
            Some(c) => {
                &&& r.storage_dir@ == (if storage_dir.is_user() {
                    storage_dir.spec_value()@
                } else {
                    c.storage_dir@
                })
                &&& r.chain_name@ == (if chain_name.is_user() {
                    chain_name.spec_value()@
                } else {
                    c.chain_name@
                })
                &&& r.node_address@ == (if node_address.is_user() {
                    node_address.spec_value()@
                } else {
                    c.node_address@
                })
                &&& if snapshot_id.is_user() {
                    r.hash_source == HashSource::Resolve(snapshot_id.spec_value())
                } else {
                    r.hash_source == HashSource::UseCached(c.state_hash)
                }
            },
            None => {
                &&& r.storage_dir@ == storage_dir.spec_value()@
                &&& r.chain_name@ == chain_name.spec_value()@
                &&& r.node_address@ == node_address.spec_value()@
                &&& r.hash_source == HashSource::Resolve(snapshot_id.spec_value())
            },
        },
{
    match cached {
        Some(c) => {
            let resolved_storage_dir = match storage_dir {
                UserProvidedOrDefault::User(dir) => dir,
                UserProvidedOrDefault::Default(_) => c.storage_dir,
            };
            let resolved_chain_name = match chain_name {
                UserProvidedOrDefault::User(name) => name,
                UserProvidedOrDefault::Default(_) => c.chain_name,
            };
            let resolved_node_address = match node_address {
                UserProvidedOrDefault::User(addr) => addr,
                UserProvidedOrDefault::Default(_) => c.node_address,
            };
            let hash_source = match snapshot_id {
                UserProvidedOrDefault::User(id) => HashSource::Resolve(id),
                UserProvidedOrDefault::Default(_) => HashSource::UseCached(c.state_hash),
            };
            ResolvedRun {
                storage_dir: resolved_storage_dir,
                chain_name: resolved_chain_name,
                node_address: resolved_node_address,
                hash_source,
            }
        },
        None => ResolvedRun {
            storage_dir: storage_dir.value(),
            chain_name: chain_name.value(),
            node_address: node_address.value(),
            hash_source: HashSource::Resolve(snapshot_id.value()),
        },
    }
}

/// Reads the snapshot-identifier command-line flags: exactly one of the
/// four may be chosen; with none chosen the run falls back to "latest" as
/// a default.  More than one chosen is a usage error, answered with
/// nothing.
pub fn snapshot_id_from_flags(
    latest: bool,
    state_hash: Option<Digest>,
    block_height: Option<u64>,
    block_hash: Option<Digest>,
) -> (r: Option<UserProvidedOrDefault<SnapshotId>>)
    ensures
        match (latest, state_hash, block_height, block_hash) {
            (true, None, None, None) => r == Some(
                UserProvidedOrDefault::User(SnapshotId::Latest),
            ),
            (false, Some(d), None, None) => r == Some(
                UserProvidedOrDefault::User(SnapshotId::StateHash(d)),
            ),
            (false, None, Some(h), None) => r == Some(
                UserProvidedOrDefault::User(SnapshotId::BlockHeight(h)),
            ),
            (false, None, None, Some(d)) => r == Some(
                UserProvidedOrDefault::User(SnapshotId::BlockHash(d)),
            ),
            (false, None, None, None) => r == Some(
                UserProvidedOrDefault::Default(SnapshotId::Latest),
            ),
            _ => r is None,
        },
{
    match (latest, state_hash, block_height, block_hash) {
        (true, None, None, None) => Some(UserProvidedOrDefault::User(SnapshotId::Latest)),
        (false, Some(d), None, None) => Some(
            UserProvidedOrDefault::User(SnapshotId::StateHash(d)),
        ),
        (false, None, Some(h), None) => Some(
            UserProvidedOrDefault::User(SnapshotId::BlockHeight(h)),
        ),
        (false, None, None, Some(d)) => Some(
            UserProvidedOrDefault::User(SnapshotId::BlockHash(d)),
        ),
        (false, None, None, None) => Some(UserProvidedOrDefault::Default(SnapshotId::Latest)),
        _ => None,
    }
}

/// Error while executing a transaction run.
#[derive(Debug)]
pub enum Error {
    /// Error related to the cached config.
    CachedConfig(CachedConfigError),
    /// Error related to storage of global state.
    Storage(StorageError),
    /// Failed to get the state root from the chosen node.
    FailedToGetStateHash {
        /// The underlying cause.
        cause: String,
    },
    /// Failed to get the chainspec from the chosen node.
    FailedToGetChainspec {
        /// The underlying cause.
        cause: String,
    },
    /// Failed to read the chainspec bytes as text.
    ChainspecBytesToStr {
        /// The underlying cause.
        cause: String,
    },
    /// Failed to parse the chainspec text.
    ChainspecDeserialization {
        /// The underlying cause.
        cause: String,
    },
    /// State root not known on the chosen node.
    UnknownStateHash,
    /// Failed to read the transaction at the given path.
    ReadTransaction {
        /// The underlying cause.
        cause: String,
        /// The file path.
        path: String,
    },
    /// The transaction is not compliant with the network configuration.
    InvalidTransaction {
        /// The underlying cause.
        cause: String,
    },
    /// The execution engine failed while executing the transaction.
    Execution {
        /// The underlying cause.
        cause: String,
    },
    /// Committing the changes to the local global state failed.
    Commit(CommitError),
}

impl Error {
    /// The rendered message, naming the failure and its context.
    pub open spec fn message_view(&self) -> Seq<char> {
        match self {
            Error::CachedConfig(e) => e.message_view(),
            Error::Storage(e) => e.message_view(),
            Error::FailedToGetStateHash { cause } => "failed to get state hash from node: "@
                + cause@,
            Error::FailedToGetChainspec { cause } => "failed to get chainspec from node: "@
                + cause@,
            Error::ChainspecBytesToStr { cause } =>
                "failed to read chainspec bytes as a string: "@ + cause@,
            Error::ChainspecDeserialization { cause } => "failed to parse chainspec: "@
                + cause@,
            Error::UnknownStateHash => "requested state hash not found on node"@,
            Error::ReadTransaction { cause, path } => "failed to read transaction file at `"@
                + path@ + "`: "@ + cause@,
            Error::InvalidTransaction { cause } => "invalid transaction: "@ + cause@,
            Error::Execution { cause } => "failed to execute: "@ + cause@,
            Error::Commit(e) => "failed to save the changes to global state: "@
                + e.message_view(),
        }
    }

    /// Renders the message.
    pub fn message(&self) -> (r: String)
        ensures
            r@ == self.message_view(),
    {
        match self {
            Error::CachedConfig(e) => e.message(),
            Error::Storage(e) => e.message(),
            Error::FailedToGetStateHash { cause } => String::from_str(
                "failed to get state hash from node: ",
            ).concat(cause.as_str()),
            Error::FailedToGetChainspec { cause } => String::from_str(
                "failed to get chainspec from node: ",
            ).concat(cause.as_str()),
            Error::ChainspecBytesToStr { cause } => String::from_str(
                "failed to read chainspec bytes as a string: ",
            ).concat(cause.as_str()),
            Error::ChainspecDeserialization { cause } => String::from_str(
                "failed to parse chainspec: ",
            ).concat(cause.as_str()),
            Error::UnknownStateHash => String::from_str(
                "requested state hash not found on node",
            ),
            Error::ReadTransaction { cause, path } => String::from_str(
                "failed to read transaction file at `",
            ).concat(path.as_str()).concat("`: ").concat(cause.as_str()),
            Error::InvalidTransaction { cause } => String::from_str(
                "invalid transaction: ",
            ).concat(cause.as_str()),
            Error::Execution { cause } => String::from_str("failed to execute: ").concat(
                cause.as_str(),
            ),
            Error::Commit(e) => String::from_str(
                "failed to save the changes to global state: ",
            ).concat(e.message().as_str()),
        }
    }
}

impl From<CachedConfigError> for Error {
    fn from(error: CachedConfigError) -> (r: Self) {
        Error::CachedConfig(error)
    }
}

impl vstd::std_specs::convert::FromSpecImpl<CachedConfigError> for Error {
    open spec fn obeys_from_spec() -> bool {
        true
    }

    open spec fn from_spec(error: CachedConfigError) -> Self {
        Error::CachedConfig(error)
    }
}

impl From<StorageError> for Error {
    fn from(error: StorageError) -> (r: Self) {
        Error::Storage(error)
    }
}

impl vstd::std_specs::convert::FromSpecImpl<StorageError> for Error {
    open spec fn from_spec(error: StorageError) -> Self {
        Error::Storage(error)
    }

    open spec fn obeys_from_spec() -> bool {
        true
    }
}

} // verus!
