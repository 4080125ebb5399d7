//! The run-configuration values cached between runs: the storage root, the
//! network chain name, the node address, and the pinned state root.
//!
//! The cache itself is structured text on disk, read and written by the
//! unverified shell; the library holds the values as plain strings and a
//! digest, and states exactly how a cached configuration and the options
//! of a new run combine.

use vstd::prelude::*;
use vstd::string::StringExecFns;
use crate::ledger::{Digest, DIGEST_LENGTH};

verus! {

/// Configuration values cached on disk and reused on later runs.
pub struct CachedConfig {
    /// The directory used for storing fetched global state.
    pub storage_dir: String,
    /// The network chain name.
    pub chain_name: String,
    /// The address of a node on the network, in the form "host:port".
    pub node_address: String,
    /// The state root of the global state used.
    pub state_hash: Digest,
}

impl CachedConfig {
    /// Well-formedness: the pinned state root is a whole digest.
    pub open spec fn wf(&self) -> bool {
        self.state_hash@.len() == DIGEST_LENGTH
    }
}

/// Error while the shell reads or writes the cached configuration; paths
/// and causes arrive as plain strings.
#[derive(Debug)]
pub enum CachedConfigError {
    /// Failed to read the cached config at the given path.
    Read {
        /// The underlying cause.
        cause: String,
        /// The file path.
        path: String,
    },
    /// Failed to decode the cached config's text.
    Decode {
        /// The underlying cause.
        cause: String,
        /// The file path.
        path: String,
    },
    /// Failed to create a directory for the cached config.
    CreateDir {
        /// The underlying cause.
        cause: String,
        /// The directory path.
        path: String,
    },
    /// Failed to encode the cached config as text.
    Encode {
        /// The underlying cause.
        cause: String,
    },
    /// Failed to write the cached config at the given path.
    Write {
        /// The underlying cause.
        cause: String,
        /// The file path.
        path: String,
    },
}

impl CachedConfigError {
    /// The rendered message, naming the path and the underlying cause.
    pub open spec fn message_view(&self) -> Seq<char> {
        match self {
            CachedConfigError::Read { cause, path } => "failed to read cached config at `"@
                + path@ + "`: "@ + cause@,
            CachedConfigError::Decode { cause, path } => "failed to decode cached config at `"@
                + path@ + "`: "@ + cause@,
            CachedConfigError::CreateDir { cause, path } =>
                "failed to create dir for cached config at `"@ + path@ + "`: "@ + cause@,
            CachedConfigError::Encode { cause } => "failed to encode cached config: "@ + cause@,
            CachedConfigError::Write { cause, path } => "failed to write cached config to `"@
                + path@ + "`: "@ + cause@,
        }
    }

    /// Renders the message.
    pub fn message(&self) -> (r: String)
        ensures
            r@ == self.message_view(),
    {
        match self {
            CachedConfigError::Read { cause, path } => String::from_str(
                "failed to read cached config at `",
            ).concat(path.as_str()).concat("`: ").concat(cause.as_str()),
            CachedConfigError::Decode { cause, path } => String::from_str(
                "failed to decode cached config at `",
            ).concat(path.as_str()).concat("`: ").concat(cause.as_str()),
            CachedConfigError::CreateDir { cause, path } => String::from_str(
                "failed to create dir for cached config at `",
            ).concat(path.as_str()).concat("`: ").concat(cause.as_str()),
            CachedConfigError::Encode { cause } => String::from_str(
                "failed to encode cached config: ",
            ).concat(cause.as_str()),
            CachedConfigError::Write { cause, path } => String::from_str(
                "failed to write cached config to `",
            ).concat(path.as_str()).concat("`: ").concat(cause.as_str()),
        }
    }
}

} // verus!
