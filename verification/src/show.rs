//! The options and failures of displaying locally held state: one value,
//! all of it, or the cached configuration.  The lookups go through the
//! snapshot store; the rendering and the terminal belong to the shell.

use vstd::prelude::*;
use vstd::string::StringExecFns;
use crate::cached_config::CachedConfigError;
use crate::ledger::LedgerKey;
use crate::store::StorageError;

verus! {

/// What to show.
pub enum Options {
    /// Show the value stored under the given key.
    Value(LedgerKey),
    /// Show all stored global state.
    AllState,
    /// Show the cached config options.
    CachedConfig,
}

/// Error while showing locally held state.
#[derive(Debug)]
pub enum Error {
    /// Missing cached config file.
    MissingCachedConfig,
    /// Error related to the cached config.
    CachedConfig(CachedConfigError),
    /// Error related to storage of global state.
    Storage(StorageError),
}

impl Error {
    /// The rendered message; `config_path` is where the shell looked for
    /// the cached config.
    pub open spec fn message_view(&self, config_path: Seq<char>) -> Seq<char> {
        match self {
            Error::MissingCachedConfig => "expected a cached config to exist at `"@
                + config_path + "` from a previous \"exec\" run"@,
            Error::CachedConfig(e) => e.message_view(),
            Error::Storage(e) => e.message_view(),
        }
    }

    /// Renders the message.
    pub fn message(&self, config_path: &str) -> (r: String)
        ensures
            r@ == self.message_view(config_path@),
    {
        match self {
            Error::MissingCachedConfig => String::from_str(
                "expected a cached config to exist at `",
            ).concat(config_path).concat("` from a previous \"exec\" run"),
            Error::CachedConfig(e) => e.message(),
            Error::Storage(e) => e.message(),
        }
    }
}

impl From<CachedConfigError> for Error {
    fn from(error: CachedConfigError) -> (r: Self) {
        Error::CachedConfig(error)
    }
}

impl vstd::std_specs::convert::FromSpecImpl<CachedConfigError> for Error {
    open spec fn obeys_from_spec() -> bool {
        true
    }

    open spec fn from_spec(error: CachedConfigError) -> Self {
        Error::CachedConfig(error)
    }
}

impl From<StorageError> for Error {
    fn from(error: StorageError) -> (r: Self) {
        Error::Storage(error)
    }
}

impl vstd::std_specs::convert::FromSpecImpl<StorageError> for Error {
    open spec fn obeys_from_spec() -> bool {
        true
    }

    open spec fn from_spec(error: StorageError) -> Self {
        Error::Storage(error)
    }
}

} // verus!
