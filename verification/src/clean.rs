//! The decision behind clearing stored global state: which directory a
//! clean removes, and the failures it can report.  The removal itself is
//! the shell's file work.

use vstd::prelude::*;
use vstd::string::StringExecFns;
use crate::cached_config::{CachedConfig, CachedConfigError};

verus! {

/// Error while clearing the stored global state.
#[derive(Debug)]
pub enum Error {
    /// Missing cached config file.
    MissingCachedConfig,
    /// Error related to the cached config.
    CachedConfig(CachedConfigError),
    /// Failed to remove the directory at the given path.
    RemoveDir {
        /// The underlying cause.
        cause: String,
        /// The directory path.
        path: String,
    },
}

impl Error {
    /// The rendered message; `config_path` is where the shell looked for
    /// the cached config.
    pub open spec fn message_view(&self, config_path: Seq<char>) -> Seq<char> {
        match self {
            Error::MissingCachedConfig => "expected a cached config to exist at `"@
                + config_path + "` from a previous \"exec\" run"@,
            Error::CachedConfig(e) => e.message_view(),
            Error::RemoveDir { cause, path } =>
                "failed to remove stored global state directory at `"@ + path@ + "`: "@
                + cause@,
        }
    }

    /// Renders the message.
    pub fn message(&self, config_path: &str) -> (r: String)
        ensures
            r@ == self.message_view(config_path@),
    {
        match self {
            Error::MissingCachedConfig => String::from_str(
                "expected a cached config to exist at `",
            ).concat(config_path).concat("` from a previous \"exec\" run"),
            Error::CachedConfig(e) => e.message(),
            Error::RemoveDir { cause, path } => String::from_str(
                "failed to remove stored global state directory at `",
            ).concat(path.as_str()).concat("`: ").concat(cause.as_str()),
        }
    }
}

impl From<CachedConfigError> for Error {
    fn from(error: CachedConfigError) -> (r: Self) {
        Error::CachedConfig(error)
    }
}

impl vstd::std_specs::convert::FromSpecImpl<CachedConfigError> for Error {
    open spec fn obeys_from_spec() -> bool {
        true
    }

    open spec fn from_spec(error: CachedConfigError) -> Self {
        Error::CachedConfig(error)
    }
}

/// Which directory a clean removes: the storage directory of the cached
/// configuration.  Without a cached configuration there is nothing to
/// locate, and the clean fails.
pub fn storage_dir_to_remove(cached: Option<CachedConfig>) -> (r: Result<String, Error>)
    ensures
        match cached {
            Some(c) => r matches Ok(dir) && dir@ == c.storage_dir@,
            None => r matches Err(e) && e is MissingCachedConfig,
        },
{
    match cached {
        Some(c) => Ok(c.storage_dir),
        None => Err(Error::MissingCachedConfig),
    }
}

} // verus!
