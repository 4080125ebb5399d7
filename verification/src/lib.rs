//! A local stand-in for a remote key/value ledger, used to simulate a single
//! transaction against a snapshot of global state without mutating the real
//! network.
//!
//! The library keeps an in-memory mapping from ledger keys to stored values,
//! answers point lookups (preferring locally cached entries and absorbing the
//! outcome of one-time remote fetches), folds batches of mutation effects into
//! the local view, and encodes the whole view for persistence keyed by network
//! name and state-root digest.  All file, network and terminal work lives in
//! the unverified shell around the library, which hands plain values in and
//! out.

pub mod cached_config;
pub mod clean;
pub mod codec;
pub mod exec;
pub mod ledger;
pub mod new;
pub mod remote;
pub mod show;
pub mod store;
pub mod transform;
