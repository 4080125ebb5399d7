//! The remote-backed view: the read/commit surface served to the execution
//! engine, pinned to one state root.
//!
//! A read consults the wrapped snapshot store first; only on a miss does
//! the surrounding shell perform one blocking remote fetch, whose outcome
//! is handed back to `absorb_remote`.  A remote hit is cached so later
//! reads stay local; a remote "not found" is a defined non-error answer
//! that leaves the store untouched; any other remote failure is a read
//! error and also leaves the store untouched.  Commits delegate to the
//! transform applicator and answer with a fixed placeholder root; the
//! trie-structural operations of a full backend are unsupported here and
//! say so in their error.

use vstd::prelude::*;
use vstd::string::StringExecFns;
use crate::ledger::{Digest, DIGEST_LENGTH, LedgerKey, StoredValue, zero_digest};
use crate::store::Storage;
use crate::transform::{CommitError, Transform, apply_batch, batch_views};

verus! {

/// The outcome of one remote query for a key, as the shell reports it.
pub enum RemoteOutcome {
    /// The remote endpoint returned a value for the key.
    Found(StoredValue),
    /// The remote endpoint reported that the key has no value at this
    /// state root.
    NotFound,
    /// Transport, protocol or response failure; the cause as text.
    Failure(String),
}

/// Error from the view's read surface.
#[derive(Debug)]
pub enum ViewError {
    /// The remote endpoint failed to answer a fetch.
    Remote {
        /// The underlying cause.
        cause: String,
    },
    /// The operation belongs to a full authenticated-trie backend and is
    /// not supported by this flat-map view.
    Unsupported {
        /// The name of the unsupported operation.
        operation: String,
    },
}

impl ViewError {
    /// The rendered message.
    pub open spec fn message_view(&self) -> Seq<char> {
        match self {
            ViewError::Remote { cause } => "remote query failed: "@ + cause@,
            ViewError::Unsupported { operation } => "operation not supported by this backend: "@
                + operation@,
        }
    }

    /// Renders the message.
    pub fn message(&self) -> (r: String)
        ensures
            r@ == self.message_view(),
    {
        match self {
            ViewError::Remote { cause } => String::from_str("remote query failed: ").concat(
                cause.as_str(),
            ),
            ViewError::Unsupported { operation } => String::from_str(
                "operation not supported by this backend: ",
            ).concat(operation.as_str()),
        }
    }
}

/// A placeholder inclusion proof: the key and value with an empty internal
/// path.  This view holds no authenticated trie, so the path never has
/// nodes.
pub struct InclusionProof {
    key: LedgerKey,
    value: StoredValue,
    path_nodes: Vec<Vec<u8>>,
}

impl InclusionProof {
    /// The key the proof speaks of.
    pub closed spec fn spec_key(&self) -> Seq<u8> {
        self.key@
    }

    /// The value the proof wraps.
    pub closed spec fn spec_value(&self) -> Seq<u8> {
        self.value@
    }

    /// The number of internal path nodes; always zero here.
    pub closed spec fn path_len(&self) -> nat {
        self.path_nodes@.len()
    }

    /// The key the proof speaks of.
    pub fn key(&self) -> (r: &LedgerKey)
        ensures
            r@ == self.spec_key(),
    {
        &self.key
    }

    /// The value the proof wraps.
    pub fn value(&self) -> (r: &StoredValue)
        ensures
            r@ == self.spec_value(),
    {
        &self.value
    }
}

/// The view itself: a snapshot store, the one state root it serves, and
/// the address of the node answering remote fetches.
pub struct RemoteView {
    state_hash: Digest,
    storage: Storage,
    node_address: String,
}

impl View for RemoteView {
    type V = Map<Seq<u8>, Seq<u8>>;

    closed spec fn view(&self) -> Map<Seq<u8>, Seq<u8>> {
        self.storage@
    }
}

impl RemoteView {
    /// The state root this view is pinned to.
    pub closed spec fn spec_state_hash(&self) -> Seq<u8> {
        self.state_hash@
    }

    /// The node address remote fetches go to.
    pub closed spec fn spec_node_address(&self) -> Seq<char> {
        self.node_address@
    }

    /// The wrapped store.
    pub closed spec fn spec_storage(&self) -> Storage {
        self.storage
    }

    /// Well-formedness of the wrapped store and the pinned root.
    pub open spec fn wf(&self) -> bool {
        &&& self.spec_storage().wf()
        &&& self.spec_state_hash().len() == DIGEST_LENGTH
        &&& self@ == self.spec_storage()@
    }

    /// Pins a view to `state_hash`, serving reads from `storage` and
    /// fetches from the node at `node_address`.
    pub fn new(state_hash: Digest, storage: Storage, node_address: String) -> (r: RemoteView)
        requires
            storage.wf(),
            state_hash.wf(),
        ensures
            r.wf(),
            r.spec_state_hash() == state_hash@,
            r.spec_node_address() == node_address@,
            r.spec_storage() == storage,
            r@ == storage@,
    {
        RemoteView { state_hash, storage, node_address }
    }

    /// The wrapped store, for persisting after a run.
    pub fn storage(&self) -> (r: &Storage)
        ensures
            *r == self.spec_storage(),
    {
        &self.storage
    }

    /// The node address remote fetches go to.
    pub fn node_address(&self) -> (r: &String)
        ensures
            r@ == self.spec_node_address(),
    {
        &self.node_address
    }

    /// The state root this view is pinned to.
    pub fn state_hash(&self) -> (r: &Digest)
        ensures
            r@ == self.spec_state_hash(),
    {
        &self.state_hash
    }

    /// Answers a read from the local store alone: a copy of the cached
    /// value, or nothing, in which case one remote fetch is owed and its
    /// outcome belongs in `absorb_remote`.  No fetch is needed for a key
    /// the store holds.
    pub fn read_local(&self, key: &LedgerKey) -> (r: Option<StoredValue>)
        requires
            self.wf(),
        ensures
            match r {
                Some(v) => self@.contains_key(key@) && v@ == self@[key@],
                None => !self@.contains_key(key@),
            },
    {
        self.storage.get(key)
    }

    /// Folds the outcome of one remote fetch for `key` into the view: a
    /// fetched value is cached and returned; a remote "not found" answers
    /// nothing and leaves the store untouched; a remote failure is an
    /// error and also leaves the store untouched.
    pub fn absorb_remote(&mut self, key: &LedgerKey, outcome: RemoteOutcome) -> (r: Result<
        Option<StoredValue>,
        ViewError,
    >)
        requires
            old(self).wf(),
        ensures
            final(self).wf(),
            final(self).spec_state_hash() == old(self).spec_state_hash(),
            final(self).spec_node_address() == old(self).spec_node_address(),
            match outcome {
                RemoteOutcome::Found(v) => {
                    &&& final(self)@ == old(self)@.insert(key@, v@)
                    &&& r matches Ok(rv) && rv matches Some(sv) && sv@ == v@
                },
                RemoteOutcome::NotFound => {
                    &&& final(self)@ == old(self)@
                    &&& r matches Ok(rv) && rv is None
                },
                RemoteOutcome::Failure(cause) => {
                    &&& final(self)@ == old(self)@
                    &&& r matches Err(e) && e matches ViewError::Remote { cause: c } && c@
                        == cause@
                },
            },
    {
        match outcome {
            RemoteOutcome::Found(value) => {
                let returned = value.clone();
                self.storage.insert(key.clone(), value);
                Ok(Some(returned))
            },
            RemoteOutcome::NotFound => Ok(None),
            RemoteOutcome::Failure(cause) => Err(ViewError::Remote { cause }),
        }
    }

    /// Wraps a read's answer in a placeholder inclusion proof with an
    /// empty internal path; a missing value stays missing.  This view
    /// holds no authenticated trie, so no real proof can be produced.
    pub fn wrap_in_proof(key: &LedgerKey, value: Option<StoredValue>) -> (r: Option<
        InclusionProof,
    >)
        ensures
            match value {
                Some(v) => r matches Some(p) && p.spec_key() == key@ && p.spec_value() == v@
                    && p.path_len() == 0,
                None => r is None,
            },
    {
        match value {
            Some(value) => Some(
                InclusionProof { key: key.clone(), value, path_nodes: Vec::new() },
            ),
            None => None,
        }
    }

    /// Serves a checkout of the one state root this view is pinned to.
    /// Asking for any other root breaks the view's contract with its
    /// caller, so it is ruled out here rather than answered.
    pub fn checkout(&self, state_hash: &Digest) -> (r: Option<&RemoteView>)
        requires
            self.wf(),
            state_hash@ == self.spec_state_hash(),
        ensures
            r matches Some(v) && *v == *self,
    {
        Some(self)
    }

    /// The placeholder root of an empty trie.
    pub fn empty_root(&self) -> (r: Digest)
        ensures
            r.wf(),
            r@ == zero_digest(),
    {
        Digest::zero()
    }

    /// Folds an effect batch into the wrapped store, exactly as the
    /// transform applicator does, and answers with the fixed placeholder
    /// root: this view never recomputes an authenticated root hash.  The
    /// batch must target the one state root the view is pinned to.
    pub fn commit(&mut self, state_hash: &Digest, effects: &Vec<(LedgerKey, Transform)>) -> (r:
        Result<Digest, CommitError>)
        requires
            old(self).wf(),
            state_hash@ == old(self).spec_state_hash(),
        ensures
            final(self).wf(),
            final(self).spec_state_hash() == old(self).spec_state_hash(),
            final(self).spec_node_address() == old(self).spec_node_address(),
            ({
                let outcome = apply_batch(old(self)@, batch_views(effects@));
                &&& final(self)@ == outcome.0
                &&& match r {
                    Ok(root) => outcome.1 is None && root@ == zero_digest(),
                    Err(e) => outcome.1 == Some(e@),
                }
            }),
    {
        match crate::transform::commit_effects(&mut self.storage, effects) {
            Ok(()) => Ok(Digest::zero()),
            Err(e) => Err(e),
        }
    }

    /// Enumerating keys by prefix needs the trie structure this view does
    /// not hold.
    pub fn keys_with_prefix(&self, _prefix: &Vec<u8>) -> (r: Result<Vec<LedgerKey>, ViewError>)
        ensures
            r matches Err(e) && e matches ViewError::Unsupported { operation: op } && op@
                == "keys_with_prefix"@,
    {
        Err(ViewError::Unsupported { operation: String::from_str("keys_with_prefix") })
    }

    /// Fetching raw trie nodes needs the trie structure this view does not
    /// hold.
    pub fn get_trie_full(&self, _trie_key: &Digest) -> (r: Result<Option<Vec<u8>>, ViewError>)
        ensures
            r matches Err(e) && e matches ViewError::Unsupported { operation: op } && op@
                == "get_trie_full"@,
    {
        Err(ViewError::Unsupported { operation: String::from_str("get_trie_full") })
    }

    /// Inserting raw trie nodes needs the trie structure this view does
    /// not hold.
    pub fn put_trie(&self, _trie: &Vec<u8>) -> (r: Result<Digest, ViewError>)
        ensures
            r matches Err(e) && e matches ViewError::Unsupported { operation: op } && op@
                == "put_trie"@,
    {
        Err(ViewError::Unsupported { operation: String::from_str("put_trie") })
    }

    /// Reporting missing trie children needs the trie structure this view
    /// does not hold.
    pub fn missing_children(&self, _trie_raw: &Vec<u8>) -> (r: Result<Vec<Digest>, ViewError>)
        ensures
            r matches Err(e) && e matches ViewError::Unsupported { operation: op } && op@
                == "missing_children"@,
    {
        Err(ViewError::Unsupported { operation: String::from_str("missing_children") })
    }

    /// Deleting keys from a root needs the trie structure this view does
    /// not hold.
    pub fn delete_keys(&self, _root: &Digest, _keys: &Vec<LedgerKey>) -> (r: Result<
        Digest,
        ViewError,
    >)
        ensures
            r matches Err(e) && e matches ViewError::Unsupported { operation: op } && op@
                == "delete_keys"@,
    {
        Err(ViewError::Unsupported { operation: String::from_str("delete_keys") })
    }
}

/// Read-through caching: once a remote hit for a key has been absorbed,
/// the local mapping answers that key with the fetched value, so a later
/// read is served locally and owes no further fetch.
pub proof fn lemma_read_through(m: Map<Seq<u8>, Seq<u8>>, k: Seq<u8>, v: Seq<u8>)
    ensures
        m.insert(k, v).contains_key(k),
        m.insert(k, v)[k] == v,
{
}

} // verus!
