//! The transform applicator: folding an ordered batch of mutation effects
//! into a snapshot store.
//!
//! An effect pairs a ledger key with a transform: the identity, an
//! unconditional write, or an update whose meaning is defined by the
//! network's own transform rules.  Updates require the key to be present
//! already; applying the update descriptor to the current value is the
//! network library's computation, reached through one trusted call and
//! named by `update_result`.  A batch is applied in order and aborts at the
//! first failing entry, leaving the effects before it applied.

use vstd::prelude::*;
use vstd::string::StringExecFns;
use casper_types::bytesrepr;
use casper_types::execution::{TransformInstruction, TransformKindV2};
use crate::ledger::{LedgerKey, StoredValue};
use crate::store::Storage;

verus! {

/// An opaque update descriptor, held as its stable serialized encoding.
#[derive(Debug)]
pub struct UpdateKind {
    bytes: Vec<u8>,
}

impl View for UpdateKind {
    type V = Seq<u8>;

    closed spec fn view(&self) -> Seq<u8> {
        self.bytes@
    }
}

impl UpdateKind {
    /// Wraps the serialized encoding of an update descriptor.
    pub fn new(bytes: Vec<u8>) -> (r: Self)
        ensures
            r@ == bytes@,
    {
        UpdateKind { bytes }
    }

    /// The serialized encoding.
    pub fn as_bytes(&self) -> (r: &Vec<u8>)
        ensures
            r@ == self@,
    {
        &self.bytes
    }
}

/// One mutation of one key, as produced by an execution step.
pub enum Transform {
    /// No effect.
    Identity,
    /// Unconditionally stores the value, creating the key if absent.
    Write(StoredValue),
    /// Rewrites the current value by the network's transform rules; the
    /// key must already be present.
    Update(UpdateKind),
}

/// The mathematical model of a transform: the same three shapes over byte
/// strings.
pub enum SpecTransform {
    /// No effect.
    Identity,
    /// Unconditionally stores the value.
    Write(Seq<u8>),
    /// Rewrites the current value by the descriptor.
    Update(Seq<u8>),
}

impl View for Transform {
    type V = SpecTransform;

    closed spec fn view(&self) -> SpecTransform {
        match self {
            Transform::Identity => SpecTransform::Identity,
            Transform::Write(v) => SpecTransform::Write(v@),
            Transform::Update(k) => SpecTransform::Update(k@),
        }
    }
}

/// Why a batch stopped: an update aimed at an absent key, or the network's
/// transform rules rejected the update.
#[derive(Debug)]
pub enum CommitError {
    /// An update-class transform targeted a key with no current value.
    KeyNotFound {
        /// The key the update targeted.
        key: LedgerKey,
    },
    /// The transform rules yielded no stored value for the update.
    TransformFailed {
        /// The key the update targeted.
        key: LedgerKey,
    },
}

impl CommitError {
    /// The rendered message.
    pub open spec fn message_view(&self) -> Seq<char> {
        match self {
            CommitError::KeyNotFound { key: _ } =>
                "update transform aimed at a key not present in storage"@,
            CommitError::TransformFailed { key: _ } =>
                "failed to apply the transform to the current value"@,
        }
    }

    /// Renders the message.
    pub fn message(&self) -> (r: String)
        ensures
            r@ == self.message_view(),
    {
        match self {
            CommitError::KeyNotFound { key: _ } => String::from_str(
                "update transform aimed at a key not present in storage",
            ),
            CommitError::TransformFailed { key: _ } => String::from_str(
                "failed to apply the transform to the current value",
            ),
        }
    }
}

/// The mathematical model of a commit failure.
pub enum SpecCommitError {
    /// An update-class transform targeted an absent key.
    KeyNotFound(Seq<u8>),
    /// The transform rules rejected the update.
    TransformFailed(Seq<u8>),
}

impl View for CommitError {
    type V = SpecCommitError;

    closed spec fn view(&self) -> SpecCommitError {
        match self {
            CommitError::KeyNotFound { key } => SpecCommitError::KeyNotFound(key@),
            CommitError::TransformFailed { key } => SpecCommitError::TransformFailed(key@),
        }
    }
}

/// What the network's transform rules yield when the update descriptor
/// `kind` is applied to the current value `current`: the new value's
/// encoding, or nothing when the rules reject the pair.  The outcome is a
/// function of the two byte strings alone.
pub uninterp spec fn update_result(kind: Seq<u8>, current: Seq<u8>) -> Option<Seq<u8>>;

/// Relies on `casper_types::execution::TransformKindV2::apply`, which
/// computes a transform's effect on a current value and is deterministic in
/// its inputs; `casper_types::bytesrepr` converts both arguments and the
/// result between their serialized encodings and the network's types.  A
/// descriptor or value that does not decode, an instruction other than
/// storing a value, or a rejection by the transform rules all yield
/// nothing.
#[verifier::external_body]
fn apply_update(kind: &UpdateKind, current: &StoredValue) -> (r: Option<StoredValue>)
    ensures
        match r {
            Some(v) => update_result(kind@, current@) == Some(v@),
            None => update_result(kind@, current@) is None,
        },
{
    let parsed_kind: TransformKindV2 = match bytesrepr::deserialize(kind.as_bytes().clone()) {
        Ok(k) => k,
        Err(_) => return None,
    };
    let parsed_value: casper_types::StoredValue =
        match bytesrepr::deserialize(current.as_bytes().clone()) {
            Ok(v) => v,
            Err(_) => return None,
        };
    match parsed_kind.apply(parsed_value) {
        Ok(TransformInstruction::Store(new_value)) => {
            bytesrepr::serialize(new_value).ok().map(StoredValue::new)
        }
        _ => None,
    }
}

/// The effect of one transform on a mapping: the new mapping, or the exact
/// failure.
pub open spec fn apply_one(
    m: Map<Seq<u8>, Seq<u8>>,
    key: Seq<u8>,
    t: SpecTransform,
) -> Result<Map<Seq<u8>, Seq<u8>>, SpecCommitError> {
    match t {
        SpecTransform::Identity => Ok(m),
        SpecTransform::Write(v) => Ok(m.insert(key, v)),
        SpecTransform::Update(kind) => if !m.contains_key(key) {
            Err(SpecCommitError::KeyNotFound(key))
        } else {
            match update_result(kind, m[key]) {
                Some(new_value) => Ok(m.insert(key, new_value)),
                None => Err(SpecCommitError::TransformFailed(key)),
            }
        },
    }
}

/// The effect of an ordered batch: entries applied first to last, stopping
/// at the first failure and keeping what was already applied.
pub open spec fn apply_batch(
    m: Map<Seq<u8>, Seq<u8>>,
    effects: Seq<(Seq<u8>, SpecTransform)>,
) -> (Map<Seq<u8>, Seq<u8>>, Option<SpecCommitError>)
    decreases effects.len(),
{
    if effects.len() == 0 {
        (m, None)
    } else {
        match apply_one(m, effects.first().0, effects.first().1) {
            Ok(m2) => apply_batch(m2, effects.drop_first()),
            Err(e) => (m, Some(e)),
        }
    }
}

/// The views of an effect batch.
pub open spec fn batch_views(s: Seq<(LedgerKey, Transform)>) -> Seq<(Seq<u8>, SpecTransform)> {
    s.map(|i: int, e: (LedgerKey, Transform)| (e.0@, e.1@))
}

/// Folds an effect batch into the store, in order.  On the first failing
/// entry the batch aborts: the store keeps everything applied before it,
/// and the error names the key and the failure exactly as the batch model
/// does.
pub fn commit_effects(store: &mut Storage, effects: &Vec<(LedgerKey, Transform)>) -> (r:
    Result<(), CommitError>)
    requires
        old(store).wf(),
    ensures
        final(store).wf(),
        final(store).spec_path() == old(store).spec_path(),
        ({
            let outcome = apply_batch(old(store)@, batch_views(effects@));
            &&& final(store)@ == outcome.0
            &&& match r {
                Ok(()) => outcome.1 is None,
                Err(e) => outcome.1 == Some(e@),
            }
        }),
{
    let ghost views = batch_views(effects@);
    let ghost initial = old(store)@;
    proof {
        assert(views.skip(0) =~= views);
    }
    let mut i: usize = 0;
    while i < effects.len()
        invariant
            i <= effects@.len(),
            initial == old(store)@,
            views == batch_views(effects@),
            views.len() == effects@.len(),
            store.wf(),
            store.spec_path() == old(store).spec_path(),
            apply_batch(initial, views) == apply_batch(store@, views.skip(i as int)),
        decreases effects@.len() - i,
    {
        let ghost before = store@;
        let entry = &effects[i];
        proof {
            assert(views.skip(i as int).first() == views[i as int]);
            assert(views.skip(i as int).drop_first() =~= views.skip(i + 1));
        }
        match &entry.1 {
            Transform::Identity => {},
            Transform::Write(value) => {
                store.insert(entry.0.clone(), value.clone());
            },
            Transform::Update(kind) => {
                let current = match store.get(&entry.0) {
                    Some(current) => current,
                    None => {
                        proof {
                            let rem = views.skip(i as int);
                            assert(apply_one(store@, rem.first().0, rem.first().1) == Err::<
                                Map<Seq<u8>, Seq<u8>>,
                                SpecCommitError,
                            >(SpecCommitError::KeyNotFound(entry.0@)));
                            assert(apply_batch(store@, rem) == (
                                store@,
                                Some(SpecCommitError::KeyNotFound(entry.0@)),
                            ));
                        }
                        return Err(CommitError::KeyNotFound { key: entry.0.clone() });
                    },
                };
                let new_value = match apply_update(kind, &current) {
                    Some(new_value) => new_value,
                    None => {
                        proof {
                            let rem = views.skip(i as int);
                            assert(apply_one(store@, rem.first().0, rem.first().1) == Err::<
                                Map<Seq<u8>, Seq<u8>>,
                                SpecCommitError,
                            >(SpecCommitError::TransformFailed(entry.0@)));
                            assert(apply_batch(store@, rem) == (
                                store@,
                                Some(SpecCommitError::TransformFailed(entry.0@)),
                            ));
                        }
                        return Err(CommitError::TransformFailed { key: entry.0.clone() });
                    },
                };
                store.insert(entry.0.clone(), new_value);
            },
        }
        proof {
            assert(apply_one(before, views[i as int].0, views[i as int].1) == Ok::<
                Map<Seq<u8>, Seq<u8>>,
                SpecCommitError,
            >(store@));
            assert(apply_batch(before, views.skip(i as int)) == apply_batch(
                store@,
                views.skip(i + 1),
            ));
        }
        i = i + 1;
    }
    proof {
        assert(views.skip(effects@.len() as int).len() == 0);
        assert(apply_batch(store@, views.skip(effects@.len() as int)) == (
            store@,
            None::<SpecCommitError>,
        ));
    }
    Ok(())
}

/// Commit ordering: in a batch that writes a key and then updates it, the
/// update sees the value just written, so the final value for the key is
/// the transform rules' answer on it; if the rules reject that pair, the
/// write itself stays applied.
pub proof fn lemma_commit_ordering(k: Seq<u8>, v1: Seq<u8>, kind: Seq<u8>)
    ensures
        ({
            let batch = seq![
                (k, SpecTransform::Write(v1)),
                (k, SpecTransform::Update(kind)),
            ];
            let outcome = apply_batch(Map::<Seq<u8>, Seq<u8>>::empty(), batch);
            match update_result(kind, v1) {
                Some(v2) => outcome.0 == Map::<Seq<u8>, Seq<u8>>::empty().insert(k, v2)
                    && outcome.1 is None,
                None => outcome.0 == Map::<Seq<u8>, Seq<u8>>::empty().insert(k, v1)
                    && outcome.1 == Some(SpecCommitError::TransformFailed(k)),
            }
        }),
{
    let empty = Map::<Seq<u8>, Seq<u8>>::empty();
    let batch = seq![(k, SpecTransform::Write(v1)), (k, SpecTransform::Update(kind))];
    let rest = batch.drop_first();
    let m1 = empty.insert(k, v1);
    assert(batch.first() == (k, SpecTransform::Write(v1)));
    assert(apply_one(empty, k, SpecTransform::Write(v1)) == Ok::<
        Map<Seq<u8>, Seq<u8>>,
        SpecCommitError,
    >(m1));
    assert(apply_batch(empty, batch) == apply_batch(m1, rest));
    assert(rest =~= seq![(k, SpecTransform::Update(kind))]);
    assert(rest.first() == (k, SpecTransform::Update(kind)));
    assert(rest.drop_first() =~= Seq::<(Seq<u8>, SpecTransform)>::empty());
    assert(m1.contains_key(k) && m1[k] == v1);
    match update_result(kind, v1) {
        Some(v2) => {
            assert(apply_one(m1, k, SpecTransform::Update(kind)) == Ok::<
                Map<Seq<u8>, Seq<u8>>,
                SpecCommitError,
            >(m1.insert(k, v2)));
            assert(apply_batch(m1, rest) == apply_batch(m1.insert(k, v2), rest.drop_first()));
            assert(apply_batch(m1.insert(k, v2), rest.drop_first()) == (
                m1.insert(k, v2),
                None::<SpecCommitError>,
            ));
            assert(m1.insert(k, v2) =~= empty.insert(k, v2));
        },
        None => {
            assert(apply_one(m1, k, SpecTransform::Update(kind)) == Err::<
                Map<Seq<u8>, Seq<u8>>,
                SpecCommitError,
            >(SpecCommitError::TransformFailed(k)));
            assert(apply_batch(m1, rest) == (m1, Some(SpecCommitError::TransformFailed(k))));
        },
    }
}

/// An update aimed at a key never written fails with key-not-found, and
/// the store afterwards still holds no entry for that key.
pub proof fn lemma_update_missing_key(k: Seq<u8>, kind: Seq<u8>)
    ensures
        ({
            let outcome = apply_batch(
                Map::<Seq<u8>, Seq<u8>>::empty(),
                seq![(k, SpecTransform::Update(kind))],
            );
            &&& outcome.0 == Map::<Seq<u8>, Seq<u8>>::empty()
            &&& !outcome.0.contains_key(k)
            &&& outcome.1 == Some(SpecCommitError::KeyNotFound(k))
        }),
{
    let empty = Map::<Seq<u8>, Seq<u8>>::empty();
    let batch = seq![(k, SpecTransform::Update(kind))];
    assert(batch.first() == (k, SpecTransform::Update(kind)));
    assert(!empty.contains_key(k));
    assert(apply_one(empty, k, SpecTransform::Update(kind)) == Err::<
        Map<Seq<u8>, Seq<u8>>,
        SpecCommitError,
    >(SpecCommitError::KeyNotFound(k)));
    assert(apply_batch(empty, batch) == (empty, Some(SpecCommitError::KeyNotFound(k))));
}

/// Idempotent write: committing a write of the same value a second time
/// leaves the store exactly as one write left it, with the key mapped to
/// that value.
pub proof fn lemma_write_idempotent(m: Map<Seq<u8>, Seq<u8>>, k: Seq<u8>, v: Seq<u8>)
    ensures
        ({
            let once = apply_batch(m, seq![(k, SpecTransform::Write(v))]);
            let again = apply_batch(once.0, seq![(k, SpecTransform::Write(v))]);
            &&& once.0 == m.insert(k, v)
            &&& once.1 is None
            &&& again.0 == once.0
            &&& again.1 is None
            &&& again.0.contains_key(k) && again.0[k] == v
        }),
{
    let batch = seq![(k, SpecTransform::Write(v))];
    let m1 = m.insert(k, v);
    assert(batch.first() == (k, SpecTransform::Write(v)));
    assert(batch.drop_first() =~= Seq::<(Seq<u8>, SpecTransform)>::empty());
    assert(apply_batch(m, batch) == apply_batch(m1, batch.drop_first()));
    assert(apply_batch(m1, batch.drop_first()) == (m1, None::<SpecCommitError>));
    assert(apply_batch(m1, batch) == apply_batch(m1.insert(k, v), batch.drop_first()));
    assert(m1.insert(k, v) =~= m1);
}

} // verus!
