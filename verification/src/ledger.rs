//! The plain-value models of the externally defined ledger data.
//!
//! A ledger key and a stored value are opaque payloads with a stable
//! serialized encoding; the library holds each as exactly those bytes.  A
//! state-root digest is a 32-byte content identifier.  The unverified shell
//! converts between these models and the network's own types at the
//! boundary.

use vstd::prelude::*;
use vstd::slice::slice_to_vec;

verus! {

/// The number of bytes in a state-root digest.
pub const DIGEST_LENGTH: usize = 32;

/// The all-zero digest value.
pub open spec fn zero_digest() -> Seq<u8> {
    Seq::new(DIGEST_LENGTH as nat, |i: int| 0u8)
}

/// An opaque identifier of one location in the ledger, held as its stable
/// serialized encoding.  Two keys name the same location exactly when their
/// bytes are equal.
#[derive(Debug)]
pub struct LedgerKey {
    bytes: Vec<u8>,
}

impl View for LedgerKey {
    type V = Seq<u8>;

    closed spec fn view(&self) -> Seq<u8> {
        self.bytes@
    }
}

impl LedgerKey {
    /// Wraps the serialized encoding of a ledger key.
    pub fn new(bytes: Vec<u8>) -> (r: Self)
        ensures
            r@ == bytes@,
    {
        LedgerKey { bytes }
    }

    /// The serialized encoding.
    pub fn as_bytes(&self) -> (r: &Vec<u8>)
        ensures
            r@ == self@,
    {
        &self.bytes
    }
}

impl Clone for LedgerKey {
    /// A clone holds exactly the same bytes.
    fn clone(&self) -> (r: Self)
        ensures
            r@ == self@,
    {
        LedgerKey { bytes: slice_to_vec(self.bytes.as_slice()) }
    }
}

/// The opaque payload stored under a ledger key, held as its stable
/// serialized encoding.
#[derive(Debug)]
pub struct StoredValue {
    bytes: Vec<u8>,
}

impl View for StoredValue {
    type V = Seq<u8>;

    closed spec fn view(&self) -> Seq<u8> {
        self.bytes@
    }
}

impl StoredValue {
    /// Wraps the serialized encoding of a stored value.
    pub fn new(bytes: Vec<u8>) -> (r: Self)
        ensures
            r@ == bytes@,
    {
        StoredValue { bytes }
    }

    /// The serialized encoding.
    pub fn as_bytes(&self) -> (r: &Vec<u8>)
        ensures
            r@ == self@,
    {
        &self.bytes
    }
}

impl Clone for StoredValue {
    /// A clone holds exactly the same bytes.
    fn clone(&self) -> (r: Self)
        ensures
            r@ == self@,
    {
        StoredValue { bytes: slice_to_vec(self.bytes.as_slice()) }
    }
}

/// A 32-byte state-root digest identifying one snapshot of the ledger.
#[derive(Debug)]
pub struct Digest {
    bytes: Vec<u8>,
}

impl View for Digest {
    type V = Seq<u8>;

    closed spec fn view(&self) -> Seq<u8> {
        self.bytes@
    }
}

impl Digest {
    /// True of every digest the library hands out: exactly 32 bytes.
    pub open spec fn wf(&self) -> bool {
        self@.len() == DIGEST_LENGTH
    }

    /// Wraps 32 raw digest bytes.
    pub fn new(bytes: Vec<u8>) -> (r: Self)
        requires
            bytes@.len() == DIGEST_LENGTH,
        ensures
            r@ == bytes@,
            r.wf(),
    {
        Digest { bytes }
    }

    /// The all-zero digest, used as the placeholder root of an empty trie.
    pub fn zero() -> (r: Self)
        ensures
            r.wf(),
            r@ == zero_digest(),
    {
        let mut bytes: Vec<u8> = Vec::new();
        let mut i: usize = 0;
        while i < DIGEST_LENGTH
            invariant
                i <= DIGEST_LENGTH,
                bytes@.len() == i,
                forall|j: int| 0 <= j < i ==> bytes@[j] == 0u8,
            decreases DIGEST_LENGTH - i,
        {
            bytes.push(0u8);
            i = i + 1;
        }
        proof {
            assert(bytes@ =~= zero_digest());
        }
        Digest { bytes }
    }

    /// The raw digest bytes.
    pub fn as_bytes(&self) -> (r: &Vec<u8>)
        ensures
            r@ == self@,
    {
        &self.bytes
    }
}

impl Clone for Digest {
    /// A clone holds exactly the same bytes.
    fn clone(&self) -> (r: Self)
        ensures
            r@ == self@,
    {
        Digest { bytes: slice_to_vec(self.bytes.as_slice()) }
    }
}

/// Decides equality of two byte strings.
pub fn bytes_eq(a: &Vec<u8>, b: &Vec<u8>) -> (r: bool)
    ensures
        r == (a@ == b@),
{
    if a.len() != b.len() {
        proof {
            assert(a@ != b@);
        }
        return false;
    }
    let mut i: usize = 0;
    while i < a.len()
        invariant
            i <= a.len(),
            a@.len() == b@.len(),
            forall|j: int| 0 <= j < i ==> a@[j] == b@[j],
        decreases a.len() - i,
    {
        if a[i] != b[i] {
            proof {
                assert(a@[i as int] != b@[i as int]);
            }
            return false;
        }
        i = i + 1;
    }
    proof {
        assert(a@ =~= b@);
    }
    true
}

} // verus!
