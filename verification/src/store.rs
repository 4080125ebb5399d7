//! The snapshot store: an in-memory mapping from ledger keys to stored
//! values, together with the encoding that persists it and the rules for
//! loading or creating it.
//!
//! The mapping is held as a sequence of entries with pairwise-distinct keys;
//! its mathematical model is the `Map` folded from those entries.  Opening
//! takes the snapshot file's contents (read by the unverified shell) and
//! either decodes them, creates an empty store, or reports exactly why it
//! could not; persisting yields the bytes the shell must write back.
//!
//! A store has one owner, and every mutation goes through an exclusive
//! borrow; a shell that wants several parties to observe one live mapping
//! wraps the store in a shared handle of its own.

use vstd::prelude::*;
use vstd::string::StringExecFns;
use crate::codec::{
    decode_snapshot, encode_snapshot, lemma_snapshot_round_trip, pair_views, spec_decode,
    spec_encode,
};
use crate::ledger::{Digest, LedgerKey, StoredValue, bytes_eq};

verus! {

/// The character for one hex nibble, lower case.
pub open spec fn hex_digit(n: u8) -> char {
    if n == 0 {
        '0'
    } else if n == 1 {
        '1'
    } else if n == 2 {
        '2'
    } else if n == 3 {
        '3'
    } else if n == 4 {
        '4'
    } else if n == 5 {
        '5'
    } else if n == 6 {
        '6'
    } else if n == 7 {
        '7'
    } else if n == 8 {
        '8'
    } else if n == 9 {
        '9'
    } else if n == 10 {
        'a'
    } else if n == 11 {
        'b'
    } else if n == 12 {
        'c'
    } else if n == 13 {
        'd'
    } else if n == 14 {
        'e'
    } else {
        'f'
    }
}

/// The lower-case hex encoding of a byte string, two characters per byte.
pub open spec fn hex_of(b: Seq<u8>) -> Seq<char>
    decreases b.len(),
{
    if b.len() == 0 {
        Seq::empty()
    } else {
        seq![hex_digit(b.first() / 16), hex_digit(b.first() % 16)] + hex_of(b.drop_first())
    }
}

/// Each position of a hex encoding comes from the nibble it prints.
proof fn lemma_hex_of_index(b: Seq<u8>, i: int)
    requires
        0 <= i < b.len(),
    ensures
        hex_of(b).len() == 2 * b.len(),
        hex_of(b)[2 * i] == hex_digit(b[i] / 16),
        hex_of(b)[2 * i + 1] == hex_digit(b[i] % 16),
    decreases b.len(),
{
    if b.len() > 0 {
        if i == 0 {
            lemma_hex_of_len(b.drop_first());
        } else {
            lemma_hex_of_index(b.drop_first(), i - 1);
        }
    }
}

/// A hex encoding has two characters per byte.
proof fn lemma_hex_of_len(b: Seq<u8>)
    ensures
        hex_of(b).len() == 2 * b.len(),
    decreases b.len(),
{
    if b.len() > 0 {
        lemma_hex_of_len(b.drop_first());
    }
}

/// The on-disk name of one snapshot: the network chain name, a dash, and
/// the first seven hex characters of the state-root digest.
pub open spec fn spec_snapshot_file_name(chain_name: Seq<char>, digest: Seq<u8>) -> Seq<char> {
    chain_name + seq!['-'] + hex_of(digest).take(7)
}

/// One hex nibble as a one-character string slice.
fn hex_str(n: u8) -> (r: &'static str)
    requires
        n < 16,
    ensures
        r@ =~= seq![hex_digit(n)],
{
    if n == 0 {
        proof { reveal_strlit("0"); }
        "0"
    } else if n == 1 {
        proof { reveal_strlit("1"); }
        "1"
    } else if n == 2 {
        proof { reveal_strlit("2"); }
        "2"
    } else if n == 3 {
        proof { reveal_strlit("3"); }
        "3"
    } else if n == 4 {
        proof { reveal_strlit("4"); }
        "4"
    } else if n == 5 {
        proof { reveal_strlit("5"); }
        "5"
    } else if n == 6 {
        proof { reveal_strlit("6"); }
        "6"
    } else if n == 7 {
        proof { reveal_strlit("7"); }
        "7"
    } else if n == 8 {
        proof { reveal_strlit("8"); }
        "8"
    } else if n == 9 {
        proof { reveal_strlit("9"); }
        "9"
    } else if n == 10 {
        proof { reveal_strlit("a"); }
        "a"
    } else if n == 11 {
        proof { reveal_strlit("b"); }
        "b"
    } else if n == 12 {
        proof { reveal_strlit("c"); }
        "c"
    } else if n == 13 {
        proof { reveal_strlit("d"); }
        "d"
    } else if n == 14 {
        proof { reveal_strlit("e"); }
        "e"
    } else {
        proof { reveal_strlit("f"); }
        "f"
    }
}

/// Derives the file name identifying one snapshot on disk: the chain name,
/// a dash, and the first seven hex characters of the digest.  The caller
/// joins it onto the storage root directory.
pub fn snapshot_file_name(chain_name: &str, state_hash: &Digest) -> (r: String)
    requires
        state_hash.wf(),
    ensures
        r@ == spec_snapshot_file_name(chain_name@, state_hash@),
{
    let mut out = chain_name.to_owned();
    proof {
        reveal_strlit("-");
        assert("-"@ =~= seq!['-']);
    }
    out.append("-");
    let bytes = state_hash.as_bytes();
    let b0 = bytes[0];
    let b1 = bytes[1];
    let b2 = bytes[2];
    let b3 = bytes[3];
    out.append(hex_str(b0 / 16));
    out.append(hex_str(b0 % 16));
    out.append(hex_str(b1 / 16));
    out.append(hex_str(b1 % 16));
    out.append(hex_str(b2 / 16));
    out.append(hex_str(b2 % 16));
    out.append(hex_str(b3 / 16));
    proof {
        let d = state_hash@;
        lemma_hex_of_index(d, 0);
        lemma_hex_of_index(d, 1);
        lemma_hex_of_index(d, 2);
        lemma_hex_of_index(d, 3);
        assert(out@ =~= spec_snapshot_file_name(chain_name@, d));
    }
    out
}

/// The mapping described by an entry sequence: entries folded in order,
/// later entries for a key overwriting earlier ones.
pub open spec fn pairs_map(ps: Seq<(Seq<u8>, Seq<u8>)>) -> Map<Seq<u8>, Seq<u8>>
    decreases ps.len(),
{
    if ps.len() == 0 {
        Map::empty()
    } else {
        pairs_map(ps.drop_last()).insert(ps.last().0, ps.last().1)
    }
}

/// Pairwise-distinct keys in an entry sequence.
pub open spec fn keys_unique(ps: Seq<(Seq<u8>, Seq<u8>)>) -> bool {
    forall|i: int, j: int| 0 <= i < j < ps.len() ==> ps[i].0 != ps[j].0
}

/// Every payload fits an eight-byte length prefix, and so does the count.
pub open spec fn lengths_fit(ps: Seq<(Seq<u8>, Seq<u8>)>) -> bool {
    &&& ps.len() <= u64::MAX
    &&& forall|i: int| 0 <= i < ps.len() ==> #[trigger] ps[i].0.len() <= u64::MAX
    &&& forall|i: int| 0 <= i < ps.len() ==> #[trigger] ps[i].1.len() <= u64::MAX
}

/// An entry with key `k` fixes the folded mapping at `k`.
proof fn lemma_pairs_map_found(ps: Seq<(Seq<u8>, Seq<u8>)>, i: int)
    requires
        keys_unique(ps),
        0 <= i < ps.len(),
    ensures
        pairs_map(ps).contains_key(ps[i].0),
        pairs_map(ps)[ps[i].0] == ps[i].1,
    decreases ps.len(),
{
    if i == ps.len() - 1 {
    } else {
        assert(keys_unique(ps.drop_last()));
        lemma_pairs_map_found(ps.drop_last(), i);
        assert(ps.last().0 != ps[i].0);
    }
}

/// A key under no entry is outside the folded mapping.
proof fn lemma_pairs_map_absent(ps: Seq<(Seq<u8>, Seq<u8>)>, k: Seq<u8>)
    requires
        forall|i: int| 0 <= i < ps.len() ==> #[trigger] ps[i].0 != k,
    ensures
        !pairs_map(ps).contains_key(k),
    decreases ps.len(),
{
    if ps.len() > 0 {
        lemma_pairs_map_absent(ps.drop_last(), k);
    }
}

/// Overwriting the value of the entry holding `k` inserts into the folded
/// mapping.
proof fn lemma_pairs_map_update(ps: Seq<(Seq<u8>, Seq<u8>)>, i: int, v: Seq<u8>)
    requires
        keys_unique(ps),
        0 <= i < ps.len(),
    ensures
        pairs_map(ps.update(i, (ps[i].0, v))) == pairs_map(ps).insert(ps[i].0, v),
    decreases ps.len(),
{
    let updated = ps.update(i, (ps[i].0, v));
    if i == ps.len() - 1 {
        assert(updated.drop_last() =~= ps.drop_last());
        assert(pairs_map(updated) =~= pairs_map(ps).insert(ps[i].0, v));
    } else {
        assert(keys_unique(ps.drop_last()));
        lemma_pairs_map_update(ps.drop_last(), i, v);
        assert(updated.drop_last() =~= ps.drop_last().update(i, (ps[i].0, v)));
        assert(updated.last() == ps.last());
        assert(ps.last().0 != ps[i].0);
        assert(pairs_map(updated) =~= pairs_map(ps).insert(ps[i].0, v));
    }
}

/// Error while loading or persisting a stored snapshot.  The file paths and
/// the causes of shell-side failures arrive as plain strings.
#[derive(Debug)]
pub enum StorageError {
    /// No snapshot file exists at the path and creation was not permitted.
    MissingFile {
        /// The snapshot file path.
        path: String,
    },
    /// The shell failed to read the snapshot file.
    Read {
        /// The underlying cause.
        cause: String,
        /// The snapshot file path.
        path: String,
    },
    /// The snapshot file's contents do not decode to a mapping.
    Deserialize {
        /// The snapshot file path.
        path: String,
    },
    /// The shell failed to create the snapshot file's directory.
    CreateDir {
        /// The directory path.
        cause: String,
        /// The snapshot file path.
        path: String,
    },
    /// The shell failed to write the snapshot file.
    Write {
        /// The underlying cause.
        cause: String,
        /// The snapshot file path.
        path: String,
    },
}

impl StorageError {
    /// The rendered message, naming the path and the underlying cause.
    pub open spec fn message_view(&self) -> Seq<char> {
        match self {
            StorageError::MissingFile { path } => "no global state found at `"@ + path@ + "`"@,
            StorageError::Read { cause, path } =>
                "failed to read stored global state file at `"@ + path@ + "`: "@ + cause@,
            StorageError::Deserialize { path } =>
                "failed to deserialize stored global state file at `"@ + path@ + "`"@,
            StorageError::CreateDir { cause, path } =>
                "failed to create dir for stored global state at `"@ + path@ + "`: "@ + cause@,
            StorageError::Write { cause, path } =>
                "failed to write stored global state file to `"@ + path@ + "`: "@ + cause@,
        }
    }

    /// Renders the message.
    pub fn message(&self) -> (r: String)
        ensures
            r@ == self.message_view(),
    {
        match self {
            StorageError::MissingFile { path } => String::from_str(
                "no global state found at `",
            ).concat(path.as_str()).concat("`"),
            StorageError::Read { cause, path } => String::from_str(
                "failed to read stored global state file at `",
            ).concat(path.as_str()).concat("`: ").concat(cause.as_str()),
            StorageError::Deserialize { path } => String::from_str(
                "failed to deserialize stored global state file at `",
            ).concat(path.as_str()).concat("`"),
            StorageError::CreateDir { cause, path } => String::from_str(
                "failed to create dir for stored global state at `",
            ).concat(path.as_str()).concat("`: ").concat(cause.as_str()),
            StorageError::Write { cause, path } => String::from_str(
                "failed to write stored global state file to `",
            ).concat(path.as_str()).concat("`: ").concat(cause.as_str()),
        }
    }
}

/// The in-memory key/value mapping backing one snapshot, identified by the
/// path of its on-disk file.
pub struct Storage {
    path: String,
    entries: Vec<(LedgerKey, StoredValue)>,
}

impl View for Storage {
    type V = Map<Seq<u8>, Seq<u8>>;

    closed spec fn view(&self) -> Map<Seq<u8>, Seq<u8>> {
        pairs_map(pair_views(self.entries@))
    }
}

impl Storage {
    /// The entry sequence as byte strings, in storage order.
    pub closed spec fn entries_view(&self) -> Seq<(Seq<u8>, Seq<u8>)> {
        pair_views(self.entries@)
    }

    /// The path of the snapshot file backing this store.
    pub closed spec fn spec_path(&self) -> Seq<char> {
        self.path@
    }

    /// Well-formedness: keys are pairwise distinct and every length fits
    /// its encoding prefix.
    pub open spec fn wf(&self) -> bool {
        &&& keys_unique(self.entries_view())
        &&& lengths_fit(self.entries_view())
    }

    /// A new store with no entries, backed by the file at `path`.
    pub fn new_empty(path: String) -> (r: Storage)
        ensures
            r.wf(),
            r@ == Map::<Seq<u8>, Seq<u8>>::empty(),
            r.entries_view() == Seq::<(Seq<u8>, Seq<u8>)>::empty(),
            r.spec_path() == path@,
    {
        let r = Storage { path, entries: Vec::new() };
        proof {
            assert(pair_views(r.entries@) =~= Seq::<(Seq<u8>, Seq<u8>)>::empty());
        }
        r
    }

    /// The snapshot file path.
    pub fn path(&self) -> (r: &String)
        ensures
            r@ == self.spec_path(),
    {
        &self.path
    }

    /// The number of entries held.
    pub fn entry_count(&self) -> (r: usize)
        ensures
            r == self.entries_view().len(),
    {
        self.entries.len()
    }

    /// The entry at one position, for walking the whole mapping.
    pub fn entry_at(&self, i: usize) -> (r: (&LedgerKey, &StoredValue))
        requires
            i < self.entries_view().len(),
        ensures
            r.0@ == self.entries_view()[i as int].0,
            r.1@ == self.entries_view()[i as int].1,
            self.wf() ==> self@.contains_key(r.0@) && self@[r.0@] == r.1@,
    {
        proof {
            if self.wf() {
                lemma_pairs_map_found(self.entries_view(), i as int);
            }
        }
        let entry = &self.entries[i];
        (&entry.0, &entry.1)
    }

    /// The position of the entry holding `key`, if one does.
    fn find_index(&self, key: &LedgerKey) -> (r: Option<usize>)
        ensures
            match r {
                Some(i) => i < self.entries_view().len() && self.entries_view()[i as int].0
                    == key@,
                None => forall|i: int|
                    0 <= i < self.entries_view().len() ==> #[trigger] self.entries_view()[i].0
                        != key@,
            },
    {
        let mut i: usize = 0;
        while i < self.entries.len()
            invariant
                i <= self.entries_view().len(),
                self.entries_view().len() == self.entries@.len(),
                forall|j: int|
                    0 <= j < i ==> #[trigger] self.entries_view()[j].0 != key@,
            decreases self.entries@.len() - i,
        {
            let entry = &self.entries[i];
            if bytes_eq(entry.0.as_bytes(), key.as_bytes()) {
                return Some(i);
            }
            i = i + 1;
        }
        None
    }

    /// Looks `key` up in the in-memory mapping, returning a copy of the
    /// stored value if one is held.  Never fails.
    pub fn get(&self, key: &LedgerKey) -> (r: Option<StoredValue>)
        requires
            self.wf(),
        ensures
            match r {
                Some(v) => self@.contains_key(key@) && v@ == self@[key@],
                None => !self@.contains_key(key@),
            },
    {
        match self.find_index(key) {
            Some(i) => {
                proof {
                    lemma_pairs_map_found(self.entries_view(), i as int);
                }
                let entry = &self.entries[i];
                Some(entry.1.clone())
            },
            None => {
                proof {
                    lemma_pairs_map_absent(self.entries_view(), key@);
                }
                None
            },
        }
    }

    /// Whether the mapping holds `key`.
    pub fn contains(&self, key: &LedgerKey) -> (r: bool)
        requires
            self.wf(),
        ensures
            r == self@.contains_key(key@),
    {
        match self.find_index(key) {
            Some(i) => {
                proof {
                    lemma_pairs_map_found(self.entries_view(), i as int);
                }
                true
            },
            None => {
                proof {
                    lemma_pairs_map_absent(self.entries_view(), key@);
                }
                false
            },
        }
    }

    /// Unconditionally maps `key` to `value` in memory, overwriting any
    /// earlier value.  Never fails; the file is untouched until the store
    /// is persisted.
    pub fn insert(&mut self, key: LedgerKey, value: StoredValue)
        requires
            old(self).wf(),
        ensures
            final(self).wf(),
            final(self)@ == old(self)@.insert(key@, value@),
            final(self).spec_path() == old(self).spec_path(),
    {
        // A payload held in memory always fits the eight-byte length prefix.
        let key_len = key.as_bytes().len();
        let value_len = value.as_bytes().len();
        proof {
            assert(key_len <= u64::MAX && value_len <= u64::MAX);
        }
        match self.find_index(&key) {
            Some(i) => {
                let ghost old_views = self.entries_view();
                proof {
                    lemma_pairs_map_update(old_views, i as int, value@);
                }
                self.entries.set(i, (key, value));
                proof {
                    let new_views = self.entries_view();
                    assert(new_views =~= old_views.update(
                        i as int,
                        (old_views[i as int].0, value@),
                    ));
                    assert forall|a: int, b: int|
                        0 <= a < b < new_views.len() implies new_views[a].0 != new_views[
                        b].0 by {
                        assert(new_views[a].0 == old_views[a].0);
                        assert(new_views[b].0 == old_views[b].0);
                    }
                    assert forall|a: int| 0 <= a < new_views.len() implies #[trigger] new_views[
                        a].0.len() <= u64::MAX by {
                        assert(new_views[a].0 == old_views[a].0);
                    }
                    assert forall|a: int| 0 <= a < new_views.len() implies #[trigger] new_views[
                        a].1.len() <= u64::MAX by {
                        if a != i {
                            assert(new_views[a].1 == old_views[a].1);
                        }
                    }
                }
            },
            None => {
                let ghost old_views = self.entries_view();
                self.entries.push((key, value));
                // The count held in memory fits the eight-byte prefix.
                let count = self.entries.len();
                proof {
                    let new_views = self.entries_view();
                    assert(new_views =~= old_views.push((key@, value@)));
                    assert(new_views.drop_last() =~= old_views);
                    assert(new_views.len() == count && count <= u64::MAX);
                    assert forall|a: int, b: int|
                        0 <= a < b < new_views.len() implies new_views[a].0 != new_views[
                        b].0 by {
                        if b < new_views.len() - 1 {
                            assert(new_views[a].0 == old_views[a].0);
                            assert(new_views[b].0 == old_views[b].0);
                        } else {
                            assert(new_views[a].0 == old_views[a].0);
                            assert(old_views[a].0 != key@);
                        }
                    }
                    assert forall|a: int| 0 <= a < new_views.len() implies #[trigger] new_views[
                        a].0.len() <= u64::MAX by {
                        if a < new_views.len() - 1 {
                            assert(new_views[a].0 == old_views[a].0);
                        }
                    }
                    assert forall|a: int| 0 <= a < new_views.len() implies #[trigger] new_views[
                        a].1.len() <= u64::MAX by {
                        if a < new_views.len() - 1 {
                            assert(new_views[a].1 == old_views[a].1);
                        }
                    }
                }
            },
        }
    }

    /// Serializes the whole mapping into the bytes of the snapshot file.
    /// Decoding those bytes restores exactly the entries they were made
    /// from.
    pub fn persist_bytes(&self) -> (r: Vec<u8>)
        requires
            self.wf(),
        ensures
            r@ == spec_encode(self.entries_view()),
            spec_decode(r@) == Some(self.entries_view()),
            pairs_map(self.entries_view()) == self@,
    {
        proof {
            lemma_snapshot_round_trip(self.entries_view());
        }
        encode_snapshot(&self.entries)
    }

    /// Loads a store from the snapshot file's contents, or creates an
    /// empty one.
    ///
    /// With contents in hand they must decode, else the snapshot is
    /// reported corrupt.  With no file present, an empty store is created
    /// only when `create_if_missing` permits; the caller owes that fresh
    /// store an immediate persist so that the file exists afterwards.
    pub fn open(path: String, file_contents: Option<Vec<u8>>, create_if_missing: bool) -> (r:
        Result<Storage, StorageError>)
        ensures
            match r {
                Ok(s) => {
                    &&& s.wf()
                    &&& s.spec_path() == path@
                    &&& match file_contents {
                        Some(bytes) => spec_decode(bytes@) matches Some(ps) && s@ == pairs_map(
                            ps,
                        ),
                        None => create_if_missing && s@ == Map::<Seq<u8>, Seq<u8>>::empty()
                            && s.entries_view() == Seq::<(Seq<u8>, Seq<u8>)>::empty(),
                    }
                },
                Err(e) => match e {
                    StorageError::MissingFile { path: p } => file_contents is None
                        && !create_if_missing && p@ == path@,
                    StorageError::Deserialize { path: p } => file_contents matches Some(bytes)
                        && spec_decode(bytes@) is None && p@ == path@,
                    _ => false,
                },
            },
    {
        let bytes = match file_contents {
            Some(bytes) => bytes,
            None => {
                if create_if_missing {
                    return Ok(Storage::new_empty(path));
                }
                return Err(StorageError::MissingFile { path });
            },
        };
        let decoded = match decode_snapshot(&bytes) {
            Some(entries) => entries,
            None => {
                return Err(StorageError::Deserialize { path });
            },
        };
        let ghost path_view = path@;
        let mut store = Storage::new_empty(path);
        let ghost decoded_views = pair_views(decoded@);
        let mut i: usize = 0;
        while i < decoded.len()
            invariant
                i <= decoded@.len(),
                decoded_views == pair_views(decoded@),
                decoded_views.len() == decoded@.len(),
                store.wf(),
                store.spec_path() == path_view,
                store@ == pairs_map(decoded_views.take(i as int)),
            decreases decoded@.len() - i,
        {
            let entry = &decoded[i];
            store.insert(entry.0.clone(), entry.1.clone());
            proof {
                assert(decoded_views.take(i + 1).drop_last() =~= decoded_views.take(i as int));
                assert(decoded_views.take(i + 1).last() == decoded_views[i as int]);
            }
            i = i + 1;
        }
        proof {
            assert(decoded_views.take(decoded@.len() as int) =~= decoded_views);
        }
        Ok(store)
    }
}

/// Round trip: the bytes a store persists decode back to the very entries
/// they were made from, so a mapping written and reopened is reloaded
/// key-for-key and value-for-value.
pub proof fn lemma_persist_open_round_trip(s: Storage)
    requires
        s.wf(),
    ensures
        spec_decode(spec_encode(s.entries_view())) == Some(s.entries_view()),
        pairs_map(s.entries_view()) == s@,
{
    lemma_snapshot_round_trip(s.entries_view());
}

/// Create-on-open: a store created for a fresh identifier holds the empty
/// mapping, and the file it persists reopens to that same empty mapping.
pub proof fn lemma_create_on_open()
    ensures
        ({
            let no_entries = Seq::<(Seq<u8>, Seq<u8>)>::empty();
            &&& spec_decode(spec_encode(no_entries)) == Some(no_entries)
            &&& pairs_map(no_entries) == Map::<Seq<u8>, Seq<u8>>::empty()
        }),
{
    lemma_snapshot_round_trip(Seq::<(Seq<u8>, Seq<u8>)>::empty());
}

} // verus!
