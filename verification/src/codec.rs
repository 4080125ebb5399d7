//! The on-disk encoding of a snapshot: a length-prefixed binary layout of
//! the full key-to-value mapping.
//!
//! The byte layout is: an eight-byte little-endian count of entries, then,
//! for each entry in order, the key bytes and the value bytes, each prefixed
//! by its own eight-byte little-endian length.  Decoding is the exact
//! inverse: `lemma_snapshot_round_trip` proves that decoding an encoded
//! entry sequence yields that sequence back.

use vstd::prelude::*;
use vstd::bytes::{
    lemma_auto_spec_u64_to_from_le_bytes, spec_u64_from_le_bytes, spec_u64_to_le_bytes,
    u64_from_le_bytes, u64_to_le_bytes,
};
use vstd::slice::{slice_subrange, slice_to_vec};
use crate::ledger::{LedgerKey, StoredValue};

verus! {

/// The views of an entry sequence: each ledger key and stored value as its
/// byte string.
pub open spec fn pair_views(s: Seq<(LedgerKey, StoredValue)>) -> Seq<(Seq<u8>, Seq<u8>)> {
    s.map(|i: int, p: (LedgerKey, StoredValue)| (p.0@, p.1@))
}

/// One length-prefixed chunk: eight little-endian length bytes, then the
/// payload itself.
pub open spec fn chunk(b: Seq<u8>) -> Seq<u8> {
    spec_u64_to_le_bytes(b.len() as u64) + b
}

/// The encoding of one key/value pair: the key chunk then the value chunk.
pub open spec fn encode_pair(p: (Seq<u8>, Seq<u8>)) -> Seq<u8> {
    chunk(p.0) + chunk(p.1)
}

/// The concatenated encodings of a pair sequence, in order.
pub open spec fn encode_pairs(ps: Seq<(Seq<u8>, Seq<u8>)>) -> Seq<u8>
    decreases ps.len(),
{
    if ps.len() == 0 {
        Seq::empty()
    } else {
        encode_pair(ps.first()) + encode_pairs(ps.drop_first())
    }
}

/// The whole snapshot encoding: the entry count, then every pair.
pub open spec fn spec_encode(ps: Seq<(Seq<u8>, Seq<u8>)>) -> Seq<u8> {
    spec_u64_to_le_bytes(ps.len() as u64) + encode_pairs(ps)
}

/// Splits one length-prefixed chunk off the front of `b`, yielding the
/// payload and the remainder, or nothing when `b` is too short.
pub open spec fn take_chunk(b: Seq<u8>) -> Option<(Seq<u8>, Seq<u8>)> {
    if b.len() < 8 {
        None
    } else {
        let n = spec_u64_from_le_bytes(b.take(8)) as int;
        let rest = b.skip(8);
        if rest.len() < n {
            None
        } else {
            Some((rest.take(n), rest.skip(n)))
        }
    }
}

/// Splits `n` encoded pairs off the front of `b`, yielding them together
/// with the remainder, or nothing when `b` does not hold that many.
pub open spec fn take_pairs(b: Seq<u8>, n: nat) -> Option<(Seq<(Seq<u8>, Seq<u8>)>, Seq<u8>)>
    decreases n,
{
    if n == 0 {
        Some((Seq::empty(), b))
    } else {
        match take_chunk(b) {
            None => None,
            Some((key, after_key)) => match take_chunk(after_key) {
                None => None,
                Some((value, after_value)) => match take_pairs(after_value, (n - 1) as nat) {
                    None => None,
                    Some((ps, rest)) => Some((seq![(key, value)] + ps, rest)),
                },
            },
        }
    }
}

/// The decoding of a whole snapshot: the counted pairs, with nothing left
/// over; anything else is a decode failure.
pub open spec fn spec_decode(b: Seq<u8>) -> Option<Seq<(Seq<u8>, Seq<u8>)>> {
    if b.len() < 8 {
        None
    } else {
        let n = spec_u64_from_le_bytes(b.take(8));
        match take_pairs(b.skip(8), n as nat) {
            None => None,
            Some((ps, rest)) => if rest.len() == 0 {
                Some(ps)
            } else {
                None
            },
        }
    }
}

/// Splitting a chunk off `chunk(b) + t` yields exactly `b` and `t`.
proof fn lemma_take_chunk_of_chunk(b: Seq<u8>, t: Seq<u8>)
    requires
        b.len() <= u64::MAX,
    ensures
        take_chunk(chunk(b) + t) == Some((b, t)),
{
    lemma_auto_spec_u64_to_from_le_bytes();
    let whole = chunk(b) + t;
    assert(whole.take(8) =~= spec_u64_to_le_bytes(b.len() as u64));
    assert(spec_u64_from_le_bytes(whole.take(8)) == b.len());
    let rest = whole.skip(8);
    assert(rest =~= b + t);
    assert(rest.take(b.len() as int) =~= b);
    assert(rest.skip(b.len() as int) =~= t);
}

/// Splitting `ps.len()` pairs off `encode_pairs(ps) + t` yields exactly
/// `ps` and `t`.
proof fn lemma_take_pairs_of_encode(ps: Seq<(Seq<u8>, Seq<u8>)>, t: Seq<u8>)
    requires
        forall|i: int| 0 <= i < ps.len() ==> #[trigger] ps[i].0.len() <= u64::MAX,
        forall|i: int| 0 <= i < ps.len() ==> #[trigger] ps[i].1.len() <= u64::MAX,
    ensures
        take_pairs(encode_pairs(ps) + t, ps.len()) == Some((ps, t)),
    decreases ps.len(),
{
    if ps.len() == 0 {
        assert(encode_pairs(ps) + t =~= t);
        assert(take_pairs(t, 0) == Some((Seq::<(Seq<u8>, Seq<u8>)>::empty(), t)));
        assert(ps =~= Seq::<(Seq<u8>, Seq<u8>)>::empty());
    } else {
        let p = ps.first();
        let rest = ps.drop_first();
        let tail = encode_pairs(rest) + t;
        let whole = encode_pairs(ps) + t;
        assert(whole =~= chunk(p.0) + (chunk(p.1) + tail));
        lemma_take_chunk_of_chunk(p.0, chunk(p.1) + tail);
        lemma_take_chunk_of_chunk(p.1, tail);
        lemma_take_pairs_of_encode(rest, t);
        assert(take_pairs(whole, ps.len()) == Some((seq![p] + rest, t)));
        assert(seq![p] + rest =~= ps);
    }
}

/// Decoding an encoded entry sequence yields that sequence back, whenever
/// the counts fit the length prefixes.
pub proof fn lemma_snapshot_round_trip(ps: Seq<(Seq<u8>, Seq<u8>)>)
    requires
        ps.len() <= u64::MAX,
        forall|i: int| 0 <= i < ps.len() ==> #[trigger] ps[i].0.len() <= u64::MAX,
        forall|i: int| 0 <= i < ps.len() ==> #[trigger] ps[i].1.len() <= u64::MAX,
    ensures
        spec_decode(spec_encode(ps)) == Some(ps),
{
    lemma_auto_spec_u64_to_from_le_bytes();
    let whole = spec_encode(ps);
    assert(whole.take(8) =~= spec_u64_to_le_bytes(ps.len() as u64));
    assert(spec_u64_from_le_bytes(whole.take(8)) == ps.len());
    assert(whole.skip(8) =~= encode_pairs(ps) + Seq::<u8>::empty());
    lemma_take_pairs_of_encode(ps, Seq::<u8>::empty());
}

/// Appends one length-prefixed chunk to `out`.
fn push_chunk(out: &mut Vec<u8>, payload: &Vec<u8>)
    ensures
        final(out)@ == old(out)@ + chunk(payload@),
{
    proof {
        lemma_auto_spec_u64_to_from_le_bytes();
    }
    let len: u64 = payload.len() as u64;
    let mut prefix = u64_to_le_bytes(len);
    out.append(&mut prefix);
    let mut body = slice_to_vec(payload.as_slice());
    out.append(&mut body);
    proof {
        assert(out@ =~= old(out)@ + chunk(payload@));
    }
}

/// Encodes an entry sequence into the snapshot byte layout.
pub fn encode_snapshot(entries: &Vec<(LedgerKey, StoredValue)>) -> (r: Vec<u8>)
    ensures
        r@ == spec_encode(pair_views(entries@)),
{
    proof {
        lemma_auto_spec_u64_to_from_le_bytes();
    }
    let count: u64 = entries.len() as u64;
    let mut out = u64_to_le_bytes(count);
    let ghost views = pair_views(entries@);
    let mut i: usize = 0;
    while i < entries.len()
        invariant
            i <= entries.len(),
            entries.len() <= u64::MAX,
            views == pair_views(entries@),
            views.len() == entries.len(),
            out@ == spec_u64_to_le_bytes(entries.len() as u64) + encode_pairs(views.take(i as int)),
        decreases entries.len() - i,
    {
        let entry = &entries[i];
        push_chunk(&mut out, entry.0.as_bytes());
        push_chunk(&mut out, entry.1.as_bytes());
        proof {
            let taken = views.take(i as int);
            let taken_next = views.take(i + 1);
            lemma_encode_pairs_push(taken, views[i as int]);
            assert(taken.push(views[i as int]) =~= taken_next);
            assert(out@ =~= spec_u64_to_le_bytes(entries.len() as u64) + encode_pairs(taken_next));
        }
        i = i + 1;
    }
    proof {
        assert(views.take(entries@.len() as int) =~= views);
    }
    out
}

/// Appending one pair to an encoded sequence appends its encoding.
proof fn lemma_encode_pairs_push(ps: Seq<(Seq<u8>, Seq<u8>)>, p: (Seq<u8>, Seq<u8>))
    ensures
        encode_pairs(ps.push(p)) == encode_pairs(ps) + encode_pair(p),
    decreases ps.len(),
{
    if ps.len() == 0 {
        assert(ps.push(p).drop_first() =~= ps);
        assert(encode_pairs(ps.push(p)) =~= encode_pair(p));
        assert(encode_pairs(ps) + encode_pair(p) =~= encode_pair(p));
    } else {
        assert(ps.push(p).first() == ps.first());
        assert(ps.push(p).drop_first() =~= ps.drop_first().push(p));
        lemma_encode_pairs_push(ps.drop_first(), p);
        assert(encode_pairs(ps.push(p)) =~= encode_pairs(ps) + encode_pair(p));
    }
}

/// Reads one length-prefixed chunk starting at `pos`, returning the payload
/// and the position just after it.
fn read_chunk(bytes: &Vec<u8>, pos: usize) -> (r: Option<(Vec<u8>, usize)>)
    requires
        pos <= bytes@.len(),
    ensures
        match r {
            Some(taken) => {
                &&& take_chunk(bytes@.skip(pos as int)) == Some(
                    (taken.0@, bytes@.skip(taken.1 as int)),
                )
                &&& pos + 8 <= taken.1 <= bytes@.len()
            },
            None => take_chunk(bytes@.skip(pos as int)) is None,
        },
{
    proof {
        lemma_auto_spec_u64_to_from_le_bytes();
    }
    let remaining = bytes.len() - pos;
    if remaining < 8 {
        return None;
    }
    let prefix = slice_subrange(bytes.as_slice(), pos, pos + 8);
    proof {
        assert(bytes@.skip(pos as int).take(8) =~= bytes@.subrange(pos as int, pos + 8));
    }
    let len: u64 = u64_from_le_bytes(prefix);
    let after_prefix = pos + 8;
    let rest_len = bytes.len() - after_prefix;
    if len > rest_len as u64 {
        proof {
            assert(bytes@.skip(pos as int).skip(8).len() < len as int);
        }
        return None;
    }
    let body_len: usize = len as usize;
    let body = slice_to_vec(slice_subrange(bytes.as_slice(), after_prefix, after_prefix + body_len));
    let new_pos = after_prefix + body_len;
    proof {
        let tail = bytes@.skip(pos as int).skip(8);
        assert(tail =~= bytes@.skip(after_prefix as int));
        assert(tail.take(len as int) =~= bytes@.subrange(after_prefix as int, new_pos as int));
        assert(tail.skip(len as int) =~= bytes@.skip(new_pos as int));
    }
    Some((body, new_pos))
}

/// Decodes a snapshot byte string back into its entry sequence; yields
/// nothing exactly when the bytes are not a whole snapshot encoding.
pub fn decode_snapshot(bytes: &Vec<u8>) -> (r: Option<Vec<(LedgerKey, StoredValue)>>)
    ensures
        match r {
            Some(entries) => spec_decode(bytes@) == Some(pair_views(entries@)),
            None => spec_decode(bytes@) is None,
        },
{
    proof {
        lemma_auto_spec_u64_to_from_le_bytes();
    }
    if bytes.len() < 8 {
        return None;
    }
    let prefix = slice_subrange(bytes.as_slice(), 0, 8);
    proof {
        assert(bytes@.take(8) =~= bytes@.subrange(0, 8));
    }
    let count: u64 = u64_from_le_bytes(prefix);
    let mut entries: Vec<(LedgerKey, StoredValue)> = Vec::new();
    let mut pos: usize = 8;
    let mut i: u64 = 0;
    proof {
        assert(bytes@.skip(pos as int) =~= bytes@.skip(8));
    }
    while i < count
        invariant
            i <= count,
            8 <= pos <= bytes@.len(),
            count == spec_u64_from_le_bytes(bytes@.take(8)),
            pair_views(entries@).len() == i,
            match take_pairs(bytes@.skip(pos as int), (count - i) as nat) {
                Some(taken) => take_pairs(bytes@.skip(8), count as nat) == Some(
                    (pair_views(entries@) + taken.0, taken.1),
                ),
                None => take_pairs(bytes@.skip(8), count as nat) is None,
            },
        decreases count - i,
    {
        let key_chunk = match read_chunk(bytes, pos) {
            Some(taken) => taken,
            None => {
                proof {
                    assert(take_pairs(bytes@.skip(pos as int), (count - i) as nat) is None);
                    assert(spec_decode(bytes@) is None);
                }
                return None;
            },
        };
        let value_chunk = match read_chunk(bytes, key_chunk.1) {
            Some(taken) => taken,
            None => {
                proof {
                    assert(take_pairs(bytes@.skip(pos as int), (count - i) as nat) is None);
                    assert(spec_decode(bytes@) is None);
                }
                return None;
            },
        };
        let ghost old_entries = entries@;
        let ghost old_pos = pos as int;
        let ghost kv = (key_chunk.0@, value_chunk.0@);
        entries.push((LedgerKey::new(key_chunk.0), StoredValue::new(value_chunk.0)));
        pos = value_chunk.1;
        proof {
            let m = (count - i - 1) as nat;
            lemma_take_pairs_cons(
                bytes@.skip(old_pos),
                kv.0,
                kv.1,
                bytes@.skip(key_chunk.1 as int),
                bytes@.skip(pos as int),
                m,
            );
            assert(pair_views(entries@) =~= pair_views(old_entries).push(kv));
            if take_pairs(bytes@.skip(pos as int), m) is Some {
                let taken = take_pairs(bytes@.skip(pos as int), m)->0;
                assert(take_pairs(bytes@.skip(old_pos), (count - i) as nat) == Some(
                    (seq![kv] + taken.0, taken.1),
                ));
                assert(pair_views(old_entries) + (seq![kv] + taken.0) =~= pair_views(entries@)
                    + taken.0);
            }
        }
        i = i + 1;
    }
    if pos != bytes.len() {
        proof {
            assert(bytes@.skip(pos as int).len() != 0);
            assert(take_pairs(bytes@.skip(pos as int), 0) == Some(
                (Seq::<(Seq<u8>, Seq<u8>)>::empty(), bytes@.skip(pos as int)),
            ));
        }
        return None;
    }
    proof {
        assert(bytes@.skip(pos as int).len() == 0);
        assert(pair_views(entries@) + Seq::<(Seq<u8>, Seq<u8>)>::empty() =~= pair_views(
            entries@,
        ));
    }
    Some(entries)
}

/// Unfolds one step of `take_pairs` when both chunks split off cleanly.
proof fn lemma_take_pairs_cons(
    b: Seq<u8>,
    key: Seq<u8>,
    value: Seq<u8>,
    mid: Seq<u8>,
    after: Seq<u8>,
    n: nat,
)
    requires
        take_chunk(b) == Some((key, mid)),
        take_chunk(mid) == Some((value, after)),
    ensures
        match take_pairs(after, n) {
            Some(taken) => take_pairs(b, n + 1) == Some((seq![(key, value)] + taken.0, taken.1)),
            None => take_pairs(b, n + 1) is None,
        },
{
}

} // verus!
