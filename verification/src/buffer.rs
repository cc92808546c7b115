//! Buffered key-value stores.
//!
//! A table is an association list from 36-byte operation-hash digests to
//! values, abstracted in contracts as a `Map` from key bytes to values. A
//! buffer (`KvBuf`) reads a snapshot of a committed table and accumulates
//! staged writes in a scratch area; nothing a buffer stages is visible
//! through the snapshot until the owning transaction commits.

use vstd::prelude::*;

use crate::holo_hash::DhtOpHash;

verus! {

/// A staged write: a value to store under a key, or the key's removal.
pub enum KvOp<V> {
    Put(V),
    Delete,
}

/// The view of a table: each row's key as its byte sequence.
pub open spec fn entries_view<V>(t: Seq<(Vec<u8>, V)>) -> Seq<(Seq<u8>, V)> {
    Seq::new(t.len(), |i: int| (t[i].0@, t[i].1))
}

/// The contents of a table as a map from key bytes to values.
pub open spec fn table_map<V>(s: Seq<(Seq<u8>, V)>) -> Map<Seq<u8>, V>
    decreases s.len(),
{
    if s.len() == 0 {
        Map::empty()
    } else {
        table_map(s.drop_last()).insert(s.last().0, s.last().1)
    }
}

/// A well-formed table: keys are distinct 36-byte digests.
pub open spec fn table_wf<V>(s: Seq<(Seq<u8>, V)>) -> bool {
    &&& forall|i: int, j: int|
        0 <= i < j < s.len() ==> (#[trigger] s[i]).0 != (#[trigger] s[j]).0
    &&& forall|i: int| 0 <= i < s.len() ==> (#[trigger] s[i]).0.len() == 36
}

/// In a distinct-keyed table, every row is in the map, under its own key.
pub proof fn lemma_table_map_index<V>(s: Seq<(Seq<u8>, V)>, i: int)
    requires
        forall|a: int, b: int|
            0 <= a < b < s.len() ==> (#[trigger] s[a]).0 != (#[trigger] s[b]).0,
        0 <= i < s.len(),
    ensures
        table_map(s).contains_key(s[i].0),
        table_map(s)[s[i].0] == s[i].1,
    decreases s.len(),
{
    if i < s.len() - 1 {
        lemma_table_map_index(s.drop_last(), i);
        assert(s.drop_last()[i] == s[i]);
        assert(s[i].0 != s.last().0);
    }
}

/// A key under which no row stands is not in the map.
pub proof fn lemma_table_map_absent<V>(s: Seq<(Seq<u8>, V)>, k: Seq<u8>)
    requires
        forall|i: int| 0 <= i < s.len() ==> (#[trigger] s[i]).0 != k,
    ensures
        !table_map(s).contains_key(k),
    decreases s.len(),
{
    if s.len() > 0 {
        assert(forall|i: int|
            0 <= i < s.drop_last().len() ==> (#[trigger] s.drop_last()[i]).0 != k);
        lemma_table_map_absent(s.drop_last(), k);
    }
}

/// Appending a row puts its key and value into the map.
pub proof fn lemma_table_map_push<V>(s: Seq<(Seq<u8>, V)>, k: Seq<u8>, v: V)
    ensures
        table_map(s.push((k, v))) == table_map(s).insert(k, v),
{
    assert(s.push((k, v)).drop_last() =~= s);
}

/// Removing a row takes exactly its key out of the map.
pub proof fn lemma_table_map_remove<V>(s: Seq<(Seq<u8>, V)>, i: int)
    requires
        forall|a: int, b: int|
            0 <= a < b < s.len() ==> (#[trigger] s[a]).0 != (#[trigger] s[b]).0,
        0 <= i < s.len(),
    ensures
        table_map(s.remove(i)) == table_map(s).remove(s[i].0),
    decreases s.len(),
{
    if i == s.len() - 1 {
        assert(s.remove(i) =~= s.drop_last());
        lemma_table_map_absent(s.drop_last(), s[i].0);
        assert(table_map(s.remove(i)) =~= table_map(s).remove(s[i].0));
    } else {
        lemma_table_map_remove(s.drop_last(), i);
        assert(s.remove(i).drop_last() =~= s.drop_last().remove(i));
        assert(s.remove(i).last() == s.last());
        assert(s.drop_last()[i] == s[i]);
        assert(s[i].0 != s.last().0);
        assert(table_map(s.remove(i)) =~= table_map(s).remove(s[i].0));
    }
}

/// Whether two byte buffers hold the same bytes.
pub fn bytes_eq(a: &Vec<u8>, b: &Vec<u8>) -> (r: bool)
    ensures
        r == (a@ == b@),
{
    if a.len() != b.len() {
        return false;
    }
    let n = a.len();
    let mut i: usize = 0;
    while i < n
        invariant
            i <= n,
            n == a@.len(),
            a@.len() == b@.len(),
            forall|j: int| 0 <= j < i ==> a@[j] == b@[j],
        decreases n - i,
    {
        if a[i] != b[i] {
            return false;
        }
        i = i + 1;
    }
    proof {
        assert(a@ =~= b@);
    }
    true
}

/// Copies a byte buffer.
pub fn copy_bytes(b: &Vec<u8>) -> (r: Vec<u8>)
    ensures
        r@ == b@,
{
    let r = b.clone();
    proof {
        assert(r@ =~= b@);
    }
    r
}

/// Finds the row standing under a key, if any.
fn table_find<V>(t: &Vec<(Vec<u8>, V)>, k: &Vec<u8>) -> (r: Option<usize>)
    ensures
        match r {
            Some(i) => i < t@.len() && t@[i as int].0@ == k@,
            None => forall|i: int| 0 <= i < t@.len() ==> (#[trigger] t@[i]).0@ != k@,
        },
{
    let n = t.len();
    let mut i: usize = 0;
    while i < n
        invariant
            i <= n,
            n == t@.len(),
            forall|j: int| 0 <= j < i ==> (#[trigger] t@[j]).0@ != k@,
        decreases n - i,
    {
        if bytes_eq(&t[i].0, k) {
            return Some(i);
        }
        i = i + 1;
    }
    None
}

/// Reads the value standing under a key in a committed table.
pub fn table_get<'a, V>(t: &'a Vec<(Vec<u8>, V)>, k: &Vec<u8>) -> (r: Option<&'a V>)
    requires
        table_wf(entries_view(t@)),
    ensures
        match r {
            Some(v) => table_map(entries_view(t@)).contains_key(k@) && table_map(entries_view(t@))[k@]
                == *v,
            None => !table_map(entries_view(t@)).contains_key(k@),
        },
{
    match table_find(t, k) {
        Some(i) => {
            proof {
                lemma_table_map_index(entries_view(t@), i as int);
            }
            Some(&t[i].1)
        },
        None => {
            proof {
                assert(forall|i: int|
                    0 <= i < entries_view(t@).len() ==> (#[trigger] entries_view(t@)[i]).0 != k@);
                lemma_table_map_absent(entries_view(t@), k@);
            }
            None
        },
    }
}

/// Stores a value under a key, replacing any row already standing there.
pub fn table_put<V>(t: &mut Vec<(Vec<u8>, V)>, k: Vec<u8>, v: V)
    requires
        table_wf(entries_view(old(t)@)),
        k@.len() == 36,
    ensures
        table_wf(entries_view(final(t)@)),
        table_map(entries_view(final(t)@)) == table_map(entries_view(old(t)@)).insert(k@, v),
{
    let ghost s0 = entries_view(t@);
    match table_find(t, &k) {
        Some(i) => {
            proof {
                lemma_table_map_remove(s0, i as int);
            }
            let _replaced = t.remove(i);
            proof {
                assert(entries_view(t@) =~= s0.remove(i as int));
                assert(forall|a: int, b: int|
                    0 <= a < b < s0.remove(i as int).len() ==> (#[trigger] s0.remove(i as int)[a]).0
                        != (#[trigger] s0.remove(i as int)[b]).0);
                assert(forall|j: int|
                    0 <= j < s0.remove(i as int).len() ==> (#[trigger] s0.remove(i as int)[j]).0
                        != k@);
            }
            let ghost s1 = entries_view(t@);
            t.push((k, v));
            proof {
                assert(entries_view(t@) =~= s1.push((k@, v)));
                lemma_table_map_push(s1, k@, v);
                assert(table_map(entries_view(t@)) =~= table_map(s0).insert(k@, v));
            }
        },
        None => {
            t.push((k, v));
            proof {
                assert(entries_view(t@) =~= s0.push((k@, v)));
                lemma_table_map_push(s0, k@, v);
            }
        },
    }
}

/// Takes the row standing under a key, if any, out of a committed table.
pub fn table_del<V>(t: &mut Vec<(Vec<u8>, V)>, k: &Vec<u8>)
    requires
        table_wf(entries_view(old(t)@)),
    ensures
        table_wf(entries_view(final(t)@)),
        table_map(entries_view(final(t)@)) == table_map(entries_view(old(t)@)).remove(k@),
{
    let ghost s0 = entries_view(t@);
    match table_find(t, k) {
        Some(i) => {
            proof {
                lemma_table_map_remove(s0, i as int);
            }
            let _removed = t.remove(i);
            proof {
                assert(entries_view(t@) =~= s0.remove(i as int));
            }
        },
        None => {
            proof {
                assert(forall|i: int|
                    0 <= i < s0.len() ==> (#[trigger] s0[i]).0 != k@);
                lemma_table_map_absent(s0, k@);
                assert(table_map(s0) =~= table_map(s0).remove(k@));
            }
        },
    }
}

/// A buffered store: a snapshot of a committed table, plus the writes this
/// transaction has staged. Reads see the staged writes; the snapshot, and
/// every other reader of it, stays untouched until commit.
pub struct KvBuf<'env, V> {
    /// The committed rows this buffer reads, as of the snapshot.
    pub snapshot: &'env Vec<(Vec<u8>, V)>,
    /// The writes staged so far, keyed like the table itself.
    pub scratch: Vec<(Vec<u8>, KvOp<V>)>,
}

impl<'env, V> KvBuf<'env, V> {
    /// The snapshot's rows, keys as byte sequences.
    pub open spec fn snap_entries(self) -> Seq<(Seq<u8>, V)> {
        entries_view(self.snapshot@)
    }

    /// The snapshot's contents as a map.
    pub open spec fn snap_map(self) -> Map<Seq<u8>, V> {
        table_map(self.snap_entries())
    }

    /// The staged writes, keys as byte sequences.
    pub open spec fn scratch_entries(self) -> Seq<(Seq<u8>, KvOp<V>)> {
        entries_view(self.scratch@)
    }

    /// The staged writes as a map: the latest staged write per key.
    pub open spec fn scratch_map(self) -> Map<Seq<u8>, KvOp<V>> {
        table_map(self.scratch_entries())
    }

    /// Snapshot and scratch are well-formed tables.
    pub open spec fn wf(self) -> bool {
        table_wf(self.snap_entries()) && table_wf(self.scratch_entries())
    }

    /// What this buffer sees under a key: the staged write if there is one,
    /// else the snapshot.
    pub open spec fn eff_get(self, k: Seq<u8>) -> Option<V> {
        if self.scratch_map().contains_key(k) {
            match self.scratch_map()[k] {
                KvOp::Put(v) => Some(v),
                KvOp::Delete => None,
            }
        } else if self.snap_map().contains_key(k) {
            Some(self.snap_map()[k])
        } else {
            None
        }
    }

    /// Opens a buffer over a snapshot, with nothing staged.
    pub fn new(snapshot: &'env Vec<(Vec<u8>, V)>) -> (r: Self)
        requires
            table_wf(entries_view(snapshot@)),
        ensures
            r.wf(),
            r.snapshot == snapshot,
            r.scratch@.len() == 0,
            r.scratch_map() == Map::<Seq<u8>, KvOp<V>>::empty(),
    {
        KvBuf { snapshot, scratch: Vec::new() }
    }

    /// A snapshot-consistent read through the staged writes: a key this
    /// transaction has put reads back its value, a deleted key reads as
    /// absent, and any other key reads from the snapshot.
    pub fn get(&self, op_hash: &DhtOpHash) -> (r: Option<&V>)
        requires
            self.wf(),
        ensures
            match r {
                Some(v) => self.eff_get(op_hash.hash@) == Some(*v),
                None => self.eff_get(op_hash.hash@) is None,
            },
    {
        match table_find(&self.scratch, &op_hash.hash) {
            Some(i) => {
                proof {
                    lemma_table_map_index(self.scratch_entries(), i as int);
                }
                match &self.scratch[i].1 {
                    KvOp::Put(v) => Some(v),
                    KvOp::Delete => None,
                }
            },
            None => {
                proof {
                    assert(forall|i: int|
                        0 <= i < self.scratch_entries().len() ==> (
                        #[trigger] self.scratch_entries()[i]).0 != op_hash.hash@);
                    lemma_table_map_absent(self.scratch_entries(), op_hash.hash@);
                }
                table_get(self.snapshot, &op_hash.hash)
            },
        }
    }

    /// Stages a write of a value under an operation hash. Not visible to any
    /// reader of the snapshot until the owning transaction commits.
    pub fn put(&mut self, op_hash: DhtOpHash, v: V)
        requires
            old(self).wf(),
            op_hash.wf(),
        ensures
            final(self).wf(),
            final(self).snapshot == old(self).snapshot,
            final(self).scratch_map() == old(self).scratch_map().insert(
                op_hash.hash@,
                KvOp::Put(v),
            ),
    {
        table_put(&mut self.scratch, op_hash.into_inner(), KvOp::Put(v));
    }

    /// Stages the removal of whatever stands under an operation hash.
    pub fn delete(&mut self, op_hash: &DhtOpHash)
        requires
            old(self).wf(),
            op_hash.wf(),
        ensures
            final(self).wf(),
            final(self).snapshot == old(self).snapshot,
            final(self).scratch_map() == old(self).scratch_map().insert(
                op_hash.hash@,
                KvOp::Delete,
            ),
    {
        let k = copy_bytes(&op_hash.hash);
        table_put(&mut self.scratch, k, KvOp::Delete);
    }
}

} // verus!
