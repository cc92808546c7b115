//! The staged operation stores of the integration pipeline, and the query
//! engine over the integrated set.
//!
//! Three stores share one storage environment, all keyed by operation hash:
//! authored operations (light form, with receipt bookkeeping), the
//! integration queue (full form, awaiting a validation verdict), and the
//! integrated store (light form, with the final verdict and the integration
//! time). An operation moves from queued to integrated in one transaction:
//! both the removal and the insertion commit together or not at all.

use vstd::prelude::*;

use crate::buffer::{copy_bytes, entries_view, table_wf, KvBuf, KvOp};
use crate::dht_arc::{arc_contains, DhtArc};
use crate::dht_op::{basis_of_light, light_of, DhtOp, DhtOpLight};
use crate::env::{apply_ops, lemma_table_values_ok, map_values_ok, Env, Reader, Writer};
use crate::error::{DatabaseError, DatabaseResult};
use crate::hash_type::HashType;
use crate::holo_hash::{loc_of, DhtOpHash};
use crate::timestamp::{ts_le, ts_lt, Timestamp};
use crate::validate::ValidationStatus;

verus! {

/// The value of the authored store: the light operation, how many validation
/// receipts peers have sent for it, and when it was last published.
#[derive(Clone, Debug, PartialEq, Eq)]
pub struct AuthoredDhtOpsValue {
    /// The light form of the authored operation.
    pub op: DhtOpLight,
    /// Validation receipts received so far.
    pub receipt_count: u32,
    /// When the operation was last published; absent if never published.
    pub last_publish_time: Option<Timestamp>,
}

impl AuthoredDhtOpsValue {
    /// The operation's hashes carry full digests.
    pub open spec fn wf(self) -> bool {
        self.op.wf()
    }

    /// Records a freshly authored light operation: no receipts yet, never
    /// published.
    pub fn from_light(op: DhtOpLight) -> (r: Self)
        ensures
            r == (AuthoredDhtOpsValue { op, receipt_count: 0u32, last_publish_time: None }),
    {
        Self { op, receipt_count: 0, last_publish_time: None }
    }
}

/// The value of the integration queue: the full operation and its
/// provisional validation status, pending a verdict.
#[derive(Clone, Debug, PartialEq, Eq)]
pub struct IntegrationQueueValue {
    /// The provisional validation status.
    pub validation_status: ValidationStatus,
    /// The full operation, payload and all.
    pub op: DhtOp,
}

impl IntegrationQueueValue {
    /// The operation's hashes carry full digests.
    pub open spec fn wf(self) -> bool {
        self.op.wf()
    }
}

/// The value of the integrated store: the light operation, the final
/// validation verdict, and when it was integrated. Immutable once written.
#[derive(Clone, Debug, PartialEq, Eq)]
pub struct IntegratedDhtOpsValue {
    /// The final validation verdict.
    pub validation_status: ValidationStatus,
    /// The light form of the integrated operation.
    pub op: DhtOpLight,
    /// When the operation was integrated.
    pub when_integrated: Timestamp,
}

impl IntegratedDhtOpsValue {
    /// The operation's hashes carry full digests and the timestamp is
    /// well-formed.
    pub open spec fn wf(self) -> bool {
        self.op.wf() && self.when_integrated.wf()
    }
}

/// The key of the authored store: an operation hash.
pub type AuthoredDhtOpsKey = DhtOpHash;

/// The key of the integration queue: an operation hash. The queue is a keyed
/// staging map, not an ordered queue: it promises nothing about order.
pub type IntegrationQueueKey = DhtOpHash;

/// A buffer over the authored store.
pub type AuthoredDhtOpsStore<'env> = KvBuf<'env, AuthoredDhtOpsValue>;

/// A buffer over the integration queue.
pub type IntegrationQueueStore<'env> = KvBuf<'env, IntegrationQueueValue>;

/// A buffer over the integrated store.
pub type IntegratedDhtOpsStore<'env> = KvBuf<'env, IntegratedDhtOpsValue>;

/// Every value staged in a scratch area satisfies a predicate.
pub open spec fn staged_values_ok<V>(m: Map<Seq<u8>, KvOp<V>>, pred: spec_fn(V) -> bool) -> bool {
    forall|k: Seq<u8>| #[trigger] m.contains_key(k) ==> match m[k] {
        KvOp::Put(v) => pred(v),
        KvOp::Delete => true,
    }
}

/// Whether an integrated operation passes a query's three filters: the
/// inclusive lower time bound, the exclusive upper time bound, and the
/// locality arc over the operation's basis. An omitted filter passes
/// everything; the filters combine with logical and.
pub open spec fn op_matches(
    v: IntegratedDhtOpsValue,
    from: Option<Timestamp>,
    to: Option<Timestamp>,
    dht_arc: Option<DhtArc>,
) -> bool {
    &&& match from {
        Some(t) => ts_le(t, v.when_integrated),
        None => true,
    }
    &&& match to {
        Some(t) => ts_lt(v.when_integrated, t),
        None => true,
    }
    &&& match dht_arc {
        Some(a) => arc_contains(a.center, a.coverage_radius, loc_of(basis_of_light(v.op).hash@)),
        None => true,
    }
}

/// A query's three filters, as one predicate on a store row.
pub open spec fn match_pred(
    from: Option<Timestamp>,
    to: Option<Timestamp>,
    dht_arc: Option<DhtArc>,
) -> spec_fn((Seq<u8>, IntegratedDhtOpsValue)) -> bool {
    |kv: (Seq<u8>, IntegratedDhtOpsValue)| op_matches(kv.1, from, to, dht_arc)
}

/// What a query yields: the snapshot's rows that pass all three filters, in
/// snapshot order. A query never fails for want of matches: no match is an
/// empty sequence.
pub open spec fn query_spec(
    entries: Seq<(Seq<u8>, IntegratedDhtOpsValue)>,
    from: Option<Timestamp>,
    to: Option<Timestamp>,
    dht_arc: Option<DhtArc>,
) -> Seq<(Seq<u8>, IntegratedDhtOpsValue)> {
    entries.filter(match_pred(from, to, dht_arc))
}

/// Whether an integrated operation passes a query's filters.
fn matches_exec(
    v: &IntegratedDhtOpsValue,
    from: &Option<Timestamp>,
    to: &Option<Timestamp>,
    dht_arc: &Option<DhtArc>,
) -> (r: bool)
    requires
        v.wf(),
    ensures
        r == op_matches(*v, *from, *to, *dht_arc),
{
    let from_ok = match from {
        Some(t) => t.le(&v.when_integrated),
        None => true,
    };
    let to_ok = match to {
        Some(t) => v.when_integrated.lt(t),
        None => true,
    };
    let arc_ok = match dht_arc {
        Some(a) => a.contains(v.op.dht_basis().get_loc()),
        None => true,
    };
    from_ok && to_ok && arc_ok
}

/// The buffer that adds query logic to the integrated store.
pub struct IntegratedDhtOpsBuf<'env> {
    /// The underlying buffered store.
    pub store: IntegratedDhtOpsStore<'env>,
}

impl<'env> IntegratedDhtOpsBuf<'env> {
    /// The buffer is well-formed and stages only well-formed values over a
    /// snapshot of well-formed values.
    pub open spec fn wf(self) -> bool {
        &&& self.store.wf()
        &&& map_values_ok(self.store.snap_map(), |v: IntegratedDhtOpsValue| v.wf())
        &&& staged_values_ok(self.store.scratch_map(), |v: IntegratedDhtOpsValue| v.wf())
    }

    /// Opens a buffer over the integrated store of a snapshot, with nothing
    /// staged.
    pub fn new(reader: &Reader<'env>) -> (r: DatabaseResult<Self>)
        requires
            reader.env.wf(),
        ensures
            r matches Ok(buf) && buf.wf() && buf.store.snap_map() == reader.env.integrated_map()
                && buf.store.snapshot@ == reader.env.integrated@ && buf.store.scratch@.len() == 0,
    {
        let store = KvBuf::new(&reader.env.integrated);
        Ok(IntegratedDhtOpsBuf { store })
    }

    /// A snapshot-consistent read by operation hash, through this
    /// transaction's staged writes.
    pub fn get(&self, op_hash: &DhtOpHash) -> (r: DatabaseResult<Option<&IntegratedDhtOpsValue>>)
        requires
            self.wf(),
        ensures
            r matches Ok(o) && match o {
                Some(v) => self.store.eff_get(op_hash.hash@) == Some(*v),
                None => self.store.eff_get(op_hash.hash@) is None,
            },
    {
        Ok(self.store.get(op_hash))
    }

    /// Stages a write of an integrated value under an operation hash.
    pub fn put(&mut self, op_hash: DhtOpHash, v: IntegratedDhtOpsValue) -> (r: DatabaseResult<()>)
        requires
            old(self).wf(),
            op_hash.wf(),
            v.wf(),
        ensures
            r is Ok,
            final(self).wf(),
            final(self).store.snapshot == old(self).store.snapshot,
            final(self).store.scratch_map() == old(self).store.scratch_map().insert(
                op_hash.hash@,
                KvOp::Put(v),
            ),
    {
        self.store.put(op_hash, v);
        Ok(())
    }

    /// Stages the removal of whatever stands under an operation hash.
    pub fn delete(&mut self, op_hash: &DhtOpHash) -> (r: DatabaseResult<()>)
        requires
            old(self).wf(),
            op_hash.wf(),
        ensures
            r is Ok,
            final(self).wf(),
            final(self).store.snapshot == old(self).store.snapshot,
            final(self).store.scratch_map() == old(self).store.scratch_map().insert(
                op_hash.hash@,
                KvOp::Delete,
            ),
    {
        self.store.delete(op_hash);
        Ok(())
    }

    /// Hands every staged write of this buffer to the transaction. The
    /// writes land when, and only when, the whole transaction commits.
    pub fn flush_to_txn(self, writer: &mut Writer) -> (r: DatabaseResult<()>)
        requires
            self.wf(),
            old(writer).wf(),
        ensures
            r is Ok,
            final(writer).wf(),
            entries_view(final(writer).integrated@) == entries_view(old(writer).integrated@)
                + self.store.scratch_entries(),
            final(writer).authored@ == old(writer).authored@,
            final(writer).queue@ == old(writer).queue@,
    {
        proof {
            lemma_table_values_ok(
                self.store.scratch_entries(),
                |op: KvOp<IntegratedDhtOpsValue>|
                    match op {
                        KvOp::Put(v) => v.wf(),
                        KvOp::Delete => true,
                    },
            );
        }
        let IntegratedDhtOpsBuf { store } = self;
        let KvBuf { snapshot: _, scratch: mut scratch } = store;
        writer.integrated.append(&mut scratch);
        proof {
            assert(entries_view(writer.integrated@) =~= entries_view(old(writer).integrated@)
                + entries_view(store.scratch@));
        }
        Ok(())
    }

    /// Queries the integrated snapshot by time window and locality: a lazy,
    /// single-pass sequence over one scan of the snapshot. A fresh call
    /// re-scans; staged writes of this transaction are not seen.
    pub fn query(
        &self,
        from: Option<Timestamp>,
        to: Option<Timestamp>,
        dht_arc: Option<DhtArc>,
    ) -> (r: DatabaseResult<QueryIter<'env>>)
        requires
            self.wf(),
        ensures
            r matches Ok(it) && it.wf() && it.entries_seq() == self.store.snap_entries()
                && it.from == from && it.to == to && it.dht_arc == dht_arc && it.emitted@
                == Seq::<(Seq<u8>, IntegratedDhtOpsValue)>::empty(),
    {
        let it = QueryIter {
            entries: self.store.snapshot,
            from,
            to,
            dht_arc,
            idx: 0,
            emitted: Ghost(Seq::empty()),
        };
        proof {
            lemma_table_values_ok(
                self.store.snap_entries(),
                |v: IntegratedDhtOpsValue| v.wf(),
            );
            reveal(Seq::filter);
            assert(it.entries_seq().take(0) =~= Seq::<(Seq<u8>, IntegratedDhtOpsValue)>::empty());
        }
        Ok(it)
    }
}

/// One pass over the integrated snapshot, yielding the rows that pass the
/// query's filters, in snapshot order. Finite and not restartable: once
/// exhausted it stays exhausted.
pub struct QueryIter<'env> {
    /// The snapshot rows being scanned.
    pub entries: &'env Vec<(Vec<u8>, IntegratedDhtOpsValue)>,
    /// The inclusive lower bound on integration time, if any.
    pub from: Option<Timestamp>,
    /// The exclusive upper bound on integration time, if any.
    pub to: Option<Timestamp>,
    /// The locality filter over each operation's basis, if any.
    pub dht_arc: Option<DhtArc>,
    /// How far the scan has come.
    pub idx: usize,
    /// The rows yielded so far.
    pub emitted: Ghost<Seq<(Seq<u8>, IntegratedDhtOpsValue)>>,
}

impl<'env> QueryIter<'env> {
    /// The snapshot rows, keys as byte sequences.
    pub open spec fn entries_seq(self) -> Seq<(Seq<u8>, IntegratedDhtOpsValue)> {
        entries_view(self.entries@)
    }

    /// The scan is within bounds, over a well-formed snapshot, and what it
    /// has yielded is exactly the filtered prefix it has passed.
    pub open spec fn wf(self) -> bool {
        &&& self.idx <= self.entries_seq().len()
        &&& table_wf(self.entries_seq())
        &&& (forall|i: int|
            0 <= i < self.entries_seq().len() ==> (#[trigger] self.entries_seq()[i]).1.wf())
        &&& self.emitted@ == query_spec(
            self.entries_seq().take(self.idx as int),
            self.from,
            self.to,
            self.dht_arc,
        )
    }

    /// Yields the next operation that passes every filter, as its hash and
    /// its integrated value, or reports the scan done. Once done, every
    /// matching row of the snapshot has been yielded exactly once, in
    /// snapshot order.
    pub fn next(&mut self) -> (r: Option<(DhtOpHash, &'env IntegratedDhtOpsValue)>)
        requires
            old(self).wf(),
        ensures
            final(self).wf(),
            final(self).entries == old(self).entries,
            final(self).from == old(self).from,
            final(self).to == old(self).to,
            final(self).dht_arc == old(self).dht_arc,
            match r {
                Some(kv) => final(self).emitted@ == old(self).emitted@.push((kv.0.hash@, *kv.1))
                    && kv.0.hash_type == HashType::DhtOp && kv.0.wf() && kv.1.wf() && op_matches(
                    *kv.1,
                    old(self).from,
                    old(self).to,
                    old(self).dht_arc,
                ),
                None => final(self).emitted@ == old(self).emitted@ && final(self).emitted@
                    == query_spec(
                    final(self).entries_seq(),
                    final(self).from,
                    final(self).to,
                    final(self).dht_arc,
                ),
            },
    {
        let entries: &'env Vec<(Vec<u8>, IntegratedDhtOpsValue)> = self.entries;
        let n = entries.len();
        let ghost pred = match_pred(self.from, self.to, self.dht_arc);
        while self.idx < n
            invariant
                self.wf(),
                n == self.entries_seq().len(),
                entries == self.entries,
                pred == match_pred(self.from, self.to, self.dht_arc),
                *self == (QueryIter { idx: self.idx, emitted: self.emitted, ..*old(self) }),
                self.emitted@ == old(self).emitted@,
            decreases n - self.idx,
        {
            let i = self.idx;
            let ghost prefix = self.entries_seq().take(i as int);
            let ghost row = self.entries_seq()[i as int];
            proof {
                assert(self.entries_seq().take(i + 1) =~= prefix.push(row));
                Seq::lemma_filter_push(prefix, row, pred);
                assert(row.1.wf());
                assert(pred(row) == op_matches(row.1, self.from, self.to, self.dht_arc));
            }
            let matched = matches_exec(&entries[i].1, &self.from, &self.to, &self.dht_arc);
            self.idx = i + 1;
            if matched {
                let key = DhtOpHash::with_pre_hashed(copy_bytes(&entries[i].0), HashType::DhtOp);
                proof {
                    self.emitted@ = self.emitted@.push((key.hash@, entries@[i as int].1));
                    assert((key.hash@, entries@[i as int].1) == row);
                }
                return Some((key, &entries[i].1));
            }
        }
        proof {
            assert(self.entries_seq().take(n as int) =~= self.entries_seq());
        }
        None
    }
}

/// Promotes an operation from the integration queue to the integrated store:
/// stages, in one transaction, the removal of its queued record and the
/// insertion of its integrated record, carrying the validation status over
/// as the final verdict and stamping the integration time. The two writes
/// commit together or not at all. An operation with no queued record is
/// reported missing, with nothing staged.
pub fn promote_dht_op<'env>(
    queue: &mut IntegrationQueueStore<'env>,
    integrated: &mut IntegratedDhtOpsBuf<'env>,
    op_hash: &DhtOpHash,
    when_integrated: Timestamp,
) -> (r: Result<(), DatabaseError>)
    requires
        old(queue).wf(),
        map_values_ok(old(queue).snap_map(), |v: IntegrationQueueValue| v.wf()),
        staged_values_ok(old(queue).scratch_map(), |v: IntegrationQueueValue| v.wf()),
        old(integrated).wf(),
        op_hash.wf(),
        when_integrated.wf(),
    ensures
        final(queue).wf(),
        final(queue).snapshot == old(queue).snapshot,
        staged_values_ok(final(queue).scratch_map(), |v: IntegrationQueueValue| v.wf()),
        final(integrated).wf(),
        final(integrated).store.snapshot == old(integrated).store.snapshot,
        match old(queue).eff_get(op_hash.hash@) {
            Some(qv) => r is Ok && final(queue).scratch_map() == old(queue).scratch_map().insert(
                op_hash.hash@,
                KvOp::Delete,
            ) && (match final(integrated).store.scratch_map()[op_hash.hash@] {
                KvOp::Put(iv) => final(integrated).store.scratch_map() == old(
                    integrated,
                ).store.scratch_map().insert(op_hash.hash@, KvOp::Put(iv))
                    && iv.validation_status == qv.validation_status && light_of(iv.op, qv.op)
                    && iv.when_integrated == when_integrated,
                KvOp::Delete => false,
            }),
            None => r == Err::<(), DatabaseError>(DatabaseError::MissingKey) && *final(queue) == *old(
                queue,
            ) && *final(integrated) == *old(integrated),
        },
{
    let (status, light) = match queue.get(op_hash) {
        Some(qv) => (qv.validation_status, qv.op.to_light()),
        None => {
            return Err(DatabaseError::MissingKey);
        },
    };
    let iv = IntegratedDhtOpsValue { validation_status: status, op: light, when_integrated };
    queue.delete(op_hash);
    let _ = integrated.put(op_hash.clone(), iv);
    Ok(())
}

/// Hands every staged write of an authored-store buffer to the transaction.
pub fn flush_authored_to_txn(buf: AuthoredDhtOpsStore<'_>, writer: &mut Writer) -> (r:
    DatabaseResult<()>)
    requires
        buf.wf(),
        staged_values_ok(buf.scratch_map(), |v: AuthoredDhtOpsValue| v.wf()),
        old(writer).wf(),
    ensures
        r is Ok,
        final(writer).wf(),
        entries_view(final(writer).authored@) == entries_view(old(writer).authored@)
            + buf.scratch_entries(),
        final(writer).queue@ == old(writer).queue@,
        final(writer).integrated@ == old(writer).integrated@,
{
    proof {
        lemma_table_values_ok(
            buf.scratch_entries(),
            |op: KvOp<AuthoredDhtOpsValue>|
                match op {
                    KvOp::Put(v) => v.wf(),
                    KvOp::Delete => true,
                },
        );
    }
    let KvBuf { snapshot: _, scratch: mut scratch } = buf;
    writer.authored.append(&mut scratch);
    proof {
        assert(entries_view(writer.authored@) =~= entries_view(old(writer).authored@)
            + entries_view(buf.scratch@));
    }
    Ok(())
}

/// Hands every staged write of an integration-queue buffer to the
/// transaction.
pub fn flush_queue_to_txn(buf: IntegrationQueueStore<'_>, writer: &mut Writer) -> (r:
    DatabaseResult<()>)
    requires
        buf.wf(),
        staged_values_ok(buf.scratch_map(), |v: IntegrationQueueValue| v.wf()),
        old(writer).wf(),
    ensures
        r is Ok,
        final(writer).wf(),
        entries_view(final(writer).queue@) == entries_view(old(writer).queue@)
            + buf.scratch_entries(),
        final(writer).authored@ == old(writer).authored@,
        final(writer).integrated@ == old(writer).integrated@,
{
    proof {
        lemma_table_values_ok(
            buf.scratch_entries(),
            |op: KvOp<IntegrationQueueValue>|
                match op {
                    KvOp::Put(v) => v.wf(),
                    KvOp::Delete => true,
                },
        );
    }
    let KvBuf { snapshot: _, scratch: mut scratch } = buf;
    writer.queue.append(&mut scratch);
    proof {
        assert(entries_view(writer.queue@) =~= entries_view(old(writer).queue@)
            + entries_view(buf.scratch@));
    }
    Ok(())
}

/// Promotion is atomic. A transaction whose staged writes are exactly the
/// removal of an operation's queued record and the insertion of its
/// integrated record moves the record in one step when committed: by
/// `Env::commit`'s contract together with this lemma, the committed state
/// has the operation gone from the queue and present in the integrated
/// store, with every other store untouched. A transaction dropped before
/// commit stages its writes only in buffers, which no snapshot reads, so an
/// aborted promotion leaves the operation still queued and absent from the
/// integrated store: no reader ever sees it in both stores or in neither.
pub proof fn lemma_promotion_atomic(env: Env, k: Seq<u8>, iv: IntegratedDhtOpsValue)
    ensures
        apply_ops(env.queue_map(), seq![(k, KvOp::<IntegrationQueueValue>::Delete)])
            == env.queue_map().remove(k),
        apply_ops(env.integrated_map(), seq![(k, KvOp::Put(iv))]) == env.integrated_map().insert(
            k,
            iv,
        ),
{
    let del_ops = seq![(k, KvOp::<IntegrationQueueValue>::Delete)];
    let put_ops = seq![(k, KvOp::Put(iv))];
    assert(del_ops.subrange(1, 1) =~= Seq::<(Seq<u8>, KvOp<IntegrationQueueValue>)>::empty());
    assert(put_ops.subrange(1, 1) =~= Seq::<(Seq<u8>, KvOp<IntegratedDhtOpsValue>)>::empty());
    let q1 = crate::env::apply_op(env.queue_map(), k, KvOp::<IntegrationQueueValue>::Delete);
    assert(apply_ops(q1, del_ops.subrange(1, 1)) == q1);
    assert(apply_ops(env.queue_map(), del_ops) == q1);
    let i1 = crate::env::apply_op(env.integrated_map(), k, KvOp::Put(iv));
    assert(apply_ops(i1, put_ops.subrange(1, 1)) == i1);
    assert(apply_ops(env.integrated_map(), put_ops) == i1);
}

/// Omitted filters are identity: a query with no bounds and no arc yields
/// the whole snapshot, row for row.
pub proof fn lemma_query_unfiltered(entries: Seq<(Seq<u8>, IntegratedDhtOpsValue)>)
    ensures
        query_spec(entries, None, None, None) == entries,
    decreases entries.len(),
{
    reveal(Seq::filter);
    if entries.len() > 0 {
        lemma_query_unfiltered(entries.drop_last());
        assert(entries.drop_last().push(entries.last()) =~= entries);
    }
}

/// A row is in a time-window query exactly when it is in the snapshot and
/// its integration time lies in the window: the lower bound inclusive, the
/// upper bound exclusive.
pub proof fn lemma_query_time_window(
    entries: Seq<(Seq<u8>, IntegratedDhtOpsValue)>,
    t: Timestamp,
    kv: (Seq<u8>, IntegratedDhtOpsValue),
)
    ensures
        query_spec(entries, Some(t), None, None).contains(kv) <==> (entries.contains(kv) && ts_le(
            t,
            kv.1.when_integrated,
        )),
        query_spec(entries, None, Some(t), None).contains(kv) <==> (entries.contains(kv) && ts_lt(
            kv.1.when_integrated,
            t,
        )),
{
    lemma_query_membership(entries, Some(t), None, None, kv);
    lemma_query_membership(entries, None, Some(t), None, kv);
}

/// A row is in a query's result exactly when it is in the snapshot and
/// passes every filter of the query.
pub proof fn lemma_query_membership(
    entries: Seq<(Seq<u8>, IntegratedDhtOpsValue)>,
    from: Option<Timestamp>,
    to: Option<Timestamp>,
    dht_arc: Option<DhtArc>,
    kv: (Seq<u8>, IntegratedDhtOpsValue),
)
    ensures
        query_spec(entries, from, to, dht_arc).contains(kv) <==> (entries.contains(kv)
            && op_matches(kv.1, from, to, dht_arc)),
{
    let pred = match_pred(from, to, dht_arc);
    let out = entries.filter(pred);
    if out.contains(kv) {
        entries.lemma_filter_contains_rev(pred, kv);
        let i = choose|i: int| 0 <= i < out.len() && out[i] == kv;
        Seq::lemma_filter_pred(entries, pred, i);
    }
    if entries.contains(kv) && pred(kv) {
        let i = choose|i: int| 0 <= i < entries.len() && entries[i] == kv;
        Seq::lemma_filter_contains(entries, pred, i);
    }
}

/// An arc-filtered query keeps exactly the rows of the matching time window
/// whose basis location the arc contains; with no arc every row of the time
/// window is kept, wherever its basis lies.
pub proof fn lemma_query_arc_filter(
    entries: Seq<(Seq<u8>, IntegratedDhtOpsValue)>,
    from: Option<Timestamp>,
    to: Option<Timestamp>,
    a: DhtArc,
    kv: (Seq<u8>, IntegratedDhtOpsValue),
)
    ensures
        query_spec(entries, from, to, Some(a)).contains(kv) <==> (query_spec(
            entries,
            from,
            to,
            None,
        ).contains(kv) && arc_contains(a.center, a.coverage_radius, loc_of(
            basis_of_light(kv.1.op).hash@,
        ))),
{
    lemma_query_membership(entries, from, to, Some(a), kv);
    lemma_query_membership(entries, from, to, None, kv);
}

} // verus!
