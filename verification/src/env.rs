//! The storage environment and its transactions.
//!
//! The environment owns the committed state of the three staged operation
//! stores. Reads go through a snapshot handle (`Reader`); writes are staged
//! in buffers, flushed into a write transaction (`Writer`), and applied by
//! `commit` in one step: every staged write of the transaction lands, across
//! all stores it touched, or none does. A transaction that is dropped
//! instead of committed leaves the environment exactly as it was.

use vstd::prelude::*;

use crate::buffer::{entries_view, lemma_table_map_index, table_del, table_map, table_put, table_wf, KvOp};
use crate::dht_op_integration::{AuthoredDhtOpsValue, IntegratedDhtOpsValue, IntegrationQueueValue};
use crate::error::DatabaseError;

verus! {

/// One staged write applied to a store's contents.
pub open spec fn apply_op<V>(m: Map<Seq<u8>, V>, k: Seq<u8>, op: KvOp<V>) -> Map<Seq<u8>, V> {
    match op {
        KvOp::Put(v) => m.insert(k, v),
        KvOp::Delete => m.remove(k),
    }
}

/// A sequence of staged writes applied to a store's contents, in order.
pub open spec fn apply_ops<V>(m: Map<Seq<u8>, V>, ops: Seq<(Seq<u8>, KvOp<V>)>) -> Map<
    Seq<u8>,
    V,
>
    decreases ops.len(),
{
    if ops.len() == 0 {
        m
    } else {
        apply_ops(apply_op(m, ops[0].0, ops[0].1), ops.subrange(1, ops.len() as int))
    }
}

/// Staged writes whose keys are all 36-byte digests.
pub open spec fn ops_keys_wf<V>(ops: Seq<(Seq<u8>, KvOp<V>)>) -> bool {
    forall|i: int| 0 <= i < ops.len() ==> (#[trigger] ops[i]).0.len() == 36
}

/// Every value of a store satisfies a predicate.
pub open spec fn map_values_ok<V>(m: Map<Seq<u8>, V>, pred: spec_fn(V) -> bool) -> bool {
    forall|k: Seq<u8>| #[trigger] m.contains_key(k) ==> pred(m[k])
}

/// Every value staged for writing satisfies a predicate.
pub open spec fn ops_values_ok<V>(ops: Seq<(Seq<u8>, KvOp<V>)>, pred: spec_fn(V) -> bool) -> bool {
    forall|i: int|
        0 <= i < ops.len() ==> match (#[trigger] ops[i]).1 {
            KvOp::Put(v) => pred(v),
            KvOp::Delete => true,
        }
}

/// Applying writes whose values satisfy a predicate to a store whose values
/// satisfy it leaves a store whose values still satisfy it.
pub proof fn lemma_apply_ops_values_ok<V>(
    m: Map<Seq<u8>, V>,
    ops: Seq<(Seq<u8>, KvOp<V>)>,
    pred: spec_fn(V) -> bool,
)
    requires
        map_values_ok(m, pred),
        ops_values_ok(ops, pred),
    ensures
        map_values_ok(apply_ops(m, ops), pred),
    decreases ops.len(),
{
    if ops.len() > 0 {
        let m1 = apply_op(m, ops[0].0, ops[0].1);
        assert(map_values_ok(m1, pred));
        let rest = ops.subrange(1, ops.len() as int);
        assert(ops_values_ok(rest, pred));
        lemma_apply_ops_values_ok(m1, rest, pred);
    }
}

/// In a distinct-keyed, well-formed table, every value of the map stands in
/// some row, so a bound that holds of the map's values holds row by row.
pub proof fn lemma_table_values_ok<V>(s: Seq<(Seq<u8>, V)>, pred: spec_fn(V) -> bool)
    requires
        table_wf(s),
        map_values_ok(table_map(s), pred),
    ensures
        forall|i: int| 0 <= i < s.len() ==> pred((#[trigger] s[i]).1),
{
    assert forall|i: int| 0 <= i < s.len() implies pred((#[trigger] s[i]).1) by {
        lemma_table_map_index(s, i);
    }
}

/// Applies staged writes to a committed table, in order.
fn apply_table_ops<V>(t: &mut Vec<(Vec<u8>, V)>, ops: Vec<(Vec<u8>, KvOp<V>)>)
    requires
        table_wf(entries_view(old(t)@)),
        ops_keys_wf(entries_view(ops@)),
    ensures
        table_wf(entries_view(final(t)@)),
        table_map(entries_view(final(t)@)) == apply_ops(
            table_map(entries_view(old(t)@)),
            entries_view(ops@),
        ),
{
    let ghost m0 = table_map(entries_view(t@));
    let ghost ops0 = entries_view(ops@);
    let mut ops = ops;
    while ops.len() > 0
        invariant
            table_wf(entries_view(t@)),
            ops_keys_wf(entries_view(ops@)),
            apply_ops(table_map(entries_view(t@)), entries_view(ops@)) == apply_ops(m0, ops0),
        decreases ops@.len(),
    {
        let ghost pre_ops = entries_view(ops@);
        let ghost pre_map = table_map(entries_view(t@));
        let (k, op) = ops.remove(0);
        proof {
            assert(entries_view(ops@) =~= pre_ops.subrange(1, pre_ops.len() as int));
            assert(pre_ops[0].0 == k@);
        }
        match op {
            KvOp::Put(v) => {
                table_put(t, k, v);
            },
            KvOp::Delete => {
                table_del(t, &k);
            },
        }
        proof {
            assert(table_map(entries_view(t@)) == apply_op(pre_map, pre_ops[0].0, pre_ops[0].1));
        }
    }
    proof {
        assert(entries_view(ops@).len() == 0);
    }
}

/// The storage environment: the committed contents of the three stores.
/// Mutated only by `commit`; everything else reads it through snapshots.
pub struct Env {
    /// The authored store: light operations with receipt bookkeeping.
    pub authored: Vec<(Vec<u8>, AuthoredDhtOpsValue)>,
    /// The integration queue: full operations awaiting a verdict.
    pub queue: Vec<(Vec<u8>, IntegrationQueueValue)>,
    /// The integrated store: light operations with their final verdict.
    pub integrated: Vec<(Vec<u8>, IntegratedDhtOpsValue)>,
}

/// A read snapshot of the environment. Any number of readers may be open at
/// once; a reader never sees writes staged by an uncommitted transaction.
pub struct Reader<'env> {
    /// The committed state this snapshot exposes.
    pub env: &'env Env,
}

/// A write transaction: the staged writes of every store it touches,
/// accumulated by flushing buffers into it. Nothing is visible until
/// `Env::commit` applies the whole transaction; dropping the writer instead
/// abandons every staged write.
pub struct Writer {
    /// Writes staged for the authored store.
    pub authored: Vec<(Vec<u8>, KvOp<AuthoredDhtOpsValue>)>,
    /// Writes staged for the integration queue.
    pub queue: Vec<(Vec<u8>, KvOp<IntegrationQueueValue>)>,
    /// Writes staged for the integrated store.
    pub integrated: Vec<(Vec<u8>, KvOp<IntegratedDhtOpsValue>)>,
}

impl Env {
    /// The committed authored store, as a map.
    pub open spec fn authored_map(self) -> Map<Seq<u8>, AuthoredDhtOpsValue> {
        table_map(entries_view(self.authored@))
    }

    /// The committed integration queue, as a map.
    pub open spec fn queue_map(self) -> Map<Seq<u8>, IntegrationQueueValue> {
        table_map(entries_view(self.queue@))
    }

    /// The committed integrated store, as a map.
    pub open spec fn integrated_map(self) -> Map<Seq<u8>, IntegratedDhtOpsValue> {
        table_map(entries_view(self.integrated@))
    }

    /// All three stores are well-formed tables holding well-formed values.
    pub open spec fn wf(self) -> bool {
        &&& table_wf(entries_view(self.authored@))
        &&& table_wf(entries_view(self.queue@))
        &&& table_wf(entries_view(self.integrated@))
        &&& map_values_ok(self.authored_map(), |v: AuthoredDhtOpsValue| v.wf())
        &&& map_values_ok(self.queue_map(), |v: IntegrationQueueValue| v.wf())
        &&& map_values_ok(self.integrated_map(), |v: IntegratedDhtOpsValue| v.wf())
    }

    /// Opens an empty environment: three empty stores.
    pub fn new() -> (r: Env)
        ensures
            r.wf(),
            r.authored_map() == Map::<Seq<u8>, AuthoredDhtOpsValue>::empty(),
            r.queue_map() == Map::<Seq<u8>, IntegrationQueueValue>::empty(),
            r.integrated_map() == Map::<Seq<u8>, IntegratedDhtOpsValue>::empty(),
    {
        Env { authored: Vec::new(), queue: Vec::new(), integrated: Vec::new() }
    }

    /// Opens a read snapshot of the committed state.
    pub fn reader<'env>(&'env self) -> (r: Reader<'env>)
        ensures
            r.env == self,
    {
        Reader { env: self }
    }

    /// Applies a whole write transaction: every staged write of every store
    /// the transaction touched lands, in the order it was staged, or — had
    /// this call not been reached — none would have; the environment is
    /// never seen with only part of a transaction applied.
    pub fn commit(&mut self, writer: Writer) -> (r: Result<(), DatabaseError>)
        requires
            old(self).wf(),
            writer.wf(),
        ensures
            r is Ok,
            final(self).wf(),
            final(self).authored_map() == apply_ops(
                old(self).authored_map(),
                entries_view(writer.authored@),
            ),
            final(self).queue_map() == apply_ops(
                old(self).queue_map(),
                entries_view(writer.queue@),
            ),
            final(self).integrated_map() == apply_ops(
                old(self).integrated_map(),
                entries_view(writer.integrated@),
            ),
    {
        let Writer { authored, queue, integrated } = writer;
        apply_table_ops(&mut self.authored, authored);
        apply_table_ops(&mut self.queue, queue);
        apply_table_ops(&mut self.integrated, integrated);
        proof {
            lemma_apply_ops_values_ok(
                old(self).authored_map(),
                entries_view(authored@),
                |v: AuthoredDhtOpsValue| v.wf(),
            );
            lemma_apply_ops_values_ok(
                old(self).queue_map(),
                entries_view(queue@),
                |v: IntegrationQueueValue| v.wf(),
            );
            lemma_apply_ops_values_ok(
                old(self).integrated_map(),
                entries_view(integrated@),
                |v: IntegratedDhtOpsValue| v.wf(),
            );
        }
        Ok(())
    }
}

impl Writer {
    /// Every staged write has a 36-byte key, and every staged value is
    /// well-formed for its store.
    pub open spec fn wf(self) -> bool {
        &&& ops_keys_wf(entries_view(self.authored@))
        &&& ops_keys_wf(entries_view(self.queue@))
        &&& ops_keys_wf(entries_view(self.integrated@))
        &&& ops_values_ok(entries_view(self.authored@), |v: AuthoredDhtOpsValue| v.wf())
        &&& ops_values_ok(entries_view(self.queue@), |v: IntegrationQueueValue| v.wf())
        &&& ops_values_ok(entries_view(self.integrated@), |v: IntegratedDhtOpsValue| v.wf())
    }

    /// Opens a write transaction with nothing staged.
    pub fn new() -> (r: Writer)
        ensures
            r.wf(),
            r.authored@.len() == 0,
            r.queue@.len() == 0,
            r.integrated@.len() == 0,
    {
        Writer { authored: Vec::new(), queue: Vec::new(), integrated: Vec::new() }
    }
}

} // verus!
