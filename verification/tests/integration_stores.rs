//! The staged stores: querying the integrated set, promotion, and the
//! buffer/transaction discipline.

use holochain_core::buffer::KvBuf;
use holochain_core::dht_arc::DhtArc;
use holochain_core::dht_op::{DhtOp, DhtOpLight};
use holochain_core::dht_op_integration::{
    flush_authored_to_txn, flush_queue_to_txn, promote_dht_op, AuthoredDhtOpsValue,
    IntegratedDhtOpsBuf, IntegratedDhtOpsValue, IntegrationQueueValue, QueryIter,
};
use holochain_core::env::{Env, Writer};
use holochain_core::error::DatabaseError;
use holochain_core::hash_type::{AnyDht, HashType};
use holochain_core::holo_hash::{AnyDhtHash, HoloHash};
use holochain_core::timestamp::Timestamp;
use holochain_core::validate::ValidationStatus;

/// A basis hash whose hash-space location is exactly `loc`.
fn basis_at(fill: u8, loc: u32) -> AnyDhtHash {
    let mut digest = vec![fill; 32];
    digest.extend_from_slice(&loc.to_le_bytes());
    AnyDhtHash::from_raw_bytes_and_type(digest, AnyDht::Entry).unwrap()
}

fn header_hash(fill: u8) -> HoloHash {
    HoloHash::from_raw_bytes_and_type(vec![fill; 36], HashType::Header).unwrap()
}

fn op_hash(fill: u8) -> HoloHash {
    HoloHash::from_raw_bytes_and_type(vec![fill; 36], HashType::DhtOp).unwrap()
}

fn ts(secs: i64) -> Timestamp {
    Timestamp::new(secs, 0).unwrap()
}

fn collect_values(it: &mut QueryIter) -> Vec<IntegratedDhtOpsValue> {
    let mut out = Vec::new();
    while let Some((_, v)) = it.next() {
        out.push(v.clone());
    }
    out
}

#[test]
fn test_query() {
    let mut env = Env::new();

    // Create some integration values.
    let mut expected = Vec::new();
    let now: i64 = 1_600_000_000;
    let hundred_hours: i64 = 100 * 3600;
    let same_basis = basis_at(0xaa, 500);
    let times = vec![ts(now - hundred_hours), ts(now), ts(now + hundred_hours)];
    let values: Vec<IntegratedDhtOpsValue> = times
        .iter()
        .enumerate()
        .map(|(i, when_integrated)| IntegratedDhtOpsValue {
            validation_status: ValidationStatus::Valid,
            op: DhtOpLight::RegisterAgentActivity(
                header_hash(10 + i as u8),
                basis_at(0xbb, 10 * (i as u32 + 1)),
            ),
            when_integrated: *when_integrated,
        })
        .collect();

    // Put them in the db.
    let writer = {
        let reader = env.reader();
        let mut buf = IntegratedDhtOpsBuf::new(&reader).unwrap();
        let mut key: u8 = 1;
        for mut value in values {
            buf.put(op_hash(key), value.clone()).unwrap();
            key += 1;
            expected.push(value.clone());
            value.op =
                DhtOpLight::RegisterAgentActivity(header_hash(100 + key), same_basis.clone());
            buf.put(op_hash(key), value.clone()).unwrap();
            key += 1;
            expected.push(value.clone());
        }
        let mut writer = Writer::new();
        buf.flush_to_txn(&mut writer).unwrap();
        writer
    };
    env.commit(writer).unwrap();

    // Check queries.
    let reader = env.reader();
    let buf = IntegratedDhtOpsBuf::new(&reader).unwrap();

    // No filter.
    let mut r = collect_values(&mut buf.query(None, None, None).unwrap());
    r.sort_by_key(|v| v.when_integrated);
    assert_eq!(&r[..], &expected[..]);

    // From now.
    let mut r = collect_values(&mut buf.query(Some(times[1]), None, None).unwrap());
    r.sort_by_key(|v| v.when_integrated);
    assert!(r.contains(&expected[2]));
    assert!(r.contains(&expected[4]));
    assert!(r.contains(&expected[3]));
    assert!(r.contains(&expected[5]));
    assert_eq!(r.len(), 4);

    // From ages ago till 1hr in future.
    let ages_ago = ts(now - hundred_hours - 5 * 7 * 24 * 3600);
    let future = ts(now + 3600);
    let mut r = collect_values(&mut buf.query(Some(ages_ago), Some(future), None).unwrap());
    r.sort_by_key(|v| v.when_integrated);
    assert!(r.contains(&expected[0]));
    assert!(r.contains(&expected[1]));
    assert!(r.contains(&expected[2]));
    assert!(r.contains(&expected[3]));
    assert_eq!(r.len(), 4);

    // Same basis.
    let arc = DhtArc::new(same_basis.get_loc(), 1);
    let mut r = collect_values(&mut buf.query(Some(ages_ago), Some(future), Some(arc)).unwrap());
    r.sort_by_key(|v| v.when_integrated);
    assert!(r.contains(&expected[1]));
    assert!(r.contains(&expected[3]));
    assert_eq!(r.len(), 2);

    // Same basis all.
    let mut r = collect_values(&mut buf.query(None, None, Some(arc)).unwrap());
    r.sort_by_key(|v| v.when_integrated);
    assert!(r.contains(&expected[1]));
    assert!(r.contains(&expected[3]));
    assert!(r.contains(&expected[5]));
    assert_eq!(r.len(), 3);
}

#[test]
fn query_time_and_basis_scenario() {
    // Three operations at now-100h, now, now+100h; the first two share a
    // basis location, the third sits elsewhere in hash-space.
    let mut env = Env::new();
    let now: i64 = 1_600_000_000;
    let hundred_hours: i64 = 100 * 3600;
    let shared = basis_at(0x11, 1000);
    let elsewhere = basis_at(0x22, 2000);

    let v1 = IntegratedDhtOpsValue {
        validation_status: ValidationStatus::Valid,
        op: DhtOpLight::RegisterAgentActivity(header_hash(1), shared.clone()),
        when_integrated: ts(now - hundred_hours),
    };
    let v2 = IntegratedDhtOpsValue {
        validation_status: ValidationStatus::Rejected,
        op: DhtOpLight::RegisterAgentActivity(header_hash(2), shared.clone()),
        when_integrated: ts(now),
    };
    let v3 = IntegratedDhtOpsValue {
        validation_status: ValidationStatus::Valid,
        op: DhtOpLight::RegisterAgentActivity(header_hash(3), elsewhere),
        when_integrated: ts(now + hundred_hours),
    };

    let writer = {
        let reader = env.reader();
        let mut buf = IntegratedDhtOpsBuf::new(&reader).unwrap();
        buf.put(op_hash(1), v1.clone()).unwrap();
        buf.put(op_hash(2), v2.clone()).unwrap();
        buf.put(op_hash(3), v3.clone()).unwrap();
        let mut writer = Writer::new();
        buf.flush_to_txn(&mut writer).unwrap();
        writer
    };
    env.commit(writer).unwrap();

    let reader = env.reader();
    let buf = IntegratedDhtOpsBuf::new(&reader).unwrap();

    // From now: exactly the two with when_integrated >= now.
    let r = collect_values(&mut buf.query(Some(ts(now)), None, None).unwrap());
    assert_eq!(r.len(), 2);
    assert!(r.contains(&v2));
    assert!(r.contains(&v3));

    // Arc around the shared basis: exactly the two sharing it, any time.
    let arc = DhtArc::new(shared.get_loc(), 1);
    let r = collect_values(&mut buf.query(None, None, Some(arc)).unwrap());
    assert_eq!(r.len(), 2);
    assert!(r.contains(&v1));
    assert!(r.contains(&v2));
}

#[test]
fn query_bounds_are_inclusive_low_exclusive_high() {
    let mut env = Env::new();
    let t: i64 = 1_000_000;
    let values: Vec<IntegratedDhtOpsValue> = (0..3)
        .map(|i| IntegratedDhtOpsValue {
            validation_status: ValidationStatus::Valid,
            op: DhtOpLight::RegisterAgentActivity(header_hash(i as u8), basis_at(1, 7)),
            when_integrated: ts(t + i),
        })
        .collect();
    let writer = {
        let reader = env.reader();
        let mut buf = IntegratedDhtOpsBuf::new(&reader).unwrap();
        for (i, v) in values.iter().enumerate() {
            buf.put(op_hash(i as u8), v.clone()).unwrap();
        }
        let mut writer = Writer::new();
        buf.flush_to_txn(&mut writer).unwrap();
        writer
    };
    env.commit(writer).unwrap();

    let reader = env.reader();
    let buf = IntegratedDhtOpsBuf::new(&reader).unwrap();

    // from is inclusive: the middle record is kept.
    let r = collect_values(&mut buf.query(Some(ts(t + 1)), None, None).unwrap());
    assert_eq!(r.len(), 2);
    assert!(r.contains(&values[1]));
    assert!(r.contains(&values[2]));

    // to is exclusive: the middle record is dropped.
    let r = collect_values(&mut buf.query(None, Some(ts(t + 1)), None).unwrap());
    assert_eq!(r.len(), 1);
    assert!(r.contains(&values[0]));

    // A window matching nothing is an empty result, not an error.
    let r = collect_values(&mut buf.query(Some(ts(t + 100)), None, None).unwrap());
    assert_eq!(r.len(), 0);
}

fn full_op(header_fill: u8, basis: AnyDhtHash) -> DhtOp {
    DhtOp::RegisterAgentActivity {
        signature: vec![9, 9, 9],
        header: header_hash(header_fill),
        basis,
    }
}

#[test]
fn promotion_moves_queued_record() {
    let mut env = Env::new();
    let k = op_hash(42);
    let op = full_op(5, basis_at(3, 77));
    let qv = IntegrationQueueValue { validation_status: ValidationStatus::Valid, op: op.clone() };

    // Stage the queued record and commit it.
    let writer = {
        let reader = env.reader();
        let mut queue = KvBuf::new(&reader.env.queue);
        queue.put(k.clone(), qv.clone());
        let mut writer = Writer::new();
        flush_queue_to_txn(queue, &mut writer).unwrap();
        writer
    };
    env.commit(writer).unwrap();

    // Promote within one transaction.
    let when = ts(1_700_000_000);
    let writer = {
        let reader = env.reader();
        let mut queue = KvBuf::new(&reader.env.queue);
        let mut integrated = IntegratedDhtOpsBuf::new(&reader).unwrap();
        promote_dht_op(&mut queue, &mut integrated, &k, when).unwrap();
        let mut writer = Writer::new();
        flush_queue_to_txn(queue, &mut writer).unwrap();
        integrated.flush_to_txn(&mut writer).unwrap();
        writer
    };
    env.commit(writer).unwrap();

    // The record moved: gone from the queue, present in the integrated
    // store with the carried-over verdict and the integration time.
    let reader = env.reader();
    let queue = KvBuf::new(&reader.env.queue);
    assert!(queue.get(&k).is_none());
    let integrated = IntegratedDhtOpsBuf::new(&reader).unwrap();
    let v = integrated.get(&k).unwrap().unwrap();
    assert_eq!(v.validation_status, ValidationStatus::Valid);
    assert_eq!(v.when_integrated, when);
    assert_eq!(v.op, op.to_light());
}

#[test]
fn aborted_promotion_leaves_stores_unchanged() {
    let mut env = Env::new();
    let k = op_hash(7);
    let qv = IntegrationQueueValue {
        validation_status: ValidationStatus::Valid,
        op: full_op(1, basis_at(2, 9)),
    };

    let writer = {
        let reader = env.reader();
        let mut queue = KvBuf::new(&reader.env.queue);
        queue.put(k.clone(), qv.clone());
        let mut writer = Writer::new();
        flush_queue_to_txn(queue, &mut writer).unwrap();
        writer
    };
    env.commit(writer).unwrap();

    // Stage a promotion but drop everything before commit.
    {
        let reader = env.reader();
        let mut queue = KvBuf::new(&reader.env.queue);
        let mut integrated = IntegratedDhtOpsBuf::new(&reader).unwrap();
        promote_dht_op(&mut queue, &mut integrated, &k, ts(5)).unwrap();

        // While the promotion is only staged, a concurrent reader of the
        // same snapshot still sees the operation queued and not integrated.
        let queue_view = KvBuf::new(&reader.env.queue);
        assert!(queue_view.get(&k).is_some());
        let integrated_view = IntegratedDhtOpsBuf::new(&reader).unwrap();
        assert!(integrated_view.get(&k).unwrap().is_none());
    }

    // The transaction was abandoned: nothing changed.
    let reader = env.reader();
    let queue = KvBuf::new(&reader.env.queue);
    assert_eq!(queue.get(&k), Some(&qv));
    let integrated = IntegratedDhtOpsBuf::new(&reader).unwrap();
    assert!(integrated.get(&k).unwrap().is_none());
}

#[test]
fn promoting_missing_op_reports_missing() {
    let env = Env::new();
    let reader = env.reader();
    let mut queue = KvBuf::new(&reader.env.queue);
    let mut integrated = IntegratedDhtOpsBuf::new(&reader).unwrap();
    let r = promote_dht_op(&mut queue, &mut integrated, &op_hash(9), ts(1));
    assert_eq!(r, Err(DatabaseError::MissingKey));
}

#[test]
fn authored_store_records_light_ops() {
    let mut env = Env::new();
    let k = op_hash(21);
    let light = DhtOpLight::RegisterAgentActivity(header_hash(1), basis_at(2, 33));
    let v = AuthoredDhtOpsValue::from_light(light.clone());

    let writer = {
        let reader = env.reader();
        let mut authored = KvBuf::new(&reader.env.authored);
        authored.put(k.clone(), v.clone());
        let mut writer = Writer::new();
        flush_authored_to_txn(authored, &mut writer).unwrap();
        writer
    };
    env.commit(writer).unwrap();

    let reader = env.reader();
    let authored = KvBuf::new(&reader.env.authored);
    let stored = authored.get(&k).unwrap();
    assert_eq!(stored.op, light);
    assert_eq!(stored.receipt_count, 0);
    assert_eq!(stored.last_publish_time, None);
}

#[test]
fn staged_writes_invisible_until_commit() {
    let mut env = Env::new();
    let k = op_hash(3);
    let v = IntegratedDhtOpsValue {
        validation_status: ValidationStatus::Abandoned,
        op: DhtOpLight::RegisterAgentActivity(header_hash(4), basis_at(5, 6)),
        when_integrated: ts(123),
    };

    let writer = {
        let reader = env.reader();
        let mut buf = IntegratedDhtOpsBuf::new(&reader).unwrap();
        buf.put(k.clone(), v.clone()).unwrap();

        // The buffer that staged the write reads it back...
        assert_eq!(buf.get(&k).unwrap(), Some(&v));
        // ...but a reader of the snapshot does not see it yet.
        let other = IntegratedDhtOpsBuf::new(&reader).unwrap();
        assert!(other.get(&k).unwrap().is_none());

        let mut writer = Writer::new();
        buf.flush_to_txn(&mut writer).unwrap();
        writer
    };
    env.commit(writer).unwrap();

    // After commit the write is visible to every new reader.
    let reader = env.reader();
    let buf = IntegratedDhtOpsBuf::new(&reader).unwrap();
    assert_eq!(buf.get(&k).unwrap(), Some(&v));

    // A staged delete likewise lands only at commit.
    let writer = {
        let reader = env.reader();
        let mut buf = IntegratedDhtOpsBuf::new(&reader).unwrap();
        buf.delete(&k).unwrap();
        assert!(buf.get(&k).unwrap().is_none());
        let other = IntegratedDhtOpsBuf::new(&reader).unwrap();
        assert!(other.get(&k).unwrap().is_some());
        let mut writer = Writer::new();
        buf.flush_to_txn(&mut writer).unwrap();
        writer
    };
    env.commit(writer).unwrap();
    let reader = env.reader();
    let buf = IntegratedDhtOpsBuf::new(&reader).unwrap();
    assert!(buf.get(&k).unwrap().is_none());
}
