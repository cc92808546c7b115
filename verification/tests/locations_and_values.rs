//! Hash-space locations, arcs, timestamps, operation forms and the error
//! taxonomy.

use holochain_core::dht_arc::DhtArc;
use holochain_core::dht_op::{check_light_matches, DhtOp, DhtOpLight};
use holochain_core::dht_op_integration::AuthoredDhtOpsValue;
use holochain_core::error::{CascadeError, DatabaseError, DhtOpConvertError, HoloHashError};
use holochain_core::hash_type::{AnyDht, HashType};
use holochain_core::holo_hash::{AnyDhtHash, HoloHash};
use holochain_core::timestamp::Timestamp;

#[test]
fn get_loc_reads_location_bytes() {
    let mut digest = vec![0u8; 36];
    digest[32] = 1;
    digest[33] = 2;
    digest[34] = 3;
    digest[35] = 4;
    let h = HoloHash::from_raw_bytes_and_type(digest, HashType::Entry).unwrap();
    assert_eq!(
        h.get_loc(),
        1 + 2 * 0x100 + 3 * 0x1_0000 + 4 * 0x100_0000
    );
}

#[test]
fn get_loc_is_deterministic() {
    // The same digest under different kinds, built twice: one location.
    let digest = vec![0x5a; 36];
    let h1 = HoloHash::from_raw_bytes_and_type(digest.clone(), HashType::Entry).unwrap();
    let h2 = HoloHash::from_raw_bytes_and_type(digest.clone(), HashType::Header).unwrap();
    let a = AnyDhtHash::from_raw_bytes_and_type(digest, AnyDht::Entry).unwrap();
    assert_eq!(h1.get_loc(), h1.get_loc());
    assert_eq!(h1.get_loc(), h2.get_loc());
    assert_eq!(h1.get_loc(), a.get_loc());
}

#[test]
fn arc_contains_radius_one() {
    let arc = DhtArc::new(100, 1);
    assert!(arc.contains(99));
    assert!(arc.contains(100));
    assert!(arc.contains(101));
    assert!(!arc.contains(98));
    assert!(!arc.contains(102));
}

#[test]
fn arc_wraps_around_space_end() {
    let at_zero = DhtArc::new(0, 1);
    assert!(at_zero.contains(u32::MAX));
    assert!(at_zero.contains(0));
    assert!(at_zero.contains(1));
    assert!(!at_zero.contains(2));
    assert!(!at_zero.contains(u32::MAX - 1));

    let at_end = DhtArc::new(u32::MAX, 1);
    assert!(at_end.contains(u32::MAX - 1));
    assert!(at_end.contains(u32::MAX));
    assert!(at_end.contains(0));
    assert!(!at_end.contains(1));

    let everything = DhtArc::new(7, u32::MAX);
    assert!(everything.contains(0));
    assert!(everything.contains(u32::MAX / 2));
    assert!(everything.contains(u32::MAX));
}

#[test]
fn timestamp_order() {
    let a = Timestamp::new(10, 0).unwrap();
    let b = Timestamp::new(10, 5).unwrap();
    let c = Timestamp::new(11, 0).unwrap();
    assert!(a.lt(&b));
    assert!(b.lt(&c));
    assert!(a.le(&a));
    assert!(!a.lt(&a));
    assert!(!c.le(&b));

    let negative = Timestamp::new(-5, 999_999_999).unwrap();
    assert!(negative.lt(&a));

    assert_eq!(Timestamp::new(0, 1_000_000_000), None);
}

#[test]
fn from_light_starts_unpublished() {
    let header = HoloHash::from_raw_bytes_and_type(vec![1; 36], HashType::Header).unwrap();
    let basis = AnyDhtHash::from_raw_bytes_and_type(vec![2; 36], AnyDht::Entry).unwrap();
    let light = DhtOpLight::RegisterAgentActivity(header, basis);
    let v = AuthoredDhtOpsValue::from_light(light.clone());
    assert_eq!(v.op, light);
    assert_eq!(v.receipt_count, 0);
    assert_eq!(v.last_publish_time, None);
}

#[test]
fn to_light_keeps_basis() {
    let header = HoloHash::from_raw_bytes_and_type(vec![1; 36], HashType::Header).unwrap();
    let entry = HoloHash::from_raw_bytes_and_type(vec![2; 36], HashType::Entry).unwrap();
    let basis = AnyDhtHash::from_raw_bytes_and_type(vec![3; 36], AnyDht::Entry).unwrap();

    let store_element = DhtOp::StoreElement {
        signature: vec![1, 2],
        header: header.clone(),
        payload: vec![5; 10],
        basis: basis.clone(),
    };
    assert_eq!(
        store_element.to_light(),
        DhtOpLight::StoreElement(header.clone(), basis.clone())
    );
    assert_eq!(store_element.dht_basis(), &basis);

    let store_entry = DhtOp::StoreEntry {
        signature: vec![1, 2],
        header: header.clone(),
        entry: entry.clone(),
        payload: vec![5; 10],
        basis: basis.clone(),
    };
    assert_eq!(
        store_entry.to_light(),
        DhtOpLight::StoreEntry(header.clone(), entry, basis.clone())
    );

    let activity = DhtOp::RegisterAgentActivity {
        signature: vec![1, 2],
        header: header.clone(),
        basis: basis.clone(),
    };
    let light = activity.to_light();
    assert_eq!(light, DhtOpLight::RegisterAgentActivity(header, basis.clone()));
    assert_eq!(light.dht_basis(), &basis);

    // The light form lands at the same hash-space location.
    assert_eq!(
        activity.dht_basis().get_loc(),
        light.dht_basis().get_loc()
    );
}

#[test]
fn light_full_mismatch_is_a_typed_error() {
    let header = HoloHash::from_raw_bytes_and_type(vec![1; 36], HashType::Header).unwrap();
    let basis = AnyDhtHash::from_raw_bytes_and_type(vec![3; 36], AnyDht::Entry).unwrap();
    let other_basis = AnyDhtHash::from_raw_bytes_and_type(vec![4; 36], AnyDht::Entry).unwrap();
    let op = DhtOp::RegisterAgentActivity {
        signature: vec![0],
        header: header.clone(),
        basis: basis.clone(),
    };

    assert_eq!(check_light_matches(&op.to_light(), &op), Ok(()));

    // A different basis is a mismatch.
    let wrong = DhtOpLight::RegisterAgentActivity(header.clone(), other_basis);
    assert_eq!(
        check_light_matches(&wrong, &op),
        Err(DhtOpConvertError::OpMismatch)
    );

    // A different variant kind is a mismatch.
    let wrong_kind = DhtOpLight::StoreElement(header, basis);
    assert_eq!(
        check_light_matches(&wrong_kind, &op),
        Err(DhtOpConvertError::OpMismatch)
    );
}

#[test]
fn cascade_error_wraps_components() {
    let a = CascadeError::from(DatabaseError::MissingKey);
    assert_eq!(a, CascadeError::DatabaseError(DatabaseError::MissingKey));

    let b = CascadeError::from(DhtOpConvertError::OpMismatch);
    assert_eq!(b, CascadeError::DhtOpConvertError(DhtOpConvertError::OpMismatch));

    let c = CascadeError::from(HoloHashError::BadSize);
    assert_eq!(c, CascadeError::HoloHashError(HoloHashError::BadSize));
}
