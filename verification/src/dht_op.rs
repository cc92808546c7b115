//! The two representations of a DHT operation: the full form carrying the
//! whole payload needed to validate and apply the change, and the light form
//! carrying only the hashes needed to identify what happened once the payload
//! is retrievable elsewhere.
//!
//! Every operation has a basis hash: the content hash that determines where
//! in hash-space the operation belongs for locality queries. The basis is a
//! pure function of the operation, so the same operation always lands at the
//! same location.

use vstd::prelude::*;

use crate::buffer::bytes_eq;
use crate::error::DhtOpConvertError;
use crate::holo_hash::{AnyDhtHash, EntryHash, HeaderHash};

verus! {

/// A unit of replicated state change, in full: signature, identifying
/// hashes, basis, and the payload bytes of the change itself.
#[derive(Clone, Debug, PartialEq, Eq)]
pub enum DhtOp {
    /// Store a chain element at the header's address.
    StoreElement {
        /// The author's signature over the header.
        signature: Vec<u8>,
        /// The hash of the header being stored.
        header: HeaderHash,
        /// The serialized element payload.
        payload: Vec<u8>,
        /// The content hash this operation belongs to in hash-space.
        basis: AnyDhtHash,
    },
    /// Store an entry at the entry's address.
    StoreEntry {
        /// The author's signature over the header.
        signature: Vec<u8>,
        /// The hash of the header that created the entry.
        header: HeaderHash,
        /// The hash of the entry being stored.
        entry: EntryHash,
        /// The serialized entry payload.
        payload: Vec<u8>,
        /// The content hash this operation belongs to in hash-space.
        basis: AnyDhtHash,
    },
    /// Record agent activity at the agent's address.
    RegisterAgentActivity {
        /// The author's signature over the header.
        signature: Vec<u8>,
        /// The hash of the header recording the activity.
        header: HeaderHash,
        /// The content hash this operation belongs to in hash-space.
        basis: AnyDhtHash,
    },
}

/// The same logical event with the payload discarded: the variant kind, the
/// basis hash, and the hashes needed to fetch the full payload on demand.
#[derive(Debug, PartialEq, Eq)]
pub enum DhtOpLight {
    /// Store a chain element at the header's address.
    StoreElement(HeaderHash, AnyDhtHash),
    /// Store an entry at the entry's address.
    StoreEntry(HeaderHash, EntryHash, AnyDhtHash),
    /// Record agent activity at the agent's address.
    RegisterAgentActivity(HeaderHash, AnyDhtHash),
}

/// The basis hash of a full operation.
pub open spec fn basis_of(op: DhtOp) -> AnyDhtHash {
    match op {
        DhtOp::StoreElement { basis, .. } => basis,
        DhtOp::StoreEntry { basis, .. } => basis,
        DhtOp::RegisterAgentActivity { basis, .. } => basis,
    }
}

/// The basis hash of a light operation.
pub open spec fn basis_of_light(op: DhtOpLight) -> AnyDhtHash {
    match op {
        DhtOpLight::StoreElement(_, basis) => basis,
        DhtOpLight::StoreEntry(_, _, basis) => basis,
        DhtOpLight::RegisterAgentActivity(_, basis) => basis,
    }
}

/// Whether a light operation is the light form of a full operation: the same
/// variant kind, and hash for hash the same kind tags and digests.
pub open spec fn light_of(l: DhtOpLight, op: DhtOp) -> bool {
    match (op, l) {
        (
            DhtOp::StoreElement { header, basis, .. },
            DhtOpLight::StoreElement(h, b),
        ) => h.hash_type == header.hash_type && h.hash@ == header.hash@ && b.hash_type
            == basis.hash_type && b.hash@ == basis.hash@,
        (
            DhtOp::StoreEntry { header, entry, basis, .. },
            DhtOpLight::StoreEntry(h, e, b),
        ) => h.hash_type == header.hash_type && h.hash@ == header.hash@ && e.hash_type
            == entry.hash_type && e.hash@ == entry.hash@ && b.hash_type == basis.hash_type
            && b.hash@ == basis.hash@,
        (
            DhtOp::RegisterAgentActivity { header, basis, .. },
            DhtOpLight::RegisterAgentActivity(h, b),
        ) => h.hash_type == header.hash_type && h.hash@ == header.hash@ && b.hash_type
            == basis.hash_type && b.hash@ == basis.hash@,
        _ => false,
    }
}

/// Whether two light operations describe the same event: the same variant
/// kind, and hash for hash the same kind tags and digests.
pub open spec fn light_eq(a: DhtOpLight, b: DhtOpLight) -> bool {
    match (a, b) {
        (DhtOpLight::StoreElement(h1, b1), DhtOpLight::StoreElement(h2, b2)) => h1.hash_type
            == h2.hash_type && h1.hash@ == h2.hash@ && b1.hash_type == b2.hash_type && b1.hash@
            == b2.hash@,
        (DhtOpLight::StoreEntry(h1, e1, b1), DhtOpLight::StoreEntry(h2, e2, b2)) => h1.hash_type
            == h2.hash_type && h1.hash@ == h2.hash@ && e1.hash_type == e2.hash_type && e1.hash@
            == e2.hash@ && b1.hash_type == b2.hash_type && b1.hash@ == b2.hash@,
        (
            DhtOpLight::RegisterAgentActivity(h1, b1),
            DhtOpLight::RegisterAgentActivity(h2, b2),
        ) => h1.hash_type == h2.hash_type && h1.hash@ == h2.hash@ && b1.hash_type == b2.hash_type
            && b1.hash@ == b2.hash@,
        _ => false,
    }
}

impl DhtOp {
    /// All identifying hashes carry full digests.
    pub open spec fn wf(self) -> bool {
        match self {
            DhtOp::StoreElement { header, basis, .. } => header.wf() && basis.wf(),
            DhtOp::StoreEntry { header, entry, basis, .. } => header.wf() && entry.wf()
                && basis.wf(),
            DhtOp::RegisterAgentActivity { header, basis, .. } => header.wf() && basis.wf(),
        }
    }

    /// The content hash that determines this operation's place in
    /// hash-space. Stable: a pure function of the operation.
    pub fn dht_basis(&self) -> (r: &AnyDhtHash)
        ensures
            *r == basis_of(*self),
    {
        match self {
            DhtOp::StoreElement { basis, .. } => basis,
            DhtOp::StoreEntry { basis, .. } => basis,
            DhtOp::RegisterAgentActivity { basis, .. } => basis,
        }
    }

    /// Derives the light form: drops the signature and payload, keeps the
    /// variant kind, the basis and the identifying hashes.
    pub fn to_light(&self) -> (l: DhtOpLight)
        ensures
            light_of(l, *self),
    {
        match self {
            DhtOp::StoreElement { header, basis, .. } => DhtOpLight::StoreElement(
                header.clone(),
                basis.clone(),
            ),
            DhtOp::StoreEntry { header, entry, basis, .. } => DhtOpLight::StoreEntry(
                header.clone(),
                entry.clone(),
                basis.clone(),
            ),
            DhtOp::RegisterAgentActivity { header, basis, .. } => DhtOpLight::RegisterAgentActivity(
                header.clone(),
                basis.clone(),
            ),
        }
    }
}

impl DhtOpLight {
    /// All identifying hashes carry full digests.
    pub open spec fn wf(self) -> bool {
        match self {
            DhtOpLight::StoreElement(header, basis) => header.wf() && basis.wf(),
            DhtOpLight::StoreEntry(header, entry, basis) => header.wf() && entry.wf()
                && basis.wf(),
            DhtOpLight::RegisterAgentActivity(header, basis) => header.wf() && basis.wf(),
        }
    }

    /// The content hash that determines this operation's place in
    /// hash-space.
    pub fn dht_basis(&self) -> (r: &AnyDhtHash)
        ensures
            *r == basis_of_light(*self),
    {
        match self {
            DhtOpLight::StoreElement(_, basis) => basis,
            DhtOpLight::StoreEntry(_, _, basis) => basis,
            DhtOpLight::RegisterAgentActivity(_, basis) => basis,
        }
    }
}

impl Clone for DhtOpLight {
    /// Cloning keeps the variant kind and every hash's tag and digest.
    fn clone(&self) -> (r: Self)
        ensures
            light_eq(r, *self),
    {
        match self {
            DhtOpLight::StoreElement(h, b) => DhtOpLight::StoreElement(h.clone(), b.clone()),
            DhtOpLight::StoreEntry(h, e, b) => DhtOpLight::StoreEntry(
                h.clone(),
                e.clone(),
                b.clone(),
            ),
            DhtOpLight::RegisterAgentActivity(h, b) => DhtOpLight::RegisterAgentActivity(
                h.clone(),
                b.clone(),
            ),
        }
    }
}

/// Checks that a light operation is the light form of a full operation: the
/// same variant kind and, hash for hash, the same kind tags and digests.
/// Any mismatch is surfaced as a typed conversion error, never coerced.
pub fn check_light_matches(light: &DhtOpLight, op: &DhtOp) -> (r: Result<(), DhtOpConvertError>)
    ensures
        r is Ok <==> light_of(*light, *op),
        r is Err ==> r == Err::<(), DhtOpConvertError>(DhtOpConvertError::OpMismatch),
{
    let ok = match (op, light) {
        (
            DhtOp::StoreElement { header, basis, .. },
            DhtOpLight::StoreElement(h, b),
        ) => h.hash_type() == header.hash_type() && bytes_eq(&h.hash, &header.hash)
            && b.hash_type() == basis.hash_type() && bytes_eq(&b.hash, &basis.hash),
        (
            DhtOp::StoreEntry { header, entry, basis, .. },
            DhtOpLight::StoreEntry(h, e, b),
        ) => h.hash_type() == header.hash_type() && bytes_eq(&h.hash, &header.hash)
            && e.hash_type() == entry.hash_type() && bytes_eq(&e.hash, &entry.hash)
            && b.hash_type() == basis.hash_type() && bytes_eq(&b.hash, &basis.hash),
        (
            DhtOp::RegisterAgentActivity { header, basis, .. },
            DhtOpLight::RegisterAgentActivity(h, b),
        ) => h.hash_type() == header.hash_type() && bytes_eq(&h.hash, &header.hash)
            && b.hash_type() == basis.hash_type() && bytes_eq(&b.hash, &basis.hash),
        _ => false,
    };
    if ok {
        Ok(())
    } else {
        Err(DhtOpConvertError::OpMismatch)
    }
}

/// Deriving the light form keeps the basis: the light operation lands at the
/// same hash-space location as the full one.
pub proof fn lemma_to_light_preserves_basis(l: DhtOpLight, op: DhtOp)
    requires
        light_of(l, op),
    ensures
        basis_of_light(l).hash_type == basis_of(op).hash_type,
        basis_of_light(l).hash@ == basis_of(op).hash@,
{
}

} // verus!
