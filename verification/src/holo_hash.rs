//! The typed content hash: a 36-byte digest tagged with a hash kind.
//!
//! The serialized form of any hash is exactly 39 bytes: the kind's 3-byte
//! prefix followed by the digest. The prefix is always embedded, never
//! elided, so the kind is recoverable from the bytes alone, and decoding as a
//! kind that does not accept the embedded prefix fails loudly instead of
//! coercing.

use vstd::prelude::*;

use crate::error::HoloHashError;
use crate::hash_type::{
    any_dht_holds, any_dht_primitive, prefix_spec, tag_of_prefix, AnyDht, HashType,
};

verus! {

/// A hash with a primitive kind: an immutable value of a 36-byte digest and
/// the kind tag. Never mutated after construction.
#[derive(Debug, PartialEq, Eq)]
pub struct HoloHash {
    /// The kind tag.
    pub hash_type: HashType,
    /// The raw 36-byte digest.
    pub hash: Vec<u8>,
}

/// A hash with the composite DHT kind: the digest together with whichever
/// primitive member (entry or header) it currently holds.
#[derive(Debug, PartialEq, Eq)]
pub struct AnyDhtHash {
    /// The member of the composite kind this hash currently holds.
    pub hash_type: AnyDht,
    /// The raw 36-byte digest.
    pub hash: Vec<u8>,
}

/// The public key of an agent, as a typed hash.
pub type AgentPubKey = HoloHash;

/// The hash of a DNA.
pub type DnaHash = HoloHash;

/// The hash of a DHT operation; the key of every staged operation store.
pub type DhtOpHash = HoloHash;

/// The hash of an entry.
pub type EntryHash = HoloHash;

/// The hash of a header.
pub type HeaderHash = HoloHash;

/// The serialized form: prefix, then digest.
pub open spec fn serialize_spec(t: HashType, digest: Seq<u8>) -> Seq<u8> {
    prefix_spec(t) + digest
}

/// What decoding 39 bytes as a given primitive kind yields: the digest on
/// success, and otherwise exactly which way the bytes are malformed.
pub open spec fn deserialize_spec(bytes: Seq<u8>, expected: HashType) -> Result<
    Seq<u8>,
    HoloHashError,
> {
    if bytes.len() != 39 {
        Err(HoloHashError::BadSize)
    } else {
        match tag_of_prefix(bytes.subrange(0, 3)) {
            None => Err(HoloHashError::UnknownPrefix),
            Some(t) => if t == expected {
                Ok(bytes.subrange(3, 39))
            } else {
                Err(HoloHashError::TypeMismatch)
            },
        }
    }
}

/// The member of the composite DHT kind that stands for a primitive kind;
/// meaningful only when the composite accepts that kind.
pub open spec fn any_dht_member(t: HashType) -> AnyDht {
    if t == HashType::Header {
        AnyDht::Header
    } else {
        AnyDht::Entry
    }
}

/// What decoding 39 bytes as the composite DHT kind yields: the resolved
/// member and the digest, or the exact failure. A prefix that resolves to a
/// primitive kind outside the accepted set is a type mismatch, not a silent
/// coercion.
pub open spec fn deserialize_any_spec(bytes: Seq<u8>) -> Result<
    (AnyDht, Seq<u8>),
    HoloHashError,
> {
    if bytes.len() != 39 {
        Err(HoloHashError::BadSize)
    } else {
        match tag_of_prefix(bytes.subrange(0, 3)) {
            None => Err(HoloHashError::UnknownPrefix),
            Some(t) => if any_dht_holds(t) {
                Ok((any_dht_member(t), bytes.subrange(3, 39)))
            } else {
                Err(HoloHashError::TypeMismatch)
            },
        }
    }
}

/// The hash-space location of a digest: the trailing four location bytes
/// read as a little-endian integer. Total and deterministic.
pub open spec fn loc_of(digest: Seq<u8>) -> u32
    recommends
        digest.len() == 36,
{
    ((digest[32] as int) + (digest[33] as int) * 0x100 + (digest[34] as int) * 0x1_0000 + (
    digest[35] as int) * 0x100_0000) as u32
}

impl HoloHash {
    /// The digest is always exactly 36 bytes.
    pub open spec fn wf(self) -> bool {
        self.hash@.len() == 36
    }

    /// The kind tag of this hash.
    pub open spec fn hash_type_spec(self) -> HashType {
        self.hash_type
    }

    /// The raw digest of this hash.
    pub open spec fn digest(self) -> Seq<u8> {
        self.hash@
    }

    /// Builds a hash of the given kind over an already-computed digest; the
    /// bytes are not hashed again. A buffer of any length other than 36
    /// bytes is rejected with a size error.
    pub fn from_raw_bytes_and_type(hash: Vec<u8>, hash_type: HashType) -> (r: Result<
        HoloHash,
        HoloHashError,
    >)
        ensures
            hash@.len() == 36 ==> (r matches Ok(h) && h.hash_type == hash_type && h.hash@
                == hash@),
            hash@.len() != 36 ==> r == Err::<HoloHash, HoloHashError>(HoloHashError::BadSize),
    {
        if hash.len() == 36 {
            Ok(HoloHash { hash_type, hash })
        } else {
            Err(HoloHashError::BadSize)
        }
    }

    /// Rebuilds a hash from a store key that is already exactly the digest;
    /// the store's own invariant guarantees the length.
    pub fn with_pre_hashed(hash: Vec<u8>, hash_type: HashType) -> (r: HoloHash)
        requires
            hash@.len() == 36,
        ensures
            r.hash_type == hash_type,
            r.hash@ == hash@,
    {
        HoloHash { hash_type, hash }
    }

    /// The kind tag of this hash.
    pub fn hash_type(&self) -> (t: HashType)
        ensures
            t == self.hash_type,
    {
        self.hash_type
    }

    /// Consumes the hash, handing back the raw digest.
    pub fn into_inner(self) -> (r: Vec<u8>)
        ensures
            r@ == self.hash@,
    {
        self.hash
    }

    /// Serializes to exactly prefix-then-digest. Total: it cannot fail.
    pub fn serialize(&self) -> (r: Vec<u8>)
        ensures
            r@ == serialize_spec(self.hash_type, self.hash@),
            self.wf() ==> r@.len() == 39,
    {
        let mut r = self.hash_type.get_prefix();
        let mut i: usize = 0;
        let n = self.hash.len();
        while i < n
            invariant
                i <= n,
                n == self.hash@.len(),
                r@ == prefix_spec(self.hash_type) + self.hash@.subrange(0, i as int),
            decreases n - i,
        {
            r.push(self.hash[i]);
            i = i + 1;
            proof {
                assert(prefix_spec(self.hash_type) + self.hash@.subrange(0, i as int) =~= (
                prefix_spec(self.hash_type) + self.hash@.subrange(0, i - 1)).push(
                    self.hash@[i - 1],
                ));
            }
        }
        proof {
            assert(self.hash@.subrange(0, n as int) =~= self.hash@);
        }
        r
    }

    /// Decodes 39 serialized bytes as a hash of the statically expected
    /// primitive kind. Fails on any other length, on a prefix no kind owns,
    /// and on a prefix owned by a different kind.
    pub fn deserialize(bytes: &Vec<u8>, expected: HashType) -> (r: Result<HoloHash, HoloHashError>)
        ensures
            match deserialize_spec(bytes@, expected) {
                Ok(d) => r matches Ok(h) && h.hash_type == expected && h.hash@ == d,
                Err(e) => r == Err::<HoloHash, HoloHashError>(e),
            },
    {
        if bytes.len() != 39 {
            return Err(HoloHashError::BadSize);
        }
        proof {
            assert(seq![bytes@[0], bytes@[1], bytes@[2]] =~= bytes@.subrange(0, 3));
        }
        let t = match HashType::try_from_prefix(bytes[0], bytes[1], bytes[2]) {
            Ok(t) => t,
            Err(e) => {
                return Err(e);
            },
        };
        if t != expected {
            return Err(HoloHashError::TypeMismatch);
        }
        let digest = copy_digest(bytes);
        Ok(HoloHash { hash_type: t, hash: digest })
    }

    /// The hash-space location this hash belongs to: a pure function of the
    /// digest.
    pub fn get_loc(&self) -> (r: u32)
        requires
            self.wf(),
        ensures
            r == loc_of(self.hash@),
    {
        loc_of_exec(&self.hash)
    }
}

impl AnyDhtHash {
    /// The digest is always exactly 36 bytes.
    pub open spec fn wf(self) -> bool {
        self.hash@.len() == 36
    }

    /// The composite kind tag: the member this hash currently holds.
    pub open spec fn hash_type_spec(self) -> AnyDht {
        self.hash_type
    }

    /// The raw digest of this hash.
    pub open spec fn digest(self) -> Seq<u8> {
        self.hash@
    }

    /// Builds a composite-typed hash over an already-computed digest,
    /// holding the given member. Rejects any buffer that is not 36 bytes.
    pub fn from_raw_bytes_and_type(hash: Vec<u8>, hash_type: AnyDht) -> (r: Result<
        AnyDhtHash,
        HoloHashError,
    >)
        ensures
            hash@.len() == 36 ==> (r matches Ok(h) && h.hash_type == hash_type && h.hash@
                == hash@),
            hash@.len() != 36 ==> r == Err::<AnyDhtHash, HoloHashError>(HoloHashError::BadSize),
    {
        if hash.len() == 36 {
            Ok(AnyDhtHash { hash_type, hash })
        } else {
            Err(HoloHashError::BadSize)
        }
    }

    /// The member this hash currently holds.
    pub fn hash_type(&self) -> (t: AnyDht)
        ensures
            t == self.hash_type,
    {
        self.hash_type
    }

    /// Consumes the hash, handing back the raw digest.
    pub fn into_inner(self) -> (r: Vec<u8>)
        ensures
            r@ == self.hash@,
    {
        self.hash
    }

    /// Reinterprets this composite-typed hash as the primitive-typed hash of
    /// the member it holds. Always succeeds: every member is a primitive.
    pub fn into_primitive(self) -> (r: HoloHash)
        ensures
            r.hash_type_spec() == any_dht_primitive(self.hash_type),
            r.digest() == self.hash@,
    {
        HoloHash { hash_type: self.hash_type.to_primitive(), hash: self.hash }
    }

    /// Reinterprets a primitive-typed hash as composite-typed; fails with a
    /// type mismatch when the composite does not accept the hash's kind.
    pub fn from_primitive(h: HoloHash) -> (r: Result<AnyDhtHash, HoloHashError>)
        ensures
            any_dht_holds(h.hash_type_spec()) ==> (r matches Ok(a) && any_dht_primitive(
                a.hash_type,
            ) == h.hash_type_spec() && a.hash@ == h.digest()),
            !any_dht_holds(h.hash_type_spec()) ==> r == Err::<AnyDhtHash, HoloHashError>(
                HoloHashError::TypeMismatch,
            ),
    {
        match AnyDht::try_from_primitive(h.hash_type()) {
            Ok(c) => Ok(AnyDhtHash { hash_type: c, hash: h.into_inner() }),
            Err(e) => Err(e),
        }
    }

    /// Serializes to exactly the member's prefix, then the digest.
    pub fn serialize(&self) -> (r: Vec<u8>)
        ensures
            r@ == serialize_spec(any_dht_primitive(self.hash_type), self.hash@),
            self.wf() ==> r@.len() == 39,
    {
        let p = HoloHash { hash_type: self.hash_type.to_primitive(), hash: copy_digest_all(&self.hash) };
        p.serialize()
    }

    /// Decodes 39 serialized bytes as a composite-typed hash. The embedded
    /// prefix must resolve to a primitive member of the accepted set; a hash
    /// of any other kind is a type mismatch, observed as a failed decode.
    pub fn deserialize(bytes: &Vec<u8>) -> (r: Result<AnyDhtHash, HoloHashError>)
        ensures
            match deserialize_any_spec(bytes@) {
                Ok(td) => r matches Ok(h) && h.hash_type == td.0 && h.hash@ == td.1,
                Err(e) => r == Err::<AnyDhtHash, HoloHashError>(e),
            },
    {
        if bytes.len() != 39 {
            return Err(HoloHashError::BadSize);
        }
        proof {
            assert(seq![bytes@[0], bytes@[1], bytes@[2]] =~= bytes@.subrange(0, 3));
        }
        let t = match HashType::try_from_prefix(bytes[0], bytes[1], bytes[2]) {
            Ok(t) => t,
            Err(e) => {
                return Err(e);
            },
        };
        let c = match AnyDht::try_from_primitive(t) {
            Ok(c) => c,
            Err(e) => {
                return Err(e);
            },
        };
        let digest = copy_digest(bytes);
        Ok(AnyDhtHash { hash_type: c, hash: digest })
    }

    /// The hash-space location of this hash: a pure function of the digest.
    pub fn get_loc(&self) -> (r: u32)
        requires
            self.wf(),
        ensures
            r == loc_of(self.hash@),
    {
        loc_of_exec(&self.hash)
    }
}

impl Clone for HoloHash {
    /// Cloning keeps the kind and the digest: hashes are pure values.
    fn clone(&self) -> (r: Self)
        ensures
            r.hash_type == self.hash_type,
            r.hash@ == self.hash@,
    {
        HoloHash { hash_type: self.hash_type, hash: copy_digest_all(&self.hash) }
    }
}

impl Clone for AnyDhtHash {
    /// Cloning keeps the member and the digest: hashes are pure values.
    fn clone(&self) -> (r: Self)
        ensures
            r.hash_type == self.hash_type,
            r.hash@ == self.hash@,
    {
        AnyDhtHash { hash_type: self.hash_type, hash: copy_digest_all(&self.hash) }
    }
}

/// Copies the digest out of a 39-byte serialized form.
fn copy_digest(bytes: &Vec<u8>) -> (r: Vec<u8>)
    requires
        bytes@.len() == 39,
    ensures
        r@ == bytes@.subrange(3, 39),
{
    let mut r: Vec<u8> = Vec::new();
    let mut i: usize = 3;
    while i < 39
        invariant
            3 <= i <= 39,
            bytes@.len() == 39,
            r@ == bytes@.subrange(3, i as int),
        decreases 39 - i,
    {
        r.push(bytes[i]);
        i = i + 1;
        proof {
            assert(bytes@.subrange(3, i as int) =~= bytes@.subrange(3, i - 1).push(
                bytes@[i - 1],
            ));
        }
    }
    r
}

/// Copies a whole digest buffer.
fn copy_digest_all(bytes: &Vec<u8>) -> (r: Vec<u8>)
    ensures
        r@ == bytes@,
{
    let r = bytes.clone();
    proof {
        assert(r@ =~= bytes@);
    }
    r
}

/// Reads the trailing four location bytes of a digest as little-endian.
fn loc_of_exec(digest: &Vec<u8>) -> (r: u32)
    requires
        digest@.len() == 36,
    ensures
        r == loc_of(digest@),
{
    let b32 = digest[32] as u32;
    let b33 = digest[33] as u32;
    let b34 = digest[34] as u32;
    let b35 = digest[35] as u32;
    b32 + b33 * 0x100 + b34 * 0x1_0000 + b35 * 0x100_0000
}

/// Round trip: for every 36-byte digest and every primitive kind, decoding
/// the serialized form as that kind yields the original digest, so the
/// rebuilt hash equals the original in both kind and digest.
pub proof fn lemma_serialize_round_trip(t: HashType, digest: Seq<u8>)
    requires
        digest.len() == 36,
    ensures
        deserialize_spec(serialize_spec(t, digest), t) == Ok::<Seq<u8>, HoloHashError>(digest),
{
    let bytes = serialize_spec(t, digest);
    assert(bytes.subrange(0, 3) =~= prefix_spec(t));
    crate::hash_type::lemma_prefix_round_trip(t);
    assert(bytes.subrange(3, 39) =~= digest);
}

/// Round trip for the composite DHT kind: a hash holding either accepted
/// member decodes back to the same member and digest.
pub proof fn lemma_serialize_round_trip_any(c: AnyDht, digest: Seq<u8>)
    requires
        digest.len() == 36,
    ensures
        deserialize_any_spec(serialize_spec(any_dht_primitive(c), digest)) == Ok::<
            (AnyDht, Seq<u8>),
            HoloHashError,
        >((c, digest)),
{
    let t = any_dht_primitive(c);
    let bytes = serialize_spec(t, digest);
    assert(bytes.subrange(0, 3) =~= prefix_spec(t));
    crate::hash_type::lemma_prefix_round_trip(t);
    assert(bytes.subrange(3, 39) =~= digest);
}

/// Crossover rejection: decoding the serialized form of a hash whose
/// primitive kind the composite DHT kind does not accept fails
/// deterministically with a type mismatch.
pub proof fn lemma_any_dht_rejects_foreign(t: HashType, digest: Seq<u8>)
    requires
        digest.len() == 36,
        !any_dht_holds(t),
    ensures
        deserialize_any_spec(serialize_spec(t, digest)) == Err::<(AnyDht, Seq<u8>), HoloHashError>(
            HoloHashError::TypeMismatch,
        ),
{
    let bytes = serialize_spec(t, digest);
    assert(bytes.subrange(0, 3) =~= prefix_spec(t));
    crate::hash_type::lemma_prefix_round_trip(t);
}

/// Location derivation is pure: hashes with identical digests have
/// identical locations, however they were built.
pub proof fn lemma_get_loc_deterministic(h1: HoloHash, h2: HoloHash)
    requires
        h1.digest() == h2.digest(),
    ensures
        loc_of(h1.digest()) == loc_of(h2.digest()),
{
}

} // verus!
