//! The hash-type registry: the closed set of primitive hash kinds, each with
//! its fixed 3-byte prefix, the composite kind over the DHT-addressable
//! subset, and the conversions between them.
//!
//! The registry is a static lookup: a prefix resolves to at most one
//! primitive kind, so the kind of a serialized hash is recoverable from its
//! bytes alone.

use vstd::prelude::*;

use crate::error::HoloHashError;

verus! {

/// A primitive hash kind. Each variant owns a distinct 3-byte prefix.
#[derive(Clone, Copy, Debug, PartialEq, Eq, Structural)]
pub enum HashType {
    /// The public key of an agent.
    Agent,
    /// A DNA (the definition of a network).
    Dna,
    /// A DHT operation.
    DhtOp,
    /// An entry (application data).
    Entry,
    /// A header (chain metadata over an entry).
    Header,
}

/// The composite kind over everything addressable in the DHT: an entry or a
/// header. A value of a composite-typed hash carries the primitive member it
/// currently holds, and so the prefix of that member.
#[derive(Clone, Copy, Debug, PartialEq, Eq, Structural)]
pub enum AnyDht {
    Entry,
    Header,
}

/// The fixed 3-byte prefix of a primitive kind.
pub open spec fn prefix_spec(t: HashType) -> Seq<u8> {
    match t {
        HashType::Agent => seq![0x84u8, 0x20u8, 0x24u8],
        HashType::Dna => seq![0x84u8, 0x2du8, 0x24u8],
        HashType::DhtOp => seq![0x84u8, 0x24u8, 0x24u8],
        HashType::Entry => seq![0x84u8, 0x21u8, 0x24u8],
        HashType::Header => seq![0x84u8, 0x29u8, 0x24u8],
    }
}

/// The primitive kind that a 3-byte prefix resolves to, if any.
pub open spec fn tag_of_prefix(p: Seq<u8>) -> Option<HashType> {
    if p == prefix_spec(HashType::Agent) {
        Some(HashType::Agent)
    } else if p == prefix_spec(HashType::Dna) {
        Some(HashType::Dna)
    } else if p == prefix_spec(HashType::DhtOp) {
        Some(HashType::DhtOp)
    } else if p == prefix_spec(HashType::Entry) {
        Some(HashType::Entry)
    } else if p == prefix_spec(HashType::Header) {
        Some(HashType::Header)
    } else {
        None
    }
}

/// Whether the composite kind accepts a primitive kind as a member.
pub open spec fn any_dht_holds(t: HashType) -> bool {
    t == HashType::Entry || t == HashType::Header
}

impl HashType {
    /// The fixed 3-byte prefix of this kind, as stored on the wire.
    pub fn get_prefix(&self) -> (r: Vec<u8>)
        ensures
            r@ == prefix_spec(*self),
    {
        let r: Vec<u8> = match self {
            HashType::Agent => vec![0x84u8, 0x20u8, 0x24u8],
            HashType::Dna => vec![0x84u8, 0x2du8, 0x24u8],
            HashType::DhtOp => vec![0x84u8, 0x24u8, 0x24u8],
            HashType::Entry => vec![0x84u8, 0x21u8, 0x24u8],
            HashType::Header => vec![0x84u8, 0x29u8, 0x24u8],
        };
        proof {
            assert(r@ =~= prefix_spec(*self));
        }
        r
    }

    /// Resolves a 3-byte prefix, given byte by byte, to the unique primitive
    /// kind that owns it, or reports that no kind does.
    pub fn try_from_prefix(b0: u8, b1: u8, b2: u8) -> (r: Result<HashType, HoloHashError>)
        ensures
            match r {
                Ok(t) => tag_of_prefix(seq![b0, b1, b2]) == Some(t),
                Err(e) => tag_of_prefix(seq![b0, b1, b2]) is None && e == HoloHashError::UnknownPrefix,
            },
    {
        let r: Result<HashType, HoloHashError> = if b0 == 0x84 && b1 == 0x20 && b2 == 0x24 {
            Ok(HashType::Agent)
        } else if b0 == 0x84 && b1 == 0x2d && b2 == 0x24 {
            Ok(HashType::Dna)
        } else if b0 == 0x84 && b1 == 0x24 && b2 == 0x24 {
            Ok(HashType::DhtOp)
        } else if b0 == 0x84 && b1 == 0x21 && b2 == 0x24 {
            Ok(HashType::Entry)
        } else if b0 == 0x84 && b1 == 0x29 && b2 == 0x24 {
            Ok(HashType::Header)
        } else {
            Err(HoloHashError::UnknownPrefix)
        };
        proof {
            let p = seq![b0, b1, b2];
            assert(p == prefix_spec(HashType::Agent) <==> (b0 == 0x84 && b1 == 0x20 && b2 == 0x24))
                by {
                if b0 == 0x84 && b1 == 0x20 && b2 == 0x24 {
                    assert(p =~= prefix_spec(HashType::Agent));
                }
            }
            assert(p == prefix_spec(HashType::Dna) <==> (b0 == 0x84 && b1 == 0x2d && b2 == 0x24))
                by {
                if b0 == 0x84 && b1 == 0x2d && b2 == 0x24 {
                    assert(p =~= prefix_spec(HashType::Dna));
                }
            }
            assert(p == prefix_spec(HashType::DhtOp) <==> (b0 == 0x84 && b1 == 0x24 && b2 == 0x24))
                by {
                if b0 == 0x84 && b1 == 0x24 && b2 == 0x24 {
                    assert(p =~= prefix_spec(HashType::DhtOp));
                }
            }
            assert(p == prefix_spec(HashType::Entry) <==> (b0 == 0x84 && b1 == 0x21 && b2 == 0x24))
                by {
                if b0 == 0x84 && b1 == 0x21 && b2 == 0x24 {
                    assert(p =~= prefix_spec(HashType::Entry));
                }
            }
            assert(p == prefix_spec(HashType::Header) <==> (b0 == 0x84 && b1 == 0x29 && b2 == 0x24))
                by {
                if b0 == 0x84 && b1 == 0x29 && b2 == 0x24 {
                    assert(p =~= prefix_spec(HashType::Header));
                }
            }
        }
        r
    }
}

impl AnyDht {
    /// The primitive member this composite value currently holds.
    pub fn to_primitive(&self) -> (r: HashType)
        ensures
            r == any_dht_primitive(*self),
    {
        match self {
            AnyDht::Entry => HashType::Entry,
            AnyDht::Header => HashType::Header,
        }
    }

    /// Whether the composite kind accepts a primitive kind as a member.
    pub fn holds(t: HashType) -> (r: bool)
        ensures
            r == any_dht_holds(t),
    {
        match t {
            HashType::Entry => true,
            HashType::Header => true,
            _ => false,
        }
    }

    /// Interprets a primitive kind as a member of the composite kind; fails
    /// with a type mismatch if the composite does not accept it.
    pub fn try_from_primitive(t: HashType) -> (r: Result<AnyDht, HoloHashError>)
        ensures
            match r {
                Ok(c) => any_dht_holds(t) && any_dht_primitive(c) == t,
                Err(e) => !any_dht_holds(t) && e == HoloHashError::TypeMismatch,
            },
    {
        match t {
            HashType::Entry => Ok(AnyDht::Entry),
            HashType::Header => Ok(AnyDht::Header),
            _ => Err(HoloHashError::TypeMismatch),
        }
    }

    /// The prefix a composite-typed hash carries: that of its member.
    pub fn get_prefix(&self) -> (r: Vec<u8>)
        ensures
            r@ == prefix_spec(any_dht_primitive(*self)),
    {
        let t = self.to_primitive();
        t.get_prefix()
    }
}

/// The primitive member a composite value holds.
pub open spec fn any_dht_primitive(c: AnyDht) -> HashType {
    match c {
        AnyDht::Entry => HashType::Entry,
        AnyDht::Header => HashType::Header,
    }
}

/// Prefixes are globally unique: distinct primitive kinds own distinct
/// prefixes, so a prefix determines the kind.
pub proof fn lemma_prefix_unique(t1: HashType, t2: HashType)
    ensures
        t1 != t2 ==> prefix_spec(t1) != prefix_spec(t2),
{
    if t1 != t2 {
        assert(prefix_spec(t1)[1] != prefix_spec(t2)[1]);
    }
}

/// Resolving the prefix of a primitive kind gives back exactly that kind.
pub proof fn lemma_prefix_round_trip(t: HashType)
    ensures
        tag_of_prefix(prefix_spec(t)) == Some(t),
{
    lemma_prefix_unique(t, HashType::Agent);
    lemma_prefix_unique(t, HashType::Dna);
    lemma_prefix_unique(t, HashType::DhtOp);
    lemma_prefix_unique(t, HashType::Entry);
    lemma_prefix_unique(t, HashType::Header);
}

} // verus!
