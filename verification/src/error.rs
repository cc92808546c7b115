//! The unified error taxonomy: hash decoding failures, storage failures and
//! operation-conversion failures, aggregated for uniform propagation.

use vstd::prelude::*;

verus! {

/// Failure to build or decode a typed hash: every such failure is recoverable
/// by the caller and never a panic.
#[derive(Clone, Copy, Debug, PartialEq, Eq, Structural)]
pub enum HoloHashError {
    /// A raw buffer whose length is not exactly 36 bytes, or a serialized
    /// form whose length is not exactly 39 bytes.
    BadSize,
    /// A 3-byte prefix that resolves to no primitive hash kind.
    UnknownPrefix,
    /// A prefix that resolves to a primitive kind which the statically
    /// expected kind (primitive or composite) does not accept.
    TypeMismatch,
}

/// Failure of the storage layer, propagated to the caller; this core never
/// retries on its own.
#[derive(Clone, Copy, Debug, PartialEq, Eq, Structural)]
pub enum DatabaseError {
    /// A write was asked for under an operation hash that has no record in
    /// the store it addresses.
    MissingKey,
}

/// Failure to convert between the full and the light representation of an
/// operation.
#[derive(Clone, Copy, Debug, PartialEq, Eq, Structural)]
pub enum DhtOpConvertError {
    /// The light operation does not describe the same event as the full one.
    OpMismatch,
}

/// The unified error for the addressing and integration core.
#[derive(Clone, Copy, Debug, PartialEq, Eq, Structural)]
pub enum CascadeError {
    DatabaseError(DatabaseError),
    DhtOpConvertError(DhtOpConvertError),
    HoloHashError(HoloHashError),
}

pub type CascadeResult<T> = Result<T, CascadeError>;

pub type DatabaseResult<T> = Result<T, DatabaseError>;

pub type HoloHashResult<T> = Result<T, HoloHashError>;

impl From<DatabaseError> for CascadeError {
    fn from(e: DatabaseError) -> (r: Self) {
        CascadeError::DatabaseError(e)
    }
}

impl vstd::std_specs::convert::FromSpecImpl<DatabaseError> for CascadeError {
    open spec fn obeys_from_spec() -> bool {
        true
    }

    open spec fn from_spec(e: DatabaseError) -> Self {
        CascadeError::DatabaseError(e)
    }
}

impl From<DhtOpConvertError> for CascadeError {
    fn from(e: DhtOpConvertError) -> (r: Self) {
        CascadeError::DhtOpConvertError(e)
    }
}

impl vstd::std_specs::convert::FromSpecImpl<DhtOpConvertError> for CascadeError {
    open spec fn obeys_from_spec() -> bool {
        true
    }

    open spec fn from_spec(e: DhtOpConvertError) -> Self {
        CascadeError::DhtOpConvertError(e)
    }
}

impl From<HoloHashError> for CascadeError {
    fn from(e: HoloHashError) -> (r: Self) {
        CascadeError::HoloHashError(e)
    }
}

impl vstd::std_specs::convert::FromSpecImpl<HoloHashError> for CascadeError {
    open spec fn obeys_from_spec() -> bool {
        true
    }

    open spec fn from_spec(e: HoloHashError) -> Self {
        CascadeError::HoloHashError(e)
    }
}

} // verus!
