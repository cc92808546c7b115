//! Validation verdicts: the terminal status recorded for an operation when
//! it is integrated.

use vstd::prelude::*;

verus! {

/// The verdict of validating an operation. Assigned once, at the moment the
/// operation is promoted into the integrated store; immutable thereafter.
#[derive(Clone, Copy, Debug, PartialEq, Eq, Structural)]
pub enum ValidationStatus {
    /// The operation passed validation.
    Valid,
    /// The operation failed validation.
    Rejected,
    /// Validation was given up on; the operation will never be applied.
    Abandoned,
}

} // verus!
