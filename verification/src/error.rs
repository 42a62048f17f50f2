//! The failures that this library reports.

use vstd::prelude::*;

verus! {

/// Why an operation was refused. No failure is retried here: each one ends the
/// operation that met it.
#[derive(Debug, Clone, PartialEq, Eq)]
pub enum SwitchboardError {
    /// A record's type tag is not the one expected.
    RecordTypeMismatch,
    /// The request named by slot and parameter hash is not the stored one.
    RecordNotFound,
    /// An address does not follow from its seeds and bump.
    AddressDerivationFailure,
    /// The caller lacks the permission or the signature that the operation asks for.
    PermissionDenied,
    /// The enclave measurement is not on the queue's allow-list.
    StaleOrUnknownMeasurement,
    /// The function may not run yet.
    ScheduleNotElapsed,
    /// A required environment value is absent or unreadable; holds its name.
    EnvVariableMissing(String),
    /// Bytes could not be turned into a value, or a value into bytes.
    SerializationFailure,
    /// The record store could not be reached.
    NetworkFailure,
}

} // verus!
