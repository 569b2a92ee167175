//! The error taxonomy of the ledger.
//!
//! Detection always precedes mutation: an operation that returns any of these
//! errors leaves the ledger exactly as it found it.

use vstd::prelude::*;

verus! {

/// Every way a ledger operation can fail.
///
/// - The `Empty*` variants are validation errors: a required text field was
///   empty.
/// - `DuplicateIdentifier` reports the re-creation of an already occupied
///   record identifier (the ledger state singleton, a batch, or an
///   authorization record).
/// - `BatchNotFound` reports an event logged against a batch identifier with
///   no existing record.
/// - `Unauthorized` reports a non-owner attempting the owner-gated operation.
/// - `StorageOverflow` reports a text field exceeding its persisted size
///   budget.
/// - `Overflow` reports a counter increment that would exceed the counter's
///   representable range; issuance is rejected, the counter never wraps.
#[derive(Clone, Copy, Debug, PartialEq, Eq, Structural)]
pub enum SupplyChainError {
    EmptyProductName,
    EmptyOrigin,
    EmptyActor,
    EmptyRole,
    EmptyNote,
    EmptyEventHash,
    BatchNotFound,
    Unauthorized,
    DuplicateIdentifier,
    StorageOverflow,
    Overflow,
}

} // verus!
