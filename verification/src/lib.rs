//! A verified provenance ledger for physical goods.
//!
//! The ledger records the creation of *batches* of goods, an append-only,
//! globally numbered chain of custody *events* attached to each batch, and an
//! allowlist of identities authorized for privileged actions.  Records are
//! create-once: a batch, an event or an authorization record, once committed,
//! is never mutated or deleted.  The ledger state itself carries the owner
//! identity and two monotonic counters (the batch count and the next event
//! id), both incremented with an explicit overflow check.
//!
//! Every public operation validates its inputs, checks the derived record
//! identifier for occupancy, mutates the ledger, and reports a notification
//! value; each operation is all-or-nothing, and every error case is stated
//! exactly in the operation's contract.

pub mod address;
pub mod errors;
pub mod identity;
pub mod ledger;
pub mod records;
