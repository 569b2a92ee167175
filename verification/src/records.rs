//! The four record kinds of the ledger, and the notification values the
//! operations emit.
//!
//! `LedgerState` is the singleton; `Batch`, `BatchEvent` and
//! `UserAuthorization` are immutable once created.  Text fields carry a
//! persisted size budget, counted in UTF-8 bytes; a write that would exceed
//! its budget is refused with `StorageOverflow` before anything is mutated.

use vstd::prelude::*;
use crate::errors::SupplyChainError;
use crate::identity::Identity;

verus! {

/// Size budget, in UTF-8 bytes, of the key-like text fields: `batch_id`,
/// `product_name`, `sku`, `origin`, `actor` and `role`.
pub const MAX_KEY_TEXT_BYTES: usize = 100;

/// Size budget, in UTF-8 bytes, of reference text fields: notes, view
/// baselines and view images.
pub const MAX_REF_TEXT_BYTES: usize = 200;

/// Size budget, in UTF-8 bytes, of an event hash.
pub const MAX_HASH_TEXT_BYTES: usize = 64;

/// The length in bytes of a text value's UTF-8 encoding.
pub open spec fn text_byte_len(s: Seq<char>) -> nat {
    vstd::utf8::encode_utf8(s).len()
}

/// The ledger state singleton: the owner identity and the two monotonic
/// counters.
#[derive(Clone, Copy, Debug, PartialEq, Eq, Structural)]
pub struct ProgramState {
    /// The only identity allowed to create authorization records.
    pub owner: Identity,
    /// The number of successfully created batches.
    pub total_batches: u64,
    /// The id the next successfully logged event will receive; starts at 1.
    pub next_event_id: u64,
}

impl ProgramState {
    /// Issue an event id: return the current `next_event_id` and advance
    /// the counter by one.  A checked increment: at the counter's ceiling
    /// issuance is refused with `Overflow` and nothing changes — the
    /// counter never wraps, so an issued id is never reused.
    pub fn issue_event_id(&mut self) -> (r: Result<u64, SupplyChainError>)
        ensures
            old(self).next_event_id < u64::MAX ==> {
                &&& r == Ok::<u64, SupplyChainError>(old(self).next_event_id)
                &&& *final(self) == (ProgramState {
                    next_event_id: (old(self).next_event_id + 1) as u64,
                    ..*old(self)
                })
            },
            old(self).next_event_id == u64::MAX ==> {
                &&& r == Err::<u64, SupplyChainError>(SupplyChainError::Overflow)
                &&& *final(self) == *old(self)
            },
    {
        if self.next_event_id == u64::MAX {
            return Err(SupplyChainError::Overflow);
        }
        let id = self.next_event_id;
        self.next_event_id = self.next_event_id + 1;
        Ok(id)
    }

    /// Count one more created batch.  A checked increment with the same
    /// overflow policy as id issuance.
    pub fn increment_batch_count(&mut self) -> (r: Result<(), SupplyChainError>)
        ensures
            old(self).total_batches < u64::MAX ==> {
                &&& r == Ok::<(), SupplyChainError>(())
                &&& *final(self) == (ProgramState {
                    total_batches: (old(self).total_batches + 1) as u64,
                    ..*old(self)
                })
            },
            old(self).total_batches == u64::MAX ==> {
                &&& r == Err::<(), SupplyChainError>(SupplyChainError::Overflow)
                &&& *final(self) == *old(self)
            },
    {
        if self.total_batches == u64::MAX {
            return Err(SupplyChainError::Overflow);
        }
        self.total_batches = self.total_batches + 1;
        Ok(())
    }
}

/// A tracked lot of goods, identified by a caller-chosen natural key.
/// Immutable after creation.
#[derive(Clone, Debug, PartialEq, Eq)]
pub struct Batch {
    pub batch_id: String,
    pub product_name: String,
    pub sku: String,
    pub origin: String,
    pub first_view_baseline: String,
    pub second_view_baseline: String,
    pub creator: Identity,
    pub created_at: i64,
    /// Set when the record is committed; an event may only reference a batch
    /// whose flag is set.
    pub exists: bool,
}

/// A custody record attached to exactly one batch, globally numbered.
/// Immutable after creation.
#[derive(Clone, Debug, PartialEq, Eq)]
pub struct BatchEvent {
    /// Global monotonic id, issued by the ledger state; the first event of
    /// the ledger has id 1.
    pub id: u64,
    pub actor: String,
    pub role: String,
    pub note: String,
    pub first_view_image: String,
    pub second_view_image: String,
    pub event_hash: String,
    pub logged_by: Identity,
    pub timestamp: i64,
    /// The natural key of the owning batch.
    pub batch: String,
}

/// A boolean flag associated with an external identity, settable only by the
/// owner.  Immutable after creation.
#[derive(Clone, Copy, Debug, PartialEq, Eq, Structural)]
pub struct UserAuthorization {
    pub user: Identity,
    pub authorized: bool,
}

/// Notification reported by a successful batch creation.
#[derive(Clone, Debug, PartialEq, Eq)]
pub struct BatchCreated {
    pub batch_id: String,
    pub creator: Identity,
    pub timestamp: i64,
}

/// Notification reported by a successfully logged event.
#[derive(Clone, Debug, PartialEq, Eq)]
pub struct EventLogged {
    pub batch_id: String,
    pub event_id: u64,
    pub actor: String,
    pub role: String,
    pub logged_by: Identity,
    pub timestamp: i64,
}

/// Notification reported by a successful authorization write.
#[derive(Clone, Copy, Debug, PartialEq, Eq, Structural)]
pub struct UserAuthorized {
    pub user: Identity,
    pub authorized: bool,
}

} // verus!
