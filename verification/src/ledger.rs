//! The ledger state machine.
//!
//! A [`Ledger`] holds the state singleton and the three create-once record
//! stores.  Every operation validates its inputs, checks the target record
//! identifier for occupancy, and only then mutates; on any error the ledger
//! is left exactly as it was.  The expected outcome of each operation is a
//! spec function (`*_check`) over the pre-state and the inputs, and each
//! operation's contract says: the operation fails with exactly the error the
//! check names, or, when the check clears, succeeds with exactly the stated
//! new state and notification.

use vstd::prelude::*;
use crate::address::{
    lemma_derive_injective, lemma_event_key_injective, spec_derive, spec_event_key, Namespace,
};
use crate::errors::SupplyChainError;
use crate::identity::{lemma_identity_bytes_injective, spec_identity_bytes, Identity};
use crate::records::{
    Batch, BatchCreated, BatchEvent, EventLogged, ProgramState, UserAuthorization,
    UserAuthorized, MAX_HASH_TEXT_BYTES, MAX_KEY_TEXT_BYTES, MAX_REF_TEXT_BYTES,
    text_byte_len,
};

verus! {

/// The ledger: the state singleton (absent until genesis) and the three
/// append-only record stores.  The fields are exposed for inspection and
/// for hosts that persist the stores; every operation requires and
/// preserves the invariant [`Ledger::wf`], which `new` establishes.
pub struct Ledger {
    /// The singleton; `None` until `initialize` has run.
    pub state: Option<ProgramState>,
    /// Batch records, in creation order, unique by `batch_id`.
    pub batches: Vec<Batch>,
    /// Custody events, in logging order; the event at position `i` has id
    /// `i + 1`.
    pub events: Vec<BatchEvent>,
    /// Authorization records, unique by identity.
    pub auths: Vec<UserAuthorization>,
}

/// Do the text fields of a batch fit their persisted size budgets?
pub open spec fn batch_texts_fit(
    batch_id: Seq<char>,
    product_name: Seq<char>,
    sku: Seq<char>,
    origin: Seq<char>,
    first_view_baseline: Seq<char>,
    second_view_baseline: Seq<char>,
) -> bool {
    &&& text_byte_len(batch_id) <= MAX_KEY_TEXT_BYTES
    &&& text_byte_len(product_name) <= MAX_KEY_TEXT_BYTES
    &&& text_byte_len(sku) <= MAX_KEY_TEXT_BYTES
    &&& text_byte_len(origin) <= MAX_KEY_TEXT_BYTES
    &&& text_byte_len(first_view_baseline) <= MAX_REF_TEXT_BYTES
    &&& text_byte_len(second_view_baseline) <= MAX_REF_TEXT_BYTES
}

/// Do the text fields of an event fit their persisted size budgets?
pub open spec fn event_texts_fit(
    actor: Seq<char>,
    role: Seq<char>,
    note: Seq<char>,
    first_view_image: Seq<char>,
    second_view_image: Seq<char>,
    event_hash: Seq<char>,
) -> bool {
    &&& text_byte_len(actor) <= MAX_KEY_TEXT_BYTES
    &&& text_byte_len(role) <= MAX_KEY_TEXT_BYTES
    &&& text_byte_len(note) <= MAX_REF_TEXT_BYTES
    &&& text_byte_len(first_view_image) <= MAX_REF_TEXT_BYTES
    &&& text_byte_len(second_view_image) <= MAX_REF_TEXT_BYTES
    &&& text_byte_len(event_hash) <= MAX_HASH_TEXT_BYTES
}

/// The outcome `create_batch` owes on the given pre-state and inputs: the
/// exact error it must return, or `None` when it must succeed.  Checks run
/// in order: field validation, then identifier occupancy, then the
/// persistence budgets, then the counter increment.
pub open spec fn create_batch_check(
    pre: Ledger,
    batch_id: Seq<char>,
    product_name: Seq<char>,
    sku: Seq<char>,
    origin: Seq<char>,
    first_view_baseline: Seq<char>,
    second_view_baseline: Seq<char>,
) -> Option<SupplyChainError> {
    if product_name.len() == 0 {
        Some(SupplyChainError::EmptyProductName)
    } else if origin.len() == 0 {
        Some(SupplyChainError::EmptyOrigin)
    } else if pre.has_batch(batch_id) {
        Some(SupplyChainError::DuplicateIdentifier)
    } else if !batch_texts_fit(
        batch_id,
        product_name,
        sku,
        origin,
        first_view_baseline,
        second_view_baseline,
    ) {
        Some(SupplyChainError::StorageOverflow)
    } else if pre.spec_total_batches() == u64::MAX {
        Some(SupplyChainError::Overflow)
    } else {
        None
    }
}

/// The outcome `log_event` owes on the given pre-state and inputs: the
/// exact error it must return, or `None` when it must succeed.  Checks run
/// in order: field validation, then resolution of the referenced batch,
/// then id issuance, then the persistence budgets.
pub open spec fn log_event_check(
    pre: Ledger,
    batch_ref: Seq<char>,
    actor: Seq<char>,
    role: Seq<char>,
    note: Seq<char>,
    first_view_image: Seq<char>,
    second_view_image: Seq<char>,
    event_hash: Seq<char>,
) -> Option<SupplyChainError> {
    if actor.len() == 0 {
        Some(SupplyChainError::EmptyActor)
    } else if role.len() == 0 {
        Some(SupplyChainError::EmptyRole)
    } else if note.len() == 0 {
        Some(SupplyChainError::EmptyNote)
    } else if event_hash.len() == 0 {
        Some(SupplyChainError::EmptyEventHash)
    } else if !pre.has_batch(batch_ref) {
        Some(SupplyChainError::BatchNotFound)
    } else if pre.spec_next_event_id() == u64::MAX {
        Some(SupplyChainError::Overflow)
    } else if !event_texts_fit(
        actor,
        role,
        note,
        first_view_image,
        second_view_image,
        event_hash,
    ) {
        Some(SupplyChainError::StorageOverflow)
    } else {
        None
    }
}

/// The outcome `set_user_authorization` owes: only the ledger owner may
/// write authorization records, and only one record may ever exist per
/// identity (creation-only; the derivation scheme offers no update path).
pub open spec fn set_user_authorization_check(
    pre: Ledger,
    signer: Identity,
    user: Identity,
) -> Option<SupplyChainError> {
    if signer != pre.spec_owner() {
        Some(SupplyChainError::Unauthorized)
    } else if pre.has_auth(user) {
        Some(SupplyChainError::DuplicateIdentifier)
    } else {
        None
    }
}

/// An unused batch id is accepted: as long as no batch on the ledger
/// carries `batch_id`, the fields pass validation and fit their budgets,
/// and the batch counter is below its ceiling, `create_batch` owes success
/// — and its contract then appends exactly one batch record and adds
/// exactly one to `total_batches`.
pub proof fn lemma_unused_batch_id_accepted(
    pre: Ledger,
    batch_id: Seq<char>,
    product_name: Seq<char>,
    sku: Seq<char>,
    origin: Seq<char>,
    first_view_baseline: Seq<char>,
    second_view_baseline: Seq<char>,
)
    requires
        !pre.has_batch(batch_id),
        product_name.len() > 0,
        origin.len() > 0,
        batch_texts_fit(
            batch_id,
            product_name,
            sku,
            origin,
            first_view_baseline,
            second_view_baseline,
        ),
        pre.spec_total_batches() < u64::MAX,
    ensures
        create_batch_check(
            pre,
            batch_id,
            product_name,
            sku,
            origin,
            first_view_baseline,
            second_view_baseline,
        ) is None,
{
}

/// A successful creation occupies its batch id: once the new record is
/// appended, the ledger holds a batch carrying that id.
pub proof fn lemma_pushed_batch_occupies(pre: Ledger, post: Ledger, b: Batch)
    requires
        post.batches@ == pre.batches@.push(b),
    ensures
        post.has_batch(b.batch_id@),
{
    assert(post.batches@[pre.batches@.len() as int].batch_id@ == b.batch_id@);
}

/// A batch id can be created at most once: a creation attempt against an
/// occupied id — whatever its other fields, provided they pass validation —
/// is owed exactly `DuplicateIdentifier`, on which `create_batch` leaves
/// the ledger, `total_batches` included, unchanged.
pub proof fn lemma_duplicate_batch_id_refused(
    pre: Ledger,
    batch_id: Seq<char>,
    product_name: Seq<char>,
    sku: Seq<char>,
    origin: Seq<char>,
    first_view_baseline: Seq<char>,
    second_view_baseline: Seq<char>,
)
    requires
        pre.has_batch(batch_id),
        product_name.len() > 0,
        origin.len() > 0,
    ensures
        create_batch_check(
            pre,
            batch_id,
            product_name,
            sku,
            origin,
            first_view_baseline,
            second_view_baseline,
        ) == Some(SupplyChainError::DuplicateIdentifier),
{
}

/// Event ids are issued densely, in logging order: on a well-formed ledger
/// the record at position `i` carries id `i + 1`, so after `n` successful
/// logs the ids are exactly `1, 2, ..., n` with no gap and no repeat, and
/// the next id to be issued is `n + 1`.
pub proof fn lemma_event_ids_dense(l: Ledger)
    requires
        l.wf(),
    ensures
        forall|i: int| 0 <= i < l.events@.len() ==> (#[trigger] l.events@[i]).id == i + 1,
        forall|i: int, j: int|
            #![trigger l.events@[i], l.events@[j]]
            0 <= i < j < l.events@.len() ==> l.events@[i].id != l.events@[j].id,
        l.is_initialized() ==> l.spec_next_event_id() == l.events@.len() + 1,
{
}

/// Logging against a batch id that no record carries is owed exactly
/// `BatchNotFound` — on which `log_event` leaves the ledger,
/// `next_event_id` included, unchanged.
pub proof fn lemma_missing_batch_refused(
    pre: Ledger,
    batch_ref: Seq<char>,
    actor: Seq<char>,
    role: Seq<char>,
    note: Seq<char>,
    first_view_image: Seq<char>,
    second_view_image: Seq<char>,
    event_hash: Seq<char>,
)
    requires
        !pre.has_batch(batch_ref),
        actor.len() > 0,
        role.len() > 0,
        note.len() > 0,
        event_hash.len() > 0,
    ensures
        log_event_check(
            pre,
            batch_ref,
            actor,
            role,
            note,
            first_view_image,
            second_view_image,
            event_hash,
        ) == Some(SupplyChainError::BatchNotFound),
{
}

/// An empty product name or an empty origin is owed the matching
/// validation error — on which `create_batch` leaves the ledger,
/// `total_batches` included, unchanged.
pub proof fn lemma_empty_batch_fields_refused(
    pre: Ledger,
    batch_id: Seq<char>,
    product_name: Seq<char>,
    sku: Seq<char>,
    origin: Seq<char>,
    first_view_baseline: Seq<char>,
    second_view_baseline: Seq<char>,
)
    requires
        product_name.len() == 0 || origin.len() == 0,
    ensures
        create_batch_check(
            pre,
            batch_id,
            product_name,
            sku,
            origin,
            first_view_baseline,
            second_view_baseline,
        ) == if product_name.len() == 0 {
            Some(SupplyChainError::EmptyProductName)
        } else {
            Some(SupplyChainError::EmptyOrigin)
        },
{
}

/// Only the owner writes authorization records: any other signer is owed
/// exactly `Unauthorized` — on which `set_user_authorization` creates no
/// record and leaves the ledger unchanged.
pub proof fn lemma_non_owner_refused(pre: Ledger, signer: Identity, user: Identity)
    requires
        signer != pre.spec_owner(),
    ensures
        set_user_authorization_check(pre, signer, user) == Some(SupplyChainError::Unauthorized),
{
}

/// `total_batches` counts exactly the successfully created batches: every
/// successful creation appends one record and adds one to the counter,
/// every failed attempt changes nothing, and on a well-formed ledger the
/// counter always equals the number of batch records.
pub proof fn lemma_total_batches_counts_batches(l: Ledger)
    requires
        l.wf(),
        l.is_initialized(),
    ensures
        l.spec_total_batches() == l.batches@.len(),
{
}

/// The derived identifier of a batch record: namespace `Batch`, natural
/// key the UTF-8 bytes of its id.
pub open spec fn spec_batch_identifier(b: Batch) -> Seq<u8> {
    spec_derive(Namespace::Batch, vstd::utf8::encode_utf8(b.batch_id@))
}

/// The derived identifier of an event record: namespace `Event`, natural
/// key its owning batch's identifier followed by its id in little-endian
/// bytes.
pub open spec fn spec_event_identifier(ev: BatchEvent) -> Seq<u8> {
    spec_derive(
        Namespace::Event,
        spec_event_key(
            spec_derive(Namespace::Batch, vstd::utf8::encode_utf8(ev.batch@)),
            ev.id,
        ),
    )
}

/// The derived identifier of an authorization record: namespace
/// `UserAuth`, natural key the identity's 32 bytes.
pub open spec fn spec_auth_identifier(a: UserAuthorization) -> Seq<u8> {
    spec_derive(Namespace::UserAuth, spec_identity_bytes(a.user))
}

/// At most one live batch record per identifier: on a well-formed ledger,
/// distinct batch records always derive distinct identifiers.
pub proof fn lemma_batch_identifiers_distinct(l: Ledger, i: int, j: int)
    requires
        l.wf(),
        0 <= i < j < l.batches@.len(),
    ensures
        spec_batch_identifier(l.batches@[i]) != spec_batch_identifier(l.batches@[j]),
{
    let a = l.batches@[i];
    let b = l.batches@[j];
    assert(a.batch_id@ != b.batch_id@);
    if spec_batch_identifier(a) == spec_batch_identifier(b) {
        lemma_derive_injective(
            Namespace::Batch,
            vstd::utf8::encode_utf8(a.batch_id@),
            Namespace::Batch,
            vstd::utf8::encode_utf8(b.batch_id@),
        );
        vstd::utf8::encode_utf8_decode_utf8(a.batch_id@);
        vstd::utf8::encode_utf8_decode_utf8(b.batch_id@);
        assert(false);
    }
}

/// Monotonic ids keep event identifiers fresh: on a well-formed ledger,
/// distinct event records always derive distinct identifiers — even two
/// events of the same batch.
pub proof fn lemma_event_identifiers_distinct(l: Ledger, i: int, j: int)
    requires
        l.wf(),
        0 <= i < j < l.events@.len(),
    ensures
        spec_event_identifier(l.events@[i]) != spec_event_identifier(l.events@[j]),
{
    let a = l.events@[i];
    let b = l.events@[j];
    assert(a.id == i + 1 && b.id == j + 1);
    if spec_event_identifier(a) == spec_event_identifier(b) {
        let ka = spec_event_key(
            spec_derive(Namespace::Batch, vstd::utf8::encode_utf8(a.batch@)),
            a.id,
        );
        let kb = spec_event_key(
            spec_derive(Namespace::Batch, vstd::utf8::encode_utf8(b.batch@)),
            b.id,
        );
        lemma_derive_injective(Namespace::Event, ka, Namespace::Event, kb);
        lemma_event_key_injective(
            spec_derive(Namespace::Batch, vstd::utf8::encode_utf8(a.batch@)),
            a.id,
            spec_derive(Namespace::Batch, vstd::utf8::encode_utf8(b.batch@)),
            b.id,
        );
        assert(false);
    }
}

/// At most one authorization record per identity: on a well-formed
/// ledger, distinct authorization records always derive distinct
/// identifiers.
pub proof fn lemma_auth_identifiers_distinct(l: Ledger, i: int, j: int)
    requires
        l.wf(),
        0 <= i < j < l.auths@.len(),
    ensures
        spec_auth_identifier(l.auths@[i]) != spec_auth_identifier(l.auths@[j]),
{
    let a = l.auths@[i];
    let b = l.auths@[j];
    assert(a.user != b.user);
    if spec_auth_identifier(a) == spec_auth_identifier(b) {
        lemma_derive_injective(
            Namespace::UserAuth,
            spec_identity_bytes(a.user),
            Namespace::UserAuth,
            spec_identity_bytes(b.user),
        );
        lemma_identity_bytes_injective(a.user, b.user);
        assert(false);
    }
}

/// Occupancy by natural key coincides with occupancy by derived
/// identifier: the ledger holds a batch whose id text is `batch_id` iff it
/// holds a batch whose derived identifier is the one `batch_id` derives.
/// The operations may therefore check occupancy by comparing natural keys,
/// and the store still behaves as create-if-absent on derived identifiers.
pub proof fn lemma_batch_occupancy_by_identifier(l: Ledger, batch_id: Seq<char>)
    ensures
        l.has_batch(batch_id) <==> exists|i: int|
            0 <= i < l.batches@.len() && #[trigger] spec_batch_identifier(l.batches@[i])
                == spec_derive(Namespace::Batch, vstd::utf8::encode_utf8(batch_id)),
{
    if l.has_batch(batch_id) {
        let i = choose|i: int|
            0 <= i < l.batches@.len() && #[trigger] l.batches@[i].batch_id@ == batch_id;
        assert(spec_batch_identifier(l.batches@[i]) == spec_derive(
            Namespace::Batch,
            vstd::utf8::encode_utf8(batch_id),
        ));
    }
    if exists|i: int|
        0 <= i < l.batches@.len() && #[trigger] spec_batch_identifier(l.batches@[i])
            == spec_derive(Namespace::Batch, vstd::utf8::encode_utf8(batch_id)) {
        let i = choose|i: int|
            0 <= i < l.batches@.len() && #[trigger] spec_batch_identifier(l.batches@[i])
                == spec_derive(Namespace::Batch, vstd::utf8::encode_utf8(batch_id));
        lemma_derive_injective(
            Namespace::Batch,
            vstd::utf8::encode_utf8(l.batches@[i].batch_id@),
            Namespace::Batch,
            vstd::utf8::encode_utf8(batch_id),
        );
        vstd::utf8::encode_utf8_decode_utf8(l.batches@[i].batch_id@);
        vstd::utf8::encode_utf8_decode_utf8(batch_id);
        assert(l.batches@[i].batch_id@ == batch_id);
    }
}

/// Occupancy of authorization records by identity coincides with
/// occupancy by derived identifier, in the same way as for batches.
pub proof fn lemma_auth_occupancy_by_identifier(l: Ledger, user: Identity)
    ensures
        l.has_auth(user) <==> exists|i: int|
            0 <= i < l.auths@.len() && #[trigger] spec_auth_identifier(l.auths@[i])
                == spec_derive(Namespace::UserAuth, spec_identity_bytes(user)),
{
    if l.has_auth(user) {
        let i = choose|i: int| 0 <= i < l.auths@.len() && #[trigger] l.auths@[i].user == user;
        assert(spec_auth_identifier(l.auths@[i]) == spec_derive(
            Namespace::UserAuth,
            spec_identity_bytes(user),
        ));
    }
    if exists|i: int|
        0 <= i < l.auths@.len() && #[trigger] spec_auth_identifier(l.auths@[i]) == spec_derive(
            Namespace::UserAuth,
            spec_identity_bytes(user),
        ) {
        let i = choose|i: int|
            0 <= i < l.auths@.len() && #[trigger] spec_auth_identifier(l.auths@[i])
                == spec_derive(Namespace::UserAuth, spec_identity_bytes(user));
        lemma_derive_injective(
            Namespace::UserAuth,
            spec_identity_bytes(l.auths@[i].user),
            Namespace::UserAuth,
            spec_identity_bytes(user),
        );
        lemma_identity_bytes_injective(l.auths@[i].user, user);
        assert(l.auths@[i].user == user);
    }
}

/// The persisted size of a text field, in UTF-8 bytes.
fn text_len(s: &String) -> (n: usize)
    ensures
        n == text_byte_len(s@),
{
    s.as_str().as_bytes().len()
}

impl Ledger {
    /// Has genesis run?
    pub open spec fn is_initialized(self) -> bool {
        self.state is Some
    }

    /// The owner identity recorded at genesis.
    pub open spec fn spec_owner(self) -> Identity {
        self.state->Some_0.owner
    }

    /// The number of successfully created batches.
    pub open spec fn spec_total_batches(self) -> u64 {
        self.state->Some_0.total_batches
    }

    /// The id the next successfully logged event will receive.
    pub open spec fn spec_next_event_id(self) -> u64 {
        self.state->Some_0.next_event_id
    }

    /// Is the batch identifier derived from `batch_id` occupied?
    pub open spec fn has_batch(self, batch_id: Seq<char>) -> bool {
        exists|i: int|
            0 <= i < self.batches@.len() && #[trigger] self.batches@[i].batch_id@ == batch_id
    }

    /// Is the authorization identifier derived from `user` occupied?
    pub open spec fn has_auth(self, user: Identity) -> bool {
        exists|i: int| 0 <= i < self.auths@.len() && #[trigger] self.auths@[i].user == user
    }

    /// The ledger's invariant.  It holds of the empty ledger and is
    /// preserved by every operation:
    ///
    /// - batch ids are unique, every committed batch is marked existing, and
    ///   its required fields are non-empty and within budget;
    /// - the event at position `i` has id `i + 1` (ids are exactly
    ///   `1..=events.len()`, in logging order), its required fields are
    ///   non-empty and within budget, and it references a committed batch;
    /// - authorization records are unique by identity;
    /// - before genesis the stores are empty; after it, `total_batches`
    ///   equals the number of batch records and `next_event_id` exceeds the
    ///   number of events by exactly one.
    pub open spec fn wf(self) -> bool {
        &&& forall|i: int, j: int|
            #![trigger self.batches@[i], self.batches@[j]]
            0 <= i < j < self.batches@.len() ==> self.batches@[i].batch_id@
                != self.batches@[j].batch_id@
        &&& forall|i: int|
            0 <= i < self.batches@.len() ==> (#[trigger] self.batches@[i]).exists
                && self.batches@[i].product_name@.len() > 0 && self.batches@[i].origin@.len() > 0
                && batch_texts_fit(
                self.batches@[i].batch_id@,
                self.batches@[i].product_name@,
                self.batches@[i].sku@,
                self.batches@[i].origin@,
                self.batches@[i].first_view_baseline@,
                self.batches@[i].second_view_baseline@,
            )
        &&& forall|i: int|
            0 <= i < self.events@.len() ==> (#[trigger] self.events@[i]).id == i + 1
                && self.events@[i].actor@.len() > 0 && self.events@[i].role@.len() > 0
                && self.events@[i].note@.len() > 0 && self.events@[i].event_hash@.len() > 0
                && event_texts_fit(
                self.events@[i].actor@,
                self.events@[i].role@,
                self.events@[i].note@,
                self.events@[i].first_view_image@,
                self.events@[i].second_view_image@,
                self.events@[i].event_hash@,
            ) && self.has_batch(self.events@[i].batch@)
        &&& forall|i: int, j: int|
            #![trigger self.auths@[i], self.auths@[j]]
            0 <= i < j < self.auths@.len() ==> self.auths@[i].user != self.auths@[j].user
        &&& match self.state {
            Some(st) => st.total_batches == self.batches@.len() && st.next_event_id
                == self.events@.len() + 1,
            None => self.batches@.len() == 0 && self.events@.len() == 0 && self.auths@.len()
                == 0,
        }
    }

    /// The empty, uninitialized ledger.
    pub fn new() -> (l: Ledger)
        ensures
            l.wf(),
            !l.is_initialized(),
            l.batches@ == Seq::<Batch>::empty(),
            l.events@ == Seq::<BatchEvent>::empty(),
            l.auths@ == Seq::<UserAuthorization>::empty(),
    {
        Ledger { state: None, batches: Vec::new(), events: Vec::new(), auths: Vec::new() }
    }

    /// Genesis: create the state singleton with both counters at their
    /// starting values.  Fails with `DuplicateIdentifier` if the singleton
    /// already exists, and then changes nothing.
    pub fn initialize(&mut self, owner: Identity) -> (r: Result<(), SupplyChainError>)
        requires
            old(self).wf(),
        ensures
            final(self).wf(),
            old(self).is_initialized() ==> {
                &&& r == Err::<(), SupplyChainError>(SupplyChainError::DuplicateIdentifier)
                &&& *final(self) == *old(self)
            },
            !old(self).is_initialized() ==> {
                &&& r == Ok::<(), SupplyChainError>(())
                &&& final(self).state == Some(
                    (ProgramState { owner, total_batches: 0, next_event_id: 1 }),
                )
                &&& final(self).batches@ == old(self).batches@
                &&& final(self).events@ == old(self).events@
                &&& final(self).auths@ == old(self).auths@
            },
    {
        if self.state.is_some() {
            return Err(SupplyChainError::DuplicateIdentifier);
        }
        self.state = Some(ProgramState { owner, total_batches: 0, next_event_id: 1 });
        Ok(())
    }

    /// Create a batch: validate `product_name` and `origin`, check the
    /// identifier derived from `batch_id` for occupancy, check the
    /// persistence budgets, persist the immutable record with
    /// `exists = true` and `created_at = now`, increment `total_batches`
    /// (checked, never wrapping), and report the `BatchCreated`
    /// notification.  On any error — named exactly by
    /// [`create_batch_check`] — the ledger is unchanged.
    #[verifier::rlimit(50)]
    pub fn create_batch(
        &mut self,
        batch_id: String,
        product_name: String,
        sku: String,
        origin: String,
        first_view_baseline: String,
        second_view_baseline: String,
        creator: Identity,
        now: i64,
    ) -> (r: Result<BatchCreated, SupplyChainError>)
        requires
            old(self).wf(),
            old(self).is_initialized(),
        ensures
            final(self).wf(),
            final(self).is_initialized(),
            ({
                let check = create_batch_check(
                    *old(self),
                    batch_id@,
                    product_name@,
                    sku@,
                    origin@,
                    first_view_baseline@,
                    second_view_baseline@,
                );
                match check {
                    Some(e) => {
                        &&& r == Err::<BatchCreated, SupplyChainError>(e)
                        &&& *final(self) == *old(self)
                    },
                    None => {
                        &&& r == Ok::<BatchCreated, SupplyChainError>(
                            (BatchCreated { batch_id, creator, timestamp: now }),
                        )
                        &&& final(self).batches@ == old(self).batches@.push(
                            (Batch {
                                batch_id,
                                product_name,
                                sku,
                                origin,
                                first_view_baseline,
                                second_view_baseline,
                                creator,
                                created_at: now,
                                exists: true,
                            }),
                        )
                        &&& final(self).events@ == old(self).events@
                        &&& final(self).auths@ == old(self).auths@
                        &&& final(self).state == Some(
                            (ProgramState {
                                owner: old(self).spec_owner(),
                                total_batches: (old(self).spec_total_batches() + 1) as u64,
                                next_event_id: old(self).spec_next_event_id(),
                            }),
                        )
                    },
                }
            }),
    {
        if product_name.as_str().is_empty() {
            return Err(SupplyChainError::EmptyProductName);
        }
        if origin.as_str().is_empty() {
            return Err(SupplyChainError::EmptyOrigin);
        }
        if self.find_batch(&batch_id).is_some() {
            return Err(SupplyChainError::DuplicateIdentifier);
        }
        let fits = text_len(&batch_id) <= MAX_KEY_TEXT_BYTES && text_len(&product_name)
            <= MAX_KEY_TEXT_BYTES && text_len(&sku) <= MAX_KEY_TEXT_BYTES && text_len(&origin)
            <= MAX_KEY_TEXT_BYTES && text_len(&first_view_baseline) <= MAX_REF_TEXT_BYTES
            && text_len(&second_view_baseline) <= MAX_REF_TEXT_BYTES;
        if !fits {
            return Err(SupplyChainError::StorageOverflow);
        }
        let mut st = self.state.unwrap();
        match st.increment_batch_count() {
            Ok(()) => {},
            Err(e) => {
                return Err(e);
            },
        }
        let created = BatchCreated { batch_id: batch_id.clone(), creator, timestamp: now };
        let batch = Batch {
            batch_id,
            product_name,
            sku,
            origin,
            first_view_baseline,
            second_view_baseline,
            creator,
            created_at: now,
            exists: true,
        };
        self.batches.push(batch);
        self.state = Some(st);
        proof {
            let pre = *old(self);
            let post = *self;
            assert forall|i: int, j: int|
                #![trigger post.batches@[i], post.batches@[j]]
                0 <= i < j < post.batches@.len() implies post.batches@[i].batch_id@
                != post.batches@[j].batch_id@ by {
                assert(post.batches@[i] == pre.batches@[i]);
                if j < pre.batches@.len() {
                    assert(post.batches@[j] == pre.batches@[j]);
                } else {
                    assert(pre.batches@[i].batch_id@ != batch_id@);
                }
            }
            assert forall|i: int| 0 <= i < post.events@.len() implies post.has_batch(
                (#[trigger] post.events@[i]).batch@,
            ) by {
                assert(pre.events@[i] == post.events@[i]);
                assert(pre.has_batch(pre.events@[i].batch@));
                let j = choose|j: int|
                    0 <= j < pre.batches@.len() && #[trigger] pre.batches@[j].batch_id@
                        == pre.events@[i].batch@;
                assert(post.batches@[j].batch_id@ == post.events@[i].batch@);
            }
        }
        Ok(created)
    }

    /// Log a custody event: validate `actor`, `role`, `note` and
    /// `event_hash`, resolve the referenced batch (every committed batch
    /// carries `exists = true`, by the invariant), issue the next global
    /// event id (checked, never wrapping), check the persistence budgets,
    /// persist the immutable record with `timestamp = now`, and report the
    /// `EventLogged` notification.  Monotonic ids make the derived event
    /// identifier fresh by construction, so no occupancy check is needed.
    /// On any error — named exactly by [`log_event_check`] — the ledger is
    /// unchanged.
    #[verifier::rlimit(50)]
    pub fn log_event(
        &mut self,
        batch_ref: &String,
        actor: String,
        role: String,
        note: String,
        first_view_image: String,
        second_view_image: String,
        event_hash: String,
        logger: Identity,
        now: i64,
    ) -> (r: Result<EventLogged, SupplyChainError>)
        requires
            old(self).wf(),
            old(self).is_initialized(),
        ensures
            final(self).wf(),
            final(self).is_initialized(),
            ({
                let check = log_event_check(
                    *old(self),
                    batch_ref@,
                    actor@,
                    role@,
                    note@,
                    first_view_image@,
                    second_view_image@,
                    event_hash@,
                );
                match check {
                    Some(e) => {
                        &&& r == Err::<EventLogged, SupplyChainError>(e)
                        &&& *final(self) == *old(self)
                    },
                    None => {
                        &&& r == Ok::<EventLogged, SupplyChainError>(
                            (EventLogged {
                                batch_id: *batch_ref,
                                event_id: old(self).spec_next_event_id(),
                                actor,
                                role,
                                logged_by: logger,
                                timestamp: now,
                            }),
                        )
                        &&& final(self).events@ == old(self).events@.push(
                            (BatchEvent {
                                id: old(self).spec_next_event_id(),
                                actor,
                                role,
                                note,
                                first_view_image,
                                second_view_image,
                                event_hash,
                                logged_by: logger,
                                timestamp: now,
                                batch: *batch_ref,
                            }),
                        )
                        &&& final(self).batches@ == old(self).batches@
                        &&& final(self).auths@ == old(self).auths@
                        &&& final(self).state == Some(
                            (ProgramState {
                                owner: old(self).spec_owner(),
                                total_batches: old(self).spec_total_batches(),
                                next_event_id: (old(self).spec_next_event_id() + 1) as u64,
                            }),
                        )
                    },
                }
            }),
    {
        if actor.as_str().is_empty() {
            return Err(SupplyChainError::EmptyActor);
        }
        if role.as_str().is_empty() {
            return Err(SupplyChainError::EmptyRole);
        }
        if note.as_str().is_empty() {
            return Err(SupplyChainError::EmptyNote);
        }
        if event_hash.as_str().is_empty() {
            return Err(SupplyChainError::EmptyEventHash);
        }
        let found = self.find_batch(batch_ref);
        if found.is_none() {
            return Err(SupplyChainError::BatchNotFound);
        }
        let ghost at = found->Some_0 as int;
        let mut st = self.state.unwrap();
        let event_id = match st.issue_event_id() {
            Ok(id) => id,
            Err(e) => {
                return Err(e);
            },
        };
        let fits = text_len(&actor) <= MAX_KEY_TEXT_BYTES && text_len(&role) <= MAX_KEY_TEXT_BYTES
            && text_len(&note) <= MAX_REF_TEXT_BYTES && text_len(&first_view_image)
            <= MAX_REF_TEXT_BYTES && text_len(&second_view_image) <= MAX_REF_TEXT_BYTES
            && text_len(&event_hash) <= MAX_HASH_TEXT_BYTES;
        if !fits {
            return Err(SupplyChainError::StorageOverflow);
        }
        let logged = EventLogged {
            batch_id: batch_ref.clone(),
            event_id,
            actor: actor.clone(),
            role: role.clone(),
            logged_by: logger,
            timestamp: now,
        };
        let event = BatchEvent {
            id: event_id,
            actor,
            role,
            note,
            first_view_image,
            second_view_image,
            event_hash,
            logged_by: logger,
            timestamp: now,
            batch: batch_ref.clone(),
        };
        self.events.push(event);
        self.state = Some(st);
        proof {
            let pre = *old(self);
            let post = *self;
            assert forall|i: int| 0 <= i < post.events@.len() implies post.has_batch(
                (#[trigger] post.events@[i]).batch@,
            ) by {
                if i < pre.events@.len() {
                    assert(pre.events@[i] == post.events@[i]);
                    assert(pre.has_batch(pre.events@[i].batch@));
                    let j = choose|j: int|
                        0 <= j < pre.batches@.len() && #[trigger] pre.batches@[j].batch_id@
                            == pre.events@[i].batch@;
                    assert(post.batches@[j].batch_id@ == post.events@[i].batch@);
                } else {
                    assert(post.batches@[at].batch_id@ == post.events@[i].batch@);
                }
            }
        }
        Ok(logged)
    }

    /// Write an authorization record: require the signer to be the owner
    /// recorded at genesis, check the identifier derived from `user` for
    /// occupancy, persist the immutable `{user, authorized}` record, and
    /// report the `UserAuthorized` notification.  On any error — named
    /// exactly by [`set_user_authorization_check`] — the ledger is
    /// unchanged.
    pub fn set_user_authorization(
        &mut self,
        signer: Identity,
        user: Identity,
        authorized: bool,
    ) -> (r: Result<UserAuthorized, SupplyChainError>)
        requires
            old(self).wf(),
            old(self).is_initialized(),
        ensures
            final(self).wf(),
            final(self).is_initialized(),
            ({
                let check = set_user_authorization_check(*old(self), signer, user);
                match check {
                    Some(e) => {
                        &&& r == Err::<UserAuthorized, SupplyChainError>(e)
                        &&& *final(self) == *old(self)
                    },
                    None => {
                        &&& r == Ok::<UserAuthorized, SupplyChainError>(
                            (UserAuthorized { user, authorized }),
                        )
                        &&& final(self).auths@ == old(self).auths@.push(
                            (UserAuthorization { user, authorized }),
                        )
                        &&& final(self).batches@ == old(self).batches@
                        &&& final(self).events@ == old(self).events@
                        &&& final(self).state == old(self).state
                    },
                }
            }),
    {
        let st = self.state.unwrap();
        if !(signer == st.owner) {
            return Err(SupplyChainError::Unauthorized);
        }
        if self.find_auth(user).is_some() {
            return Err(SupplyChainError::DuplicateIdentifier);
        }
        self.auths.push(UserAuthorization { user, authorized });
        proof {
            let pre = *old(self);
            let post = *self;
            assert forall|i: int| 0 <= i < post.events@.len() implies post.has_batch(
                (#[trigger] post.events@[i]).batch@,
            ) by {
                assert(pre.events@[i] == post.events@[i]);
                assert(pre.has_batch(pre.events@[i].batch@));
                let j = choose|j: int|
                    0 <= j < pre.batches@.len() && #[trigger] pre.batches@[j].batch_id@
                        == pre.events@[i].batch@;
                assert(post.batches@[j].batch_id@ == post.events@[i].batch@);
            }
            assert forall|i: int, j: int|
                #![trigger post.auths@[i], post.auths@[j]]
                0 <= i < j < post.auths@.len() implies post.auths@[i].user != post.auths@[j].user by {
                assert(post.auths@[i] == pre.auths@[i]);
                if j < pre.auths@.len() {
                    assert(post.auths@[j] == pre.auths@[j]);
                } else {
                    assert(pre.auths@[i].user != user);
                }
            }
        }
        Ok(UserAuthorized { user, authorized })
    }

    /// The owner identity recorded at genesis.
    pub fn owner(&self) -> (o: Identity)
        requires
            self.is_initialized(),
        ensures
            o == self.spec_owner(),
    {
        self.state.unwrap().owner
    }

    /// The number of successfully created batches.
    pub fn total_batches(&self) -> (n: u64)
        requires
            self.is_initialized(),
        ensures
            n == self.spec_total_batches(),
    {
        self.state.unwrap().total_batches
    }

    /// The id the next successfully logged event will receive.
    pub fn next_event_id(&self) -> (n: u64)
        requires
            self.is_initialized(),
        ensures
            n == self.spec_next_event_id(),
    {
        self.state.unwrap().next_event_id
    }

    /// Read-only lookup of the batch record carrying `batch_id`.
    pub fn get_batch(&self, batch_id: &String) -> (r: Option<&Batch>)
        ensures
            match r {
                Some(b) => self.has_batch(batch_id@) && b.batch_id@ == batch_id@ && exists|i: int|
                    0 <= i < self.batches@.len() && self.batches@[i] == *b,
                None => !self.has_batch(batch_id@),
            },
    {
        match self.find_batch(batch_id) {
            Some(i) => {
                proof {
                    assert(self.batches@[i as int].batch_id@ == batch_id@);
                }
                Some(&self.batches[i])
            },
            None => None,
        }
    }

    /// Read-only lookup of the event record carrying `event_id`.  On a
    /// well-formed ledger the record with id `k` sits at position `k - 1`.
    pub fn get_event(&self, event_id: u64) -> (r: Option<&BatchEvent>)
        requires
            self.wf(),
        ensures
            match r {
                Some(e) => {
                    &&& 1 <= event_id <= self.events@.len()
                    &&& *e == self.events@[event_id - 1]
                    &&& e.id == event_id
                },
                None => event_id < 1 || event_id > self.events@.len(),
            },
    {
        if 1 <= event_id && event_id <= self.events.len() as u64 {
            Some(&self.events[(event_id - 1) as usize])
        } else {
            None
        }
    }

    /// Read-only lookup of the authorization flag recorded for `user`.
    pub fn get_authorization(&self, user: Identity) -> (r: Option<bool>)
        ensures
            match r {
                Some(a) => self.has_auth(user) && exists|i: int|
                    0 <= i < self.auths@.len() && #[trigger] self.auths@[i] == (UserAuthorization {
                        user,
                        authorized: a,
                    }),
                None => !self.has_auth(user),
            },
    {
        match self.find_auth(user) {
            Some(i) => {
                proof {
                    assert(self.auths@[i as int] == (UserAuthorization {
                        user,
                        authorized: self.auths@[i as int].authorized,
                    }));
                }
                Some(self.auths[i].authorized)
            },
            None => None,
        }
    }

    /// Find the position of the batch with the given id, if any.
    fn find_batch(&self, batch_id: &String) -> (r: Option<usize>)
        ensures
            match r {
                Some(i) => i < self.batches@.len() && self.batches@[i as int].batch_id@
                    == batch_id@,
                None => !self.has_batch(batch_id@),
            },
    {
        let mut i: usize = 0;
        while i < self.batches.len()
            invariant
                i <= self.batches@.len(),
                forall|j: int| 0 <= j < i ==> #[trigger] self.batches@[j].batch_id@ != batch_id@,
            decreases self.batches@.len() - i,
        {
            if self.batches[i].batch_id == *batch_id {
                return Some(i);
            }
            i += 1;
        }
        None
    }

    /// Find the position of the authorization record for `user`, if any.
    fn find_auth(&self, user: Identity) -> (r: Option<usize>)
        ensures
            match r {
                Some(i) => i < self.auths@.len() && self.auths@[i as int].user == user,
                None => !self.has_auth(user),
            },
    {
        let mut i: usize = 0;
        while i < self.auths.len()
            invariant
                i <= self.auths@.len(),
                forall|j: int| 0 <= j < i ==> #[trigger] self.auths@[j].user != user,
            decreases self.auths@.len() - i,
        {
            if self.auths[i].user == user {
                return Some(i);
            }
            i += 1;
        }
        None
    }
}

} // verus!
