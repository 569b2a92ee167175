use supply_chain_trust::errors::SupplyChainError;
use supply_chain_trust::identity::Identity;
use supply_chain_trust::ledger::Ledger;
use supply_chain_trust::records::{ProgramState, UserAuthorization};

fn ident(n: u64) -> Identity {
    Identity { w0: n, w1: 0, w2: 0, w3: 0 }
}

fn ready_ledger(owner: Identity) -> Ledger {
    let mut l = Ledger::new();
    assert!(l.initialize(owner).is_ok());
    l
}

fn create_widget_batch(l: &mut Ledger, batch_id: &str, creator: Identity, now: i64) -> Result<supply_chain_trust::records::BatchCreated, SupplyChainError> {
    l.create_batch(
        batch_id.to_string(),
        "Widget".to_string(),
        "SKU1".to_string(),
        "FactoryA".to_string(),
        "img1".to_string(),
        "img2".to_string(),
        creator,
        now,
    )
}

fn log_simple_event(l: &mut Ledger, batch_ref: &str, actor: &str, hash: &str, logger: Identity, now: i64) -> Result<supply_chain_trust::records::EventLogged, SupplyChainError> {
    l.log_event(
        &batch_ref.to_string(),
        actor.to_string(),
        "Inspector".to_string(),
        "ok".to_string(),
        "i1".to_string(),
        "i2".to_string(),
        hash.to_string(),
        logger,
        now,
    )
}

#[test]
fn initialize_sets_genesis_state() {
    let owner = ident(1);
    let mut l = Ledger::new();
    assert_eq!(l.initialize(owner), Ok(()));
    assert_eq!(l.owner(), owner);
    assert_eq!(l.total_batches(), 0);
    assert_eq!(l.next_event_id(), 1);
}

#[test]
fn initialize_twice_is_duplicate() {
    let mut l = ready_ledger(ident(1));
    assert_eq!(l.initialize(ident(2)), Err(SupplyChainError::DuplicateIdentifier));
    assert_eq!(l.owner(), ident(1));
}

#[test]
fn create_batch_success_and_record() {
    let owner = ident(1);
    let mut l = ready_ledger(owner);
    let n = create_widget_batch(&mut l, "BATCH-1", owner, 42).unwrap();
    assert_eq!(n.batch_id, "BATCH-1".to_string());
    assert_eq!(n.creator, owner);
    assert_eq!(n.timestamp, 42);
    assert_eq!(l.total_batches(), 1);
    let b = l.get_batch(&"BATCH-1".to_string()).unwrap();
    assert_eq!(b.batch_id, "BATCH-1");
    assert_eq!(b.product_name, "Widget");
    assert_eq!(b.sku, "SKU1");
    assert_eq!(b.origin, "FactoryA");
    assert_eq!(b.first_view_baseline, "img1");
    assert_eq!(b.second_view_baseline, "img2");
    assert_eq!(b.creator, owner);
    assert_eq!(b.created_at, 42);
    assert!(b.exists);
    assert!(l.get_batch(&"BATCH-2".to_string()).is_none());
}

#[test]
fn duplicate_batch_id_refused_and_counter_kept() {
    let owner = ident(1);
    let mut l = ready_ledger(owner);
    assert!(create_widget_batch(&mut l, "BATCH-1", owner, 1).is_ok());
    assert_eq!(l.total_batches(), 1);
    let second = create_widget_batch(&mut l, "BATCH-1", owner, 2);
    assert_eq!(second, Err(SupplyChainError::DuplicateIdentifier));
    assert_eq!(l.total_batches(), 1);
}

#[test]
fn empty_product_name_refused() {
    let owner = ident(1);
    let mut l = ready_ledger(owner);
    let r = l.create_batch(
        "B".to_string(),
        "".to_string(),
        "SKU".to_string(),
        "Origin".to_string(),
        "v1".to_string(),
        "v2".to_string(),
        owner,
        1,
    );
    assert_eq!(r, Err(SupplyChainError::EmptyProductName));
    assert_eq!(l.total_batches(), 0);
}

#[test]
fn empty_origin_refused() {
    let owner = ident(1);
    let mut l = ready_ledger(owner);
    let r = l.create_batch(
        "B".to_string(),
        "Widget".to_string(),
        "SKU".to_string(),
        "".to_string(),
        "v1".to_string(),
        "v2".to_string(),
        owner,
        1,
    );
    assert_eq!(r, Err(SupplyChainError::EmptyOrigin));
    assert_eq!(l.total_batches(), 0);
}

#[test]
fn oversized_batch_id_is_storage_overflow() {
    let owner = ident(1);
    let mut l = ready_ledger(owner);
    let r = create_widget_batch(&mut l, &"x".repeat(101), owner, 1);
    assert_eq!(r, Err(SupplyChainError::StorageOverflow));
    assert_eq!(l.total_batches(), 0);
}

#[test]
fn batch_id_at_budget_is_accepted() {
    let owner = ident(1);
    let mut l = ready_ledger(owner);
    assert!(create_widget_batch(&mut l, &"x".repeat(100), owner, 1).is_ok());
}

#[test]
fn event_ids_are_dense_across_batches() {
    let owner = ident(1);
    let logger = ident(5);
    let mut l = ready_ledger(owner);
    assert!(create_widget_batch(&mut l, "A", owner, 1).is_ok());
    assert!(create_widget_batch(&mut l, "B", owner, 2).is_ok());
    let e1 = log_simple_event(&mut l, "A", "Alice", "h1", logger, 3).unwrap();
    let e2 = log_simple_event(&mut l, "B", "Bob", "h2", logger, 4).unwrap();
    let e3 = log_simple_event(&mut l, "A", "Carol", "h3", logger, 5).unwrap();
    assert_eq!(e1.event_id, 1);
    assert_eq!(e2.event_id, 2);
    assert_eq!(e3.event_id, 3);
    assert_eq!(l.next_event_id(), 4);
    assert_eq!(l.get_event(1).unwrap().actor, "Alice");
    assert_eq!(l.get_event(2).unwrap().actor, "Bob");
    assert_eq!(l.get_event(3).unwrap().actor, "Carol");
    assert!(l.get_event(4).is_none());
    assert!(l.get_event(0).is_none());
}

#[test]
fn event_record_is_complete() {
    let owner = ident(1);
    let logger = ident(5);
    let mut l = ready_ledger(owner);
    assert!(create_widget_batch(&mut l, "A", owner, 1).is_ok());
    let n = l
        .log_event(
            &"A".to_string(),
            "Alice".to_string(),
            "Inspector".to_string(),
            "looks good".to_string(),
            "iv1".to_string(),
            "iv2".to_string(),
            "deadbeef".to_string(),
            logger,
            9,
        )
        .unwrap();
    assert_eq!(n.batch_id, "A");
    assert_eq!(n.event_id, 1);
    assert_eq!(n.actor, "Alice");
    assert_eq!(n.role, "Inspector");
    assert_eq!(n.logged_by, logger);
    assert_eq!(n.timestamp, 9);
    let e = l.get_event(1).unwrap();
    assert_eq!(e.id, 1);
    assert_eq!(e.actor, "Alice");
    assert_eq!(e.role, "Inspector");
    assert_eq!(e.note, "looks good");
    assert_eq!(e.first_view_image, "iv1");
    assert_eq!(e.second_view_image, "iv2");
    assert_eq!(e.event_hash, "deadbeef");
    assert_eq!(e.logged_by, logger);
    assert_eq!(e.timestamp, 9);
    assert_eq!(e.batch, "A");
}

#[test]
fn log_event_missing_batch_keeps_next_event_id() {
    let owner = ident(1);
    let mut l = ready_ledger(owner);
    assert!(create_widget_batch(&mut l, "A", owner, 1).is_ok());
    assert!(log_simple_event(&mut l, "A", "Alice", "h1", owner, 2).is_ok());
    let r = log_simple_event(&mut l, "MISSING", "Bob", "h2", owner, 3);
    assert_eq!(r, Err(SupplyChainError::BatchNotFound));
    assert_eq!(l.next_event_id(), 2);
}

#[test]
fn empty_event_fields_refused_in_order() {
    let owner = ident(1);
    let mut l = ready_ledger(owner);
    assert!(create_widget_batch(&mut l, "A", owner, 1).is_ok());
    let cases: [(&str, &str, &str, &str, SupplyChainError); 4] = [
        ("", "Role", "note", "hash", SupplyChainError::EmptyActor),
        ("Actor", "", "note", "hash", SupplyChainError::EmptyRole),
        ("Actor", "Role", "", "hash", SupplyChainError::EmptyNote),
        ("Actor", "Role", "note", "", SupplyChainError::EmptyEventHash),
    ];
    for (actor, role, note, hash, expected) in cases {
        let r = l.log_event(
            &"A".to_string(),
            actor.to_string(),
            role.to_string(),
            note.to_string(),
            "i1".to_string(),
            "i2".to_string(),
            hash.to_string(),
            owner,
            2,
        );
        assert_eq!(r, Err(expected));
        assert_eq!(l.next_event_id(), 1);
    }
}

#[test]
fn oversized_event_hash_is_storage_overflow() {
    let owner = ident(1);
    let mut l = ready_ledger(owner);
    assert!(create_widget_batch(&mut l, "A", owner, 1).is_ok());
    let r = log_simple_event(&mut l, "A", "Alice", &"h".repeat(65), owner, 2);
    assert_eq!(r, Err(SupplyChainError::StorageOverflow));
    assert_eq!(l.next_event_id(), 1);
}

#[test]
fn owner_sets_authorization_once() {
    let owner = ident(1);
    let carol = ident(7);
    let mut l = ready_ledger(owner);
    let n = l.set_user_authorization(owner, carol, true).unwrap();
    assert_eq!(n.user, carol);
    assert!(n.authorized);
    assert_eq!(l.get_authorization(carol), Some(true));
    let again = l.set_user_authorization(owner, carol, false);
    assert_eq!(again, Err(SupplyChainError::DuplicateIdentifier));
    assert_eq!(l.get_authorization(carol), Some(true));
}

#[test]
fn non_owner_authorization_refused_and_no_record() {
    let owner = ident(1);
    let mallory = ident(9);
    let dave = ident(8);
    let mut l = ready_ledger(owner);
    let r = l.set_user_authorization(mallory, dave, true);
    assert_eq!(r, Err(SupplyChainError::Unauthorized));
    assert_eq!(l.get_authorization(dave), None);
}

#[test]
fn total_batches_counts_only_successes() {
    let owner = ident(1);
    let mut l = ready_ledger(owner);
    assert!(create_widget_batch(&mut l, "A", owner, 1).is_ok());
    assert!(create_widget_batch(&mut l, "A", owner, 2).is_err());
    assert!(create_widget_batch(&mut l, "B", owner, 3).is_ok());
    assert!(l
        .create_batch(
            "C".to_string(),
            "".to_string(),
            "S".to_string(),
            "O".to_string(),
            "v1".to_string(),
            "v2".to_string(),
            owner,
            4,
        )
        .is_err());
    assert!(create_widget_batch(&mut l, "C", owner, 5).is_ok());
    assert_eq!(l.total_batches(), 3);
}

#[test]
fn counter_at_ceiling_rejects_issuance() {
    // A hand-built state at the counter ceiling: the checked increment must
    // refuse issuance rather than wrap.
    let owner = ident(1);
    let mut l = Ledger {
        state: Some(ProgramState { owner, total_batches: u64::MAX, next_event_id: 1 }),
        batches: Vec::new(),
        events: Vec::new(),
        auths: Vec::new(),
    };
    let r = create_widget_batch(&mut l, "A", owner, 1);
    assert_eq!(r, Err(SupplyChainError::Overflow));
    assert_eq!(l.total_batches(), u64::MAX);
}

#[test]
fn issue_event_id_is_checked() {
    let mut st = ProgramState { owner: ident(1), total_batches: 0, next_event_id: 1 };
    assert_eq!(st.issue_event_id(), Ok(1));
    assert_eq!(st.next_event_id, 2);
    st.next_event_id = u64::MAX;
    assert_eq!(st.issue_event_id(), Err(SupplyChainError::Overflow));
    assert_eq!(st.next_event_id, u64::MAX);
}

#[test]
fn increment_batch_count_is_checked() {
    let mut st = ProgramState { owner: ident(1), total_batches: 41, next_event_id: 1 };
    assert_eq!(st.increment_batch_count(), Ok(()));
    assert_eq!(st.total_batches, 42);
    st.total_batches = u64::MAX;
    assert_eq!(st.increment_batch_count(), Err(SupplyChainError::Overflow));
    assert_eq!(st.total_batches, u64::MAX);
}

#[test]
fn example_scenario() {
    let owner = ident(1);
    let not_owner = ident(2);
    let mut l = Ledger::new();
    assert_eq!(l.initialize(owner), Ok(()));
    assert!(create_widget_batch(&mut l, "BATCH-1", owner, 10).is_ok());
    assert_eq!(l.total_batches(), 1);
    let e1 = l
        .log_event(
            &"BATCH-1".to_string(),
            "Alice".to_string(),
            "Inspector".to_string(),
            "ok".to_string(),
            "i1".to_string(),
            "i2".to_string(),
            "hash1".to_string(),
            owner,
            11,
        )
        .unwrap();
    assert_eq!(e1.event_id, 1);
    let e2 = l
        .log_event(
            &"BATCH-1".to_string(),
            "Bob".to_string(),
            "Shipper".to_string(),
            "shipped".to_string(),
            "i3".to_string(),
            "i4".to_string(),
            "hash2".to_string(),
            owner,
            12,
        )
        .unwrap();
    assert_eq!(e2.event_id, 2);
    assert!(l.set_user_authorization(owner, ident(3), true).is_ok());
    let r = l.set_user_authorization(not_owner, ident(4), true);
    assert_eq!(r, Err(SupplyChainError::Unauthorized));
    assert_eq!(l.get_authorization(ident(4)), None);
    let r = log_simple_event(&mut l, "BATCH-2", "Eve", "hash3", owner, 13);
    assert_eq!(r, Err(SupplyChainError::BatchNotFound));
    assert_eq!(l.next_event_id(), 3);
}

#[test]
fn authorization_false_flag_is_recorded() {
    let owner = ident(1);
    let user = ident(6);
    let mut l = ready_ledger(owner);
    assert!(l.set_user_authorization(owner, user, false).is_ok());
    assert_eq!(l.get_authorization(user), Some(false));
    assert_eq!(
        UserAuthorization { user, authorized: false },
        UserAuthorization { user, authorized: false }
    );
}
