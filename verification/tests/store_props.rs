use rice_supply_chain::errors::ChainError;
use rice_supply_chain::lifecycle::create_rice_batch;
use rice_supply_chain::records::RiceBatch;
use rice_supply_chain::status::BatchStatus;
use rice_supply_chain::store::Store;

fn sample_batch(public_key: u64) -> RiceBatch {
    RiceBatch {
        public_key,
        milled_rice_id: 1,
        batch_status: BatchStatus::Created,
        quality_score: 10,
        weight_kg: 5,
        qr_code: String::from("Q"),
        created_at: 0,
        updated_at: 0,
    }
}

#[test]
fn creations_never_reuse_an_identity() {
    let mut store = Store::new();
    let a = create_rice_batch(&mut store, 1, 1, BatchStatus::Created, 1, 1, String::from("A"));
    let b = create_rice_batch(&mut store, 2, 1, BatchStatus::Created, 2, 2, String::from("B"));
    let c = create_rice_batch(&mut store, 3, 1, BatchStatus::Created, 3, 3, String::from("C"));
    assert_ne!(a, b);
    assert_ne!(b, c);
    assert_ne!(a, c);
    assert_eq!(store.get(a).unwrap().qr_code, "A");
    assert_eq!(store.get(b).unwrap().qr_code, "B");
    assert_eq!(store.get(c).unwrap().qr_code, "C");
}

#[test]
fn insert_on_occupied_identity_fails_with_duplicate() {
    let mut store = Store::new();
    let r = store.insert(7, sample_batch(7));
    assert_eq!(r, Ok(()));
    let r = store.insert(7, sample_batch(7));
    assert_eq!(r, Err(ChainError::DuplicateIdentity));
    // The colliding insert changed nothing, and a creation after a manual
    // insert still picks an unoccupied identity.
    assert_eq!(store.get(7).unwrap().quality_score, 10);
    let fresh = create_rice_batch(&mut store, 1, 1, BatchStatus::Created, 2, 2, String::from("F"));
    assert_ne!(fresh, 7);
    assert_eq!(store.get(7).unwrap().qr_code, "Q");
    assert_eq!(store.get(fresh).unwrap().qr_code, "F");
}

#[test]
fn get_and_contains_reflect_occupancy() {
    let mut store: Store<RiceBatch> = Store::new();
    assert!(!store.contains(0));
    assert!(store.get(0).is_none());
    let id = create_rice_batch(&mut store, 1, 1, BatchStatus::Created, 1, 1, String::from("A"));
    assert!(store.contains(id));
    assert!(store.get(id).is_some());
    assert!(!store.contains(id + 1));
}

#[test]
fn next_fresh_identity_matches_creation() {
    let mut store: Store<RiceBatch> = Store::new();
    let upcoming = store.next_fresh_identity();
    let id = create_rice_batch(&mut store, 1, 1, BatchStatus::Created, 1, 1, String::from("A"));
    assert_eq!(id, upcoming);
    assert_ne!(store.next_fresh_identity(), upcoming);
}
