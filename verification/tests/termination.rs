use rice_supply_chain::errors::ChainError;
use rice_supply_chain::lifecycle::create_chain_actor;
use rice_supply_chain::lifecycle::create_chain_transaction;
use rice_supply_chain::lifecycle::create_production_season;
use rice_supply_chain::lifecycle::create_rice_batch;
use rice_supply_chain::lifecycle::delete_chain_actor;
use rice_supply_chain::lifecycle::delete_chain_transaction;
use rice_supply_chain::lifecycle::delete_production_season;
use rice_supply_chain::lifecycle::delete_rice_batch;
use rice_supply_chain::lifecycle::update_chain_actor;
use rice_supply_chain::lifecycle::update_chain_transaction;
use rice_supply_chain::lifecycle::update_production_season;
use rice_supply_chain::lifecycle::update_rice_batch;
use rice_supply_chain::status::BatchStatus;
use rice_supply_chain::status::Organization;
use rice_supply_chain::status::PaymentMethod;
use rice_supply_chain::status::TransactionStatus;
use rice_supply_chain::status::ValidationStatus;
use rice_supply_chain::store::Store;

fn sample_actor(store: &mut Store<rice_supply_chain::records::ChainActor>, now: i64) -> u64 {
    create_chain_actor(
        store,
        now,
        String::from("Actor"),
        vec![],
        None,
        None,
        10,
        String::from("1111"),
        Organization::Distributor,
        None,
    )
}

#[test]
fn terminate_chain_actor_forces_inactive() {
    let mut store = Store::new();
    let id = sample_actor(&mut store, 1);
    assert!(store.get(id).unwrap().is_active);
    let r = delete_chain_actor(&mut store, id, 2);
    assert_eq!(r, Ok(()));
    assert!(!store.get(id).unwrap().is_active);
    // Terminating an already terminated actor is a state-wise no-op but
    // still bumps the update timestamp.
    let r = delete_chain_actor(&mut store, id, 5);
    assert_eq!(r, Ok(()));
    let actor = store.get(id).unwrap();
    assert!(!actor.is_active);
    assert_eq!(actor.updated_at, 5);
    assert_eq!(actor.created_at, 1);
}

#[test]
fn terminate_production_season_forces_rejected_from_any_status() {
    let mut store = Store::new();
    let id = create_production_season(
        &mut store,
        1,
        2,
        String::from("2024"),
        100,
        None,
        None,
        None,
        None,
        None,
        None,
        None,
        None,
        None,
        false,
    );
    // Move the season to Approved first; termination must still force
    // Rejected.
    let r = update_production_season(
        &mut store,
        id,
        2,
        None,
        None,
        None,
        None,
        None,
        None,
        None,
        None,
        None,
        None,
        None,
        None,
        Some(ValidationStatus::Approved),
        Some(9),
    );
    assert_eq!(r, Ok(()));
    assert_eq!(store.get(id).unwrap().validation_status, ValidationStatus::Approved);
    let r = delete_production_season(&mut store, id, 3);
    assert_eq!(r, Ok(()));
    let season = store.get(id).unwrap();
    assert_eq!(season.validation_status, ValidationStatus::Rejected);
    assert_eq!(season.validator_id, Some(9));
    assert_eq!(season.crop_year, "2024");
}

#[test]
fn terminate_rice_batch_forces_consumed_from_any_status() {
    let mut store = Store::new();
    let id = create_rice_batch(&mut store, 1, 7, BatchStatus::Created, 50, 20, String::from("Q"));
    let r = update_rice_batch(&mut store, id, 2, Some(BatchStatus::Delivered), None, None, None);
    assert_eq!(r, Ok(()));
    let r = delete_rice_batch(&mut store, id, 3);
    assert_eq!(r, Ok(()));
    let batch = store.get(id).unwrap();
    assert_eq!(batch.batch_status, BatchStatus::Consumed);
    assert_eq!(batch.quality_score, 50);
    assert_eq!(batch.updated_at, 3);
}

#[test]
fn terminate_chain_transaction_forces_cancelled_from_any_status() {
    let mut store = Store::new();
    let id = create_chain_transaction(
        &mut store,
        1,
        1,
        2,
        vec![],
        90,
        PaymentMethod::Credit,
        None,
        None,
        None,
        None,
    );
    let r = update_chain_transaction(
        &mut store,
        id,
        2,
        None,
        None,
        None,
        None,
        None,
        None,
        Some(TransactionStatus::Completed),
    );
    assert_eq!(r, Ok(()));
    let r = delete_chain_transaction(&mut store, id, 3);
    assert_eq!(r, Ok(()));
    let tx = store.get(id).unwrap();
    assert_eq!(tx.transaction_status, TransactionStatus::Cancelled);
    assert_eq!(tx.amount, 90);
    assert_eq!(tx.updated_at, 3);
}

#[test]
fn terminate_not_found_leaves_store_unchanged() {
    let mut store = Store::new();
    let id = sample_actor(&mut store, 1);
    let missing = id + 100;
    let r = delete_chain_actor(&mut store, missing, 2);
    assert_eq!(r, Err(ChainError::NotFound));
    assert!(store.get(missing).is_none());
    let actor = store.get(id).unwrap();
    assert!(actor.is_active);
    assert_eq!(actor.updated_at, 1);
}

#[test]
fn timestamps_nondecreasing_across_operations() {
    let mut store = Store::new();
    let id = sample_actor(&mut store, 100);
    let mut last = store.get(id).unwrap().updated_at;
    assert_eq!(last, 100);
    for now in [100, 150, 150, 200] {
        let r = update_chain_actor(
            &mut store,
            id,
            now,
            None,
            None,
            None,
            None,
            Some(11),
            None,
            None,
            None,
            None,
            None,
        );
        assert_eq!(r, Ok(()));
        let actor = store.get(id).unwrap();
        assert!(actor.updated_at >= last);
        assert!(actor.updated_at >= actor.created_at);
        last = actor.updated_at;
    }
    let r = delete_chain_actor(&mut store, id, 250);
    assert_eq!(r, Ok(()));
    let actor = store.get(id).unwrap();
    assert!(actor.updated_at >= last);
    assert_eq!(actor.created_at, 100);
}
