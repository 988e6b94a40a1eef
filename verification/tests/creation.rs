use rice_supply_chain::lifecycle::create_chain_actor;
use rice_supply_chain::lifecycle::create_chain_transaction;
use rice_supply_chain::lifecycle::create_milled_rice;
use rice_supply_chain::lifecycle::create_production_season;
use rice_supply_chain::lifecycle::create_rice_batch;
use rice_supply_chain::status::BatchStatus;
use rice_supply_chain::status::Organization;
use rice_supply_chain::status::PaymentMethod;
use rice_supply_chain::status::TransactionStatus;
use rice_supply_chain::status::ValidationStatus;
use rice_supply_chain::store::Store;

#[test]
fn chain_actor_creation_completeness() {
    let mut store = Store::new();
    let id = create_chain_actor(
        &mut store,
        1_700_000_000,
        String::from("Mekong Mill"),
        vec![String::from("producer"), String::from("seller")],
        Some(42),
        None,
        250,
        String::from("4931"),
        Organization::Miller,
        None,
    );
    let actor = store.get(id).unwrap();
    assert_eq!(actor.public_key, id);
    assert_eq!(actor.name, "Mekong Mill");
    assert_eq!(actor.actor_type, vec![String::from("producer"), String::from("seller")]);
    assert_eq!(actor.farm_id, Some(42));
    assert_eq!(actor.farmer_id, None);
    assert_eq!(actor.assigned_tps, 250);
    assert!(actor.is_active);
    assert_eq!(actor.balance, 0);
    assert_eq!(actor.pin, "4931");
    assert_eq!(actor.organization, Organization::Miller);
    assert_eq!(actor.address, None);
    assert_eq!(actor.created_at, 1_700_000_000);
    assert_eq!(actor.updated_at, 1_700_000_000);
}

#[test]
fn production_season_creation_completeness() {
    let mut store = Store::new();
    let id = create_production_season(
        &mut store,
        500,
        9,
        String::from("2025"),
        800,
        Some(String::from("jasmine")),
        None,
        Some(1_000),
        None,
        None,
        None,
        None,
        None,
        None,
        true,
    );
    let season = store.get(id).unwrap();
    assert_eq!(season.public_key, id);
    assert_eq!(season.farmer_id, 9);
    assert_eq!(season.crop_year, "2025");
    assert_eq!(season.processed_yield_kg, 800);
    assert_eq!(season.variety, Some(String::from("jasmine")));
    assert_eq!(season.planned_practice, None);
    assert_eq!(season.planting_date, Some(1_000));
    assert_eq!(season.irrigation_practice, None);
    assert_eq!(season.fertilizer_used, None);
    assert_eq!(season.pesticide_used, None);
    assert_eq!(season.harvest_date, None);
    assert_eq!(season.total_yield_kg, None);
    assert_eq!(season.moisture_content, None);
    assert!(season.carbon_smart_certified);
    assert_eq!(season.validation_status, ValidationStatus::Pending);
    assert_eq!(season.validator_id, None);
    assert_eq!(season.created_at, 500);
    assert_eq!(season.updated_at, 500);
}

#[test]
fn milled_rice_creation_completeness() {
    let mut store = Store::new();
    let id = create_milled_rice(
        &mut store,
        77,
        3,
        String::from("1200kg"),
        String::from("wet"),
        String::from("premium"),
        vec![String::from("a.jpg")],
        14,
        1_150,
    );
    let rice = store.get(id).unwrap();
    assert_eq!(rice.public_key, id);
    assert_eq!(rice.farmer_id, 3);
    assert_eq!(rice.total_weight_kg, "1200kg");
    assert_eq!(rice.milling_type, "wet");
    assert_eq!(rice.quality, "premium");
    assert_eq!(rice.photo_urls, vec![String::from("a.jpg")]);
    assert_eq!(rice.moisture, 14);
    assert_eq!(rice.total_weight_processed_kg, 1_150);
    assert_eq!(rice.created_at, 77);
    assert_eq!(rice.updated_at, 77);
}

#[test]
fn rice_batch_creation_takes_explicit_status() {
    let mut store = Store::new();
    let id = create_rice_batch(
        &mut store,
        10,
        5,
        BatchStatus::InTransit,
        88,
        25,
        String::from("QR-001"),
    );
    let batch = store.get(id).unwrap();
    assert_eq!(batch.public_key, id);
    assert_eq!(batch.milled_rice_id, 5);
    assert_eq!(batch.batch_status, BatchStatus::InTransit);
    assert_eq!(batch.quality_score, 88);
    assert_eq!(batch.weight_kg, 25);
    assert_eq!(batch.qr_code, "QR-001");
    assert_eq!(batch.created_at, 10);
    assert_eq!(batch.updated_at, 10);
}

#[test]
fn chain_transaction_creation_completeness() {
    let mut store = Store::new();
    let id = create_chain_transaction(
        &mut store,
        900,
        1,
        2,
        vec![10, 11, 12],
        5_000,
        PaymentMethod::BankTransfer,
        Some(String::from("INV-7")),
        None,
        None,
        None,
    );
    let tx = store.get(id).unwrap();
    assert_eq!(tx.public_key, id);
    assert_eq!(tx.from_actor_id, 1);
    assert_eq!(tx.to_actor_id, 2);
    assert_eq!(tx.rice_batch_ids, vec![10, 11, 12]);
    assert_eq!(tx.amount, 5_000);
    assert_eq!(tx.payment_method, PaymentMethod::BankTransfer);
    assert_eq!(tx.payment_reference, Some(String::from("INV-7")));
    assert_eq!(tx.geotag_latitude, None);
    assert_eq!(tx.geotag_longitude, None);
    assert_eq!(tx.quality, None);
    assert_eq!(tx.transaction_status, TransactionStatus::Pending);
    assert_eq!(tx.created_at, 900);
    assert_eq!(tx.updated_at, 900);
}
