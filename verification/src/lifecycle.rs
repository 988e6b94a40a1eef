//! The lifecycle engine: the operation layer that applies creation, partial
//! update and termination to the records of a store.
//!
//! Every operation takes the wall-clock timestamp of the moment it runs as
//! an explicit argument, handed in by the host's trusted clock; successive
//! timestamps handed to operations on one record must not go backwards.
//! Creation assigns a fresh identity and sets both timestamps to that
//! moment; update overwrites exactly the supplied fields and bumps the
//! update timestamp; termination forces the record's terminal status and
//! bumps the update timestamp, whatever state the record was in — it is
//! idempotent state-wise but not timestamp-wise.
//!
//! Update and termination fail with `NotFound`, leaving the store
//! untouched, exactly when the identity does not resolve to a record.
//!
//! Each `*_store_wf` spec function states the timestamp invariant — no
//! record of the store was updated before it was created — and every
//! operation preserves it.

use vstd::prelude::*;

use crate::errors::ChainError;
use crate::records::ChainActor;
use crate::records::ChainTransaction;
use crate::records::Identity;
use crate::records::MilledRice;
use crate::records::ProductionSeason;
use crate::records::RiceBatch;
use crate::records::chain_actor_created;
use crate::records::chain_actor_terminated;
use crate::records::chain_actor_updated;
use crate::records::chain_transaction_created;
use crate::records::chain_transaction_terminated;
use crate::records::chain_transaction_updated;
use crate::records::milled_rice_created;
use crate::records::milled_rice_updated;
use crate::records::production_season_created;
use crate::records::production_season_terminated;
use crate::records::production_season_updated;
use crate::records::rice_batch_created;
use crate::records::rice_batch_terminated;
use crate::records::rice_batch_updated;
use crate::status::BatchStatus;
use crate::status::Organization;
use crate::status::PaymentMethod;
use crate::status::TransactionStatus;
use crate::status::ValidationStatus;
use crate::store::Store;

verus! {

/// Timestamp invariant of a chain-actor store: every record is well-formed.
pub open spec fn chain_actor_store_wf(m: Map<Identity, ChainActor>) -> bool {
    forall|k: Identity| m.contains_key(k) ==> m[k].wf()
}

/// Creates a chain actor: required fields verbatim, optional fields exactly
/// as supplied, the active flag raised, a zero balance, and both timestamps
/// set to `now`. Returns the fresh identity the record was stored under.
pub fn create_chain_actor(
    store: &mut Store<ChainActor>,
    now: i64,
    name: String,
    actor_type: Vec<String>,
    farm_id: Option<Identity>,
    farmer_id: Option<Identity>,
    assigned_tps: u64,
    pin: String,
    organization: Organization,
    address: Option<String>,
) -> (identity: Identity)
    requires
        old(store).inv(),
        old(store).next_id() < Identity::MAX,
    ensures
        final(store).inv(),
        identity == old(store).next_id(),
        final(store).next_id() == old(store).next_id() + 1,
        !old(store)@.contains_key(identity),
        final(store)@ == old(store)@.insert(
            identity,
            chain_actor_created(
                identity,
                name,
                actor_type,
                farm_id,
                farmer_id,
                assigned_tps,
                pin,
                organization,
                address,
                now,
            ),
        ),
        chain_actor_store_wf(old(store)@) ==> chain_actor_store_wf(final(store)@),
{
    let identity = store.next_fresh_identity();
    let record = ChainActor {
        public_key: identity,
        name,
        actor_type,
        farm_id,
        farmer_id,
        assigned_tps,
        is_active: true,
        balance: 0,
        pin,
        organization,
        address,
        created_at: now,
        updated_at: now,
    };
    let issued = store.insert_fresh(record);
    proof {
        if chain_actor_store_wf(old(store)@) {
            assert forall|k: Identity| store@.contains_key(k) implies store@[k].wf() by {
                if k != identity {
                    assert(old(store)@.contains_key(k));
                }
            }
        }
    }
    issued
}

/// Partially updates a chain actor: overwrites exactly the supplied fields,
/// leaves every other field unchanged, and bumps the update timestamp to
/// `now`. Fails with `NotFound`, leaving the store untouched, exactly when
/// the identity does not resolve to a record.
pub fn update_chain_actor(
    store: &mut Store<ChainActor>,
    identity: Identity,
    now: i64,
    name: Option<String>,
    actor_type: Option<Vec<String>>,
    farm_id: Option<Identity>,
    farmer_id: Option<Identity>,
    assigned_tps: Option<u64>,
    pin: Option<String>,
    organization: Option<Organization>,
    address: Option<String>,
    is_active: Option<bool>,
    balance: Option<u64>,
) -> (r: Result<(), ChainError>)
    requires
        old(store).inv(),
        old(store)@.contains_key(identity) ==> old(store)@[identity].updated_at <= now,
    ensures
        final(store).inv(),
        final(store).next_id() == old(store).next_id(),
        r is Ok <==> old(store)@.contains_key(identity),
        r is Err ==> r == Err::<(), ChainError>(ChainError::NotFound) && final(store)@ == old(
            store,
        )@,
        r is Ok ==> final(store)@ == old(store)@.insert(
            identity,
            chain_actor_updated(
                old(store)@[identity],
                name,
                actor_type,
                farm_id,
                farmer_id,
                assigned_tps,
                pin,
                organization,
                address,
                is_active,
                balance,
                now,
            ),
        ),
        r is Ok ==> final(store)@[identity].created_at == old(store)@[identity].created_at && old(
            store,
        )@[identity].updated_at <= final(store)@[identity].updated_at,
        chain_actor_store_wf(old(store)@) ==> chain_actor_store_wf(final(store)@),
{
    match store.extract(identity) {
        None => Err(ChainError::NotFound),
        Some(mut record) => {
            if let Some(v) = name {
                record.name = v;
            }
            if let Some(v) = actor_type {
                record.actor_type = v;
            }
            if let Some(v) = farm_id {
                record.farm_id = Some(v);
            }
            if let Some(v) = farmer_id {
                record.farmer_id = Some(v);
            }
            if let Some(v) = assigned_tps {
                record.assigned_tps = v;
            }
            if let Some(v) = pin {
                record.pin = v;
            }
            if let Some(v) = organization {
                record.organization = v;
            }
            if let Some(v) = address {
                record.address = Some(v);
            }
            if let Some(v) = is_active {
                record.is_active = v;
            }
            if let Some(v) = balance {
                record.balance = v;
            }
            record.updated_at = now;
            store.restore(identity, record);
            proof {
                assert(store@ =~= old(store)@.insert(identity, record));
                if chain_actor_store_wf(old(store)@) {
                    assert forall|k: Identity| store@.contains_key(k) implies store@[k].wf() by {
                        if k != identity {
                            assert(old(store)@.contains_key(k));
                        }
                    }
                }
            }
            Ok(())
        },
    }
}

/// Terminates a chain actor: forces the active flag low, whatever it was
/// before, bumps the update timestamp to `now`, and touches nothing else.
/// Fails with `NotFound`, leaving the store untouched, exactly when the
/// identity does not resolve to a record.
pub fn delete_chain_actor(store: &mut Store<ChainActor>, identity: Identity, now: i64) -> (r:
    Result<(), ChainError>)
    requires
        old(store).inv(),
        old(store)@.contains_key(identity) ==> old(store)@[identity].updated_at <= now,
    ensures
        final(store).inv(),
        final(store).next_id() == old(store).next_id(),
        r is Ok <==> old(store)@.contains_key(identity),
        r is Err ==> r == Err::<(), ChainError>(ChainError::NotFound) && final(store)@ == old(
            store,
        )@,
        r is Ok ==> final(store)@ == old(store)@.insert(
            identity,
            chain_actor_terminated(old(store)@[identity], now),
        ),
        r is Ok ==> final(store)@[identity].is_active == false,
        chain_actor_store_wf(old(store)@) ==> chain_actor_store_wf(final(store)@),
{
    match store.extract(identity) {
        None => Err(ChainError::NotFound),
        Some(mut record) => {
            record.is_active = false;
            record.updated_at = now;
            store.restore(identity, record);
            proof {
                assert(store@ =~= old(store)@.insert(identity, record));
                if chain_actor_store_wf(old(store)@) {
                    assert forall|k: Identity| store@.contains_key(k) implies store@[k].wf() by {
                        if k != identity {
                            assert(old(store)@.contains_key(k));
                        }
                    }
                }
            }
            Ok(())
        },
    }
}

/// Timestamp invariant of a production-season store: every record is
/// well-formed.
pub open spec fn production_season_store_wf(m: Map<Identity, ProductionSeason>) -> bool {
    forall|k: Identity| m.contains_key(k) ==> m[k].wf()
}

/// Creates a production season: required fields verbatim, optional fields
/// exactly as supplied, validation starting at `Pending` with no validator,
/// and both timestamps set to `now`. Returns the fresh identity the record
/// was stored under.
pub fn create_production_season(
    store: &mut Store<ProductionSeason>,
    now: i64,
    farmer_id: Identity,
    crop_year: String,
    processed_yield_kg: u64,
    variety: Option<String>,
    planned_practice: Option<String>,
    planting_date: Option<i64>,
    irrigation_practice: Option<String>,
    fertilizer_used: Option<String>,
    pesticide_used: Option<String>,
    harvest_date: Option<i64>,
    total_yield_kg: Option<u64>,
    moisture_content: Option<u32>,
    carbon_smart_certified: bool,
) -> (identity: Identity)
    requires
        old(store).inv(),
        old(store).next_id() < Identity::MAX,
    ensures
        final(store).inv(),
        identity == old(store).next_id(),
        final(store).next_id() == old(store).next_id() + 1,
        !old(store)@.contains_key(identity),
        final(store)@ == old(store)@.insert(
            identity,
            production_season_created(
                identity,
                farmer_id,
                crop_year,
                processed_yield_kg,
                variety,
                planned_practice,
                planting_date,
                irrigation_practice,
                fertilizer_used,
                pesticide_used,
                harvest_date,
                total_yield_kg,
                moisture_content,
                carbon_smart_certified,
                now,
            ),
        ),
        production_season_store_wf(old(store)@) ==> production_season_store_wf(final(store)@),
{
    let identity = store.next_fresh_identity();
    let record = ProductionSeason {
        public_key: identity,
        farmer_id,
        crop_year,
        processed_yield_kg,
        variety,
        planned_practice,
        planting_date,
        irrigation_practice,
        fertilizer_used,
        pesticide_used,
        harvest_date,
        total_yield_kg,
        moisture_content,
        carbon_smart_certified,
        validation_status: ValidationStatus::Pending,
        validator_id: None,
        created_at: now,
        updated_at: now,
    };
    let issued = store.insert_fresh(record);
    proof {
        if production_season_store_wf(old(store)@) {
            assert forall|k: Identity| store@.contains_key(k) implies store@[k].wf() by {
                if k != identity {
                    assert(old(store)@.contains_key(k));
                }
            }
        }
    }
    issued
}

/// Partially updates a production season: overwrites exactly the supplied
/// fields, leaves every other field unchanged, and bumps the update
/// timestamp to `now`. Fails with `NotFound`, leaving the store untouched,
/// exactly when the identity does not resolve to a record.
#[verifier::rlimit(60)]
pub fn update_production_season(
    store: &mut Store<ProductionSeason>,
    identity: Identity,
    now: i64,
    crop_year: Option<String>,
    processed_yield_kg: Option<u64>,
    variety: Option<String>,
    planned_practice: Option<String>,
    planting_date: Option<i64>,
    irrigation_practice: Option<String>,
    fertilizer_used: Option<String>,
    pesticide_used: Option<String>,
    harvest_date: Option<i64>,
    total_yield_kg: Option<u64>,
    moisture_content: Option<u32>,
    carbon_smart_certified: Option<bool>,
    validation_status: Option<ValidationStatus>,
    validator_id: Option<Identity>,
) -> (r: Result<(), ChainError>)
    requires
        old(store).inv(),
        old(store)@.contains_key(identity) ==> old(store)@[identity].updated_at <= now,
    ensures
        final(store).inv(),
        final(store).next_id() == old(store).next_id(),
        r is Ok <==> old(store)@.contains_key(identity),
        r is Err ==> r == Err::<(), ChainError>(ChainError::NotFound) && final(store)@ == old(
            store,
        )@,
        r is Ok ==> final(store)@ == old(store)@.insert(
            identity,
            production_season_updated(
                old(store)@[identity],
                crop_year,
                processed_yield_kg,
                variety,
                planned_practice,
                planting_date,
                irrigation_practice,
                fertilizer_used,
                pesticide_used,
                harvest_date,
                total_yield_kg,
                moisture_content,
                carbon_smart_certified,
                validation_status,
                validator_id,
                now,
            ),
        ),
        r is Ok ==> final(store)@[identity].created_at == old(store)@[identity].created_at && old(
            store,
        )@[identity].updated_at <= final(store)@[identity].updated_at,
        production_season_store_wf(old(store)@) ==> production_season_store_wf(final(store)@),
{
    match store.extract(identity) {
        None => Err(ChainError::NotFound),
        Some(mut record) => {
            if let Some(v) = crop_year {
                record.crop_year = v;
            }
            if let Some(v) = processed_yield_kg {
                record.processed_yield_kg = v;
            }
            if let Some(v) = variety {
                record.variety = Some(v);
            }
            if let Some(v) = planned_practice {
                record.planned_practice = Some(v);
            }
            if let Some(v) = planting_date {
                record.planting_date = Some(v);
            }
            if let Some(v) = irrigation_practice {
                record.irrigation_practice = Some(v);
            }
            if let Some(v) = fertilizer_used {
                record.fertilizer_used = Some(v);
            }
            if let Some(v) = pesticide_used {
                record.pesticide_used = Some(v);
            }
            if let Some(v) = harvest_date {
                record.harvest_date = Some(v);
            }
            if let Some(v) = total_yield_kg {
                record.total_yield_kg = Some(v);
            }
            if let Some(v) = moisture_content {
                record.moisture_content = Some(v);
            }
            if let Some(v) = carbon_smart_certified {
                record.carbon_smart_certified = v;
            }
            if let Some(v) = validation_status {
                record.validation_status = v;
            }
            if let Some(v) = validator_id {
                record.validator_id = Some(v);
            }
            record.updated_at = now;
            store.restore(identity, record);
            proof {
                assert(store@ =~= old(store)@.insert(identity, record));
                if production_season_store_wf(old(store)@) {
                    assert forall|k: Identity| store@.contains_key(k) implies store@[k].wf() by {
                        if k != identity {
                            assert(old(store)@.contains_key(k));
                        }
                    }
                }
            }
            Ok(())
        },
    }
}

/// Terminates a production season: forces the validation status to
/// `Rejected`, whatever it was before, bumps the update timestamp to `now`,
/// and touches nothing else. Fails with `NotFound`, leaving the store
/// untouched, exactly when the identity does not resolve to a record.
pub fn delete_production_season(
    store: &mut Store<ProductionSeason>,
    identity: Identity,
    now: i64,
) -> (r: Result<(), ChainError>)
    requires
        old(store).inv(),
        old(store)@.contains_key(identity) ==> old(store)@[identity].updated_at <= now,
    ensures
        final(store).inv(),
        final(store).next_id() == old(store).next_id(),
        r is Ok <==> old(store)@.contains_key(identity),
        r is Err ==> r == Err::<(), ChainError>(ChainError::NotFound) && final(store)@ == old(
            store,
        )@,
        r is Ok ==> final(store)@ == old(store)@.insert(
            identity,
            production_season_terminated(old(store)@[identity], now),
        ),
        r is Ok ==> final(store)@[identity].validation_status == ValidationStatus::Rejected,
        production_season_store_wf(old(store)@) ==> production_season_store_wf(final(store)@),
{
    match store.extract(identity) {
        None => Err(ChainError::NotFound),
        Some(mut record) => {
            record.validation_status = ValidationStatus::Rejected;
            record.updated_at = now;
            store.restore(identity, record);
            proof {
                assert(store@ =~= old(store)@.insert(identity, record));
                if production_season_store_wf(old(store)@) {
                    assert forall|k: Identity| store@.contains_key(k) implies store@[k].wf() by {
                        if k != identity {
                            assert(old(store)@.contains_key(k));
                        }
                    }
                }
            }
            Ok(())
        },
    }
}

/// Timestamp invariant of a milled-rice store: every record is well-formed.
pub open spec fn milled_rice_store_wf(m: Map<Identity, MilledRice>) -> bool {
    forall|k: Identity| m.contains_key(k) ==> m[k].wf()
}

/// Creates a milling output: every field verbatim, both timestamps set to
/// `now`. Returns the fresh identity the record was stored under. Milled
/// rice has no status field and no termination operation.
pub fn create_milled_rice(
    store: &mut Store<MilledRice>,
    now: i64,
    farmer_id: Identity,
    total_weight_kg: String,
    milling_type: String,
    quality: String,
    photo_urls: Vec<String>,
    moisture: u32,
    total_weight_processed_kg: u32,
) -> (identity: Identity)
    requires
        old(store).inv(),
        old(store).next_id() < Identity::MAX,
    ensures
        final(store).inv(),
        identity == old(store).next_id(),
        final(store).next_id() == old(store).next_id() + 1,
        !old(store)@.contains_key(identity),
        final(store)@ == old(store)@.insert(
            identity,
            milled_rice_created(
                identity,
                farmer_id,
                total_weight_kg,
                milling_type,
                quality,
                photo_urls,
                moisture,
                total_weight_processed_kg,
                now,
            ),
        ),
        milled_rice_store_wf(old(store)@) ==> milled_rice_store_wf(final(store)@),
{
    let identity = store.next_fresh_identity();
    let record = MilledRice {
        public_key: identity,
        farmer_id,
        total_weight_kg,
        milling_type,
        quality,
        photo_urls,
        moisture,
        total_weight_processed_kg,
        created_at: now,
        updated_at: now,
    };
    let issued = store.insert_fresh(record);
    proof {
        if milled_rice_store_wf(old(store)@) {
            assert forall|k: Identity| store@.contains_key(k) implies store@[k].wf() by {
                if k != identity {
                    assert(old(store)@.contains_key(k));
                }
            }
        }
    }
    issued
}

/// Partially updates a milling output: overwrites exactly the supplied
/// fields, leaves every other field unchanged, and bumps the update
/// timestamp to `now`. Fails with `NotFound`, leaving the store untouched,
/// exactly when the identity does not resolve to a record.
pub fn update_milled_rice(
    store: &mut Store<MilledRice>,
    identity: Identity,
    now: i64,
    total_weight_kg: Option<String>,
    milling_type: Option<String>,
    quality: Option<String>,
    photo_urls: Option<Vec<String>>,
    moisture: Option<u32>,
    total_weight_processed_kg: Option<u32>,
) -> (r: Result<(), ChainError>)
    requires
        old(store).inv(),
        old(store)@.contains_key(identity) ==> old(store)@[identity].updated_at <= now,
    ensures
        final(store).inv(),
        final(store).next_id() == old(store).next_id(),
        r is Ok <==> old(store)@.contains_key(identity),
        r is Err ==> r == Err::<(), ChainError>(ChainError::NotFound) && final(store)@ == old(
            store,
        )@,
        r is Ok ==> final(store)@ == old(store)@.insert(
            identity,
            milled_rice_updated(
                old(store)@[identity],
                total_weight_kg,
                milling_type,
                quality,
                photo_urls,
                moisture,
                total_weight_processed_kg,
                now,
            ),
        ),
        r is Ok ==> final(store)@[identity].created_at == old(store)@[identity].created_at && old(
            store,
        )@[identity].updated_at <= final(store)@[identity].updated_at,
        milled_rice_store_wf(old(store)@) ==> milled_rice_store_wf(final(store)@),
{
    match store.extract(identity) {
        None => Err(ChainError::NotFound),
        Some(mut record) => {
            if let Some(v) = total_weight_kg {
                record.total_weight_kg = v;
            }
            if let Some(v) = milling_type {
                record.milling_type = v;
            }
            if let Some(v) = quality {
                record.quality = v;
            }
            if let Some(v) = photo_urls {
                record.photo_urls = v;
            }
            if let Some(v) = moisture {
                record.moisture = v;
            }
            if let Some(v) = total_weight_processed_kg {
                record.total_weight_processed_kg = v;
            }
            record.updated_at = now;
            store.restore(identity, record);
            proof {
                assert(store@ =~= old(store)@.insert(identity, record));
                if milled_rice_store_wf(old(store)@) {
                    assert forall|k: Identity| store@.contains_key(k) implies store@[k].wf() by {
                        if k != identity {
                            assert(old(store)@.contains_key(k));
                        }
                    }
                }
            }
            Ok(())
        },
    }
}

/// Timestamp invariant of a rice-batch store: every record is well-formed.
pub open spec fn rice_batch_store_wf(m: Map<Identity, RiceBatch>) -> bool {
    forall|k: Identity| m.contains_key(k) ==> m[k].wf()
}

/// Creates a rice batch: every field verbatim — the batch status is always
/// caller-supplied, there is no default — and both timestamps set to `now`.
/// Returns the fresh identity the record was stored under.
pub fn create_rice_batch(
    store: &mut Store<RiceBatch>,
    now: i64,
    milled_rice_id: Identity,
    batch_status: BatchStatus,
    quality_score: u32,
    weight_kg: u32,
    qr_code: String,
) -> (identity: Identity)
    requires
        old(store).inv(),
        old(store).next_id() < Identity::MAX,
    ensures
        final(store).inv(),
        identity == old(store).next_id(),
        final(store).next_id() == old(store).next_id() + 1,
        !old(store)@.contains_key(identity),
        final(store)@ == old(store)@.insert(
            identity,
            rice_batch_created(
                identity,
                milled_rice_id,
                batch_status,
                quality_score,
                weight_kg,
                qr_code,
                now,
            ),
        ),
        rice_batch_store_wf(old(store)@) ==> rice_batch_store_wf(final(store)@),
{
    let identity = store.next_fresh_identity();
    let record = RiceBatch {
        public_key: identity,
        milled_rice_id,
        batch_status,
        quality_score,
        weight_kg,
        qr_code,
        created_at: now,
        updated_at: now,
    };
    let issued = store.insert_fresh(record);
    proof {
        if rice_batch_store_wf(old(store)@) {
            assert forall|k: Identity| store@.contains_key(k) implies store@[k].wf() by {
                if k != identity {
                    assert(old(store)@.contains_key(k));
                }
            }
        }
    }
    issued
}

/// Partially updates a rice batch: overwrites exactly the supplied fields,
/// leaves every other field unchanged, and bumps the update timestamp to
/// `now`. Fails with `NotFound`, leaving the store untouched, exactly when
/// the identity does not resolve to a record.
pub fn update_rice_batch(
    store: &mut Store<RiceBatch>,
    identity: Identity,
    now: i64,
    batch_status: Option<BatchStatus>,
    quality_score: Option<u32>,
    weight_kg: Option<u32>,
    qr_code: Option<String>,
) -> (r: Result<(), ChainError>)
    requires
        old(store).inv(),
        old(store)@.contains_key(identity) ==> old(store)@[identity].updated_at <= now,
    ensures
        final(store).inv(),
        final(store).next_id() == old(store).next_id(),
        r is Ok <==> old(store)@.contains_key(identity),
        r is Err ==> r == Err::<(), ChainError>(ChainError::NotFound) && final(store)@ == old(
            store,
        )@,
        r is Ok ==> final(store)@ == old(store)@.insert(
            identity,
            rice_batch_updated(
                old(store)@[identity],
                batch_status,
                quality_score,
                weight_kg,
                qr_code,
                now,
            ),
        ),
        r is Ok ==> final(store)@[identity].created_at == old(store)@[identity].created_at && old(
            store,
        )@[identity].updated_at <= final(store)@[identity].updated_at,
        rice_batch_store_wf(old(store)@) ==> rice_batch_store_wf(final(store)@),
{
    match store.extract(identity) {
        None => Err(ChainError::NotFound),
        Some(mut record) => {
            if let Some(v) = batch_status {
                record.batch_status = v;
            }
            if let Some(v) = quality_score {
                record.quality_score = v;
            }
            if let Some(v) = weight_kg {
                record.weight_kg = v;
            }
            if let Some(v) = qr_code {
                record.qr_code = v;
            }
            record.updated_at = now;
            store.restore(identity, record);
            proof {
                assert(store@ =~= old(store)@.insert(identity, record));
                if rice_batch_store_wf(old(store)@) {
                    assert forall|k: Identity| store@.contains_key(k) implies store@[k].wf() by {
                        if k != identity {
                            assert(old(store)@.contains_key(k));
                        }
                    }
                }
            }
            Ok(())
        },
    }
}

/// Terminates a rice batch: forces the batch status to `Consumed`, whatever
/// it was before, bumps the update timestamp to `now`, and touches nothing
/// else. Fails with `NotFound`, leaving the store untouched, exactly when
/// the identity does not resolve to a record.
pub fn delete_rice_batch(store: &mut Store<RiceBatch>, identity: Identity, now: i64) -> (r: Result<
    (),
    ChainError,
>)
    requires
        old(store).inv(),
        old(store)@.contains_key(identity) ==> old(store)@[identity].updated_at <= now,
    ensures
        final(store).inv(),
        final(store).next_id() == old(store).next_id(),
        r is Ok <==> old(store)@.contains_key(identity),
        r is Err ==> r == Err::<(), ChainError>(ChainError::NotFound) && final(store)@ == old(
            store,
        )@,
        r is Ok ==> final(store)@ == old(store)@.insert(
            identity,
            rice_batch_terminated(old(store)@[identity], now),
        ),
        r is Ok ==> final(store)@[identity].batch_status == BatchStatus::Consumed,
        rice_batch_store_wf(old(store)@) ==> rice_batch_store_wf(final(store)@),
{
    match store.extract(identity) {
        None => Err(ChainError::NotFound),
        Some(mut record) => {
            record.batch_status = BatchStatus::Consumed;
            record.updated_at = now;
            store.restore(identity, record);
            proof {
                assert(store@ =~= old(store)@.insert(identity, record));
                if rice_batch_store_wf(old(store)@) {
                    assert forall|k: Identity| store@.contains_key(k) implies store@[k].wf() by {
                        if k != identity {
                            assert(old(store)@.contains_key(k));
                        }
                    }
                }
            }
            Ok(())
        },
    }
}

/// Timestamp invariant of a chain-transaction store: every record is
/// well-formed.
pub open spec fn chain_transaction_store_wf(m: Map<Identity, ChainTransaction>) -> bool {
    forall|k: Identity| m.contains_key(k) ==> m[k].wf()
}

/// Creates a chain transaction: required fields verbatim, optional fields
/// exactly as supplied, the status starting at `Pending`, and both
/// timestamps set to `now`. Returns the fresh identity the record was
/// stored under.
pub fn create_chain_transaction(
    store: &mut Store<ChainTransaction>,
    now: i64,
    from_actor_id: Identity,
    to_actor_id: Identity,
    rice_batch_ids: Vec<Identity>,
    amount: u64,
    payment_method: PaymentMethod,
    payment_reference: Option<String>,
    geotag_latitude: Option<String>,
    geotag_longitude: Option<String>,
    quality: Option<String>,
) -> (identity: Identity)
    requires
        old(store).inv(),
        old(store).next_id() < Identity::MAX,
    ensures
        final(store).inv(),
        identity == old(store).next_id(),
        final(store).next_id() == old(store).next_id() + 1,
        !old(store)@.contains_key(identity),
        final(store)@ == old(store)@.insert(
            identity,
            chain_transaction_created(
                identity,
                from_actor_id,
                to_actor_id,
                rice_batch_ids,
                amount,
                payment_method,
                payment_reference,
                geotag_latitude,
                geotag_longitude,
                quality,
                now,
            ),
        ),
        chain_transaction_store_wf(old(store)@) ==> chain_transaction_store_wf(final(store)@),
{
    let identity = store.next_fresh_identity();
    let record = ChainTransaction {
        public_key: identity,
        from_actor_id,
        to_actor_id,
        rice_batch_ids,
        amount,
        payment_method,
        payment_reference,
        geotag_latitude,
        geotag_longitude,
        quality,
        transaction_status: TransactionStatus::Pending,
        created_at: now,
        updated_at: now,
    };
    let issued = store.insert_fresh(record);
    proof {
        if chain_transaction_store_wf(old(store)@) {
            assert forall|k: Identity| store@.contains_key(k) implies store@[k].wf() by {
                if k != identity {
                    assert(old(store)@.contains_key(k));
                }
            }
        }
    }
    issued
}

/// Partially updates a chain transaction: overwrites exactly the supplied
/// fields, leaves every other field unchanged, and bumps the update
/// timestamp to `now`. Fails with `NotFound`, leaving the store untouched,
/// exactly when the identity does not resolve to a record.
pub fn update_chain_transaction(
    store: &mut Store<ChainTransaction>,
    identity: Identity,
    now: i64,
    amount: Option<u64>,
    payment_method: Option<PaymentMethod>,
    payment_reference: Option<String>,
    geotag_latitude: Option<String>,
    geotag_longitude: Option<String>,
    quality: Option<String>,
    transaction_status: Option<TransactionStatus>,
) -> (r: Result<(), ChainError>)
    requires
        old(store).inv(),
        old(store)@.contains_key(identity) ==> old(store)@[identity].updated_at <= now,
    ensures
        final(store).inv(),
        final(store).next_id() == old(store).next_id(),
        r is Ok <==> old(store)@.contains_key(identity),
        r is Err ==> r == Err::<(), ChainError>(ChainError::NotFound) && final(store)@ == old(
            store,
        )@,
        r is Ok ==> final(store)@ == old(store)@.insert(
            identity,
            chain_transaction_updated(
                old(store)@[identity],
                amount,
                payment_method,
                payment_reference,
                geotag_latitude,
                geotag_longitude,
                quality,
                transaction_status,
                now,
            ),
        ),
        r is Ok ==> final(store)@[identity].created_at == old(store)@[identity].created_at && old(
            store,
        )@[identity].updated_at <= final(store)@[identity].updated_at,
        chain_transaction_store_wf(old(store)@) ==> chain_transaction_store_wf(final(store)@),
{
    match store.extract(identity) {
        None => Err(ChainError::NotFound),
        Some(mut record) => {
            if let Some(v) = amount {
                record.amount = v;
            }
            if let Some(v) = payment_method {
                record.payment_method = v;
            }
            if let Some(v) = payment_reference {
                record.payment_reference = Some(v);
            }
            if let Some(v) = geotag_latitude {
                record.geotag_latitude = Some(v);
            }
            if let Some(v) = geotag_longitude {
                record.geotag_longitude = Some(v);
            }
            if let Some(v) = quality {
                record.quality = Some(v);
            }
            if let Some(v) = transaction_status {
                record.transaction_status = v;
            }
            record.updated_at = now;
            store.restore(identity, record);
            proof {
                assert(store@ =~= old(store)@.insert(identity, record));
                if chain_transaction_store_wf(old(store)@) {
                    assert forall|k: Identity| store@.contains_key(k) implies store@[k].wf() by {
                        if k != identity {
                            assert(old(store)@.contains_key(k));
                        }
                    }
                }
            }
            Ok(())
        },
    }
}

/// Terminates a chain transaction: forces the status to `Cancelled`,
/// whatever it was before, bumps the update timestamp to `now`, and
/// touches nothing else. Fails with `NotFound`, leaving the store
/// untouched, exactly when the identity does not resolve to a record.
pub fn delete_chain_transaction(
    store: &mut Store<ChainTransaction>,
    identity: Identity,
    now: i64,
) -> (r: Result<(), ChainError>)
    requires
        old(store).inv(),
        old(store)@.contains_key(identity) ==> old(store)@[identity].updated_at <= now,
    ensures
        final(store).inv(),
        final(store).next_id() == old(store).next_id(),
        r is Ok <==> old(store)@.contains_key(identity),
        r is Err ==> r == Err::<(), ChainError>(ChainError::NotFound) && final(store)@ == old(
            store,
        )@,
        r is Ok ==> final(store)@ == old(store)@.insert(
            identity,
            chain_transaction_terminated(old(store)@[identity], now),
        ),
        r is Ok ==> final(store)@[identity].transaction_status == TransactionStatus::Cancelled,
        chain_transaction_store_wf(old(store)@) ==> chain_transaction_store_wf(final(store)@),
{
    match store.extract(identity) {
        None => Err(ChainError::NotFound),
        Some(mut record) => {
            record.transaction_status = TransactionStatus::Cancelled;
            record.updated_at = now;
            store.restore(identity, record);
            proof {
                assert(store@ =~= old(store)@.insert(identity, record));
                if chain_transaction_store_wf(old(store)@) {
                    assert forall|k: Identity| store@.contains_key(k) implies store@[k].wf() by {
                        if k != identity {
                            assert(old(store)@.contains_key(k));
                        }
                    }
                }
            }
            Ok(())
        },
    }
}

} // verus!
