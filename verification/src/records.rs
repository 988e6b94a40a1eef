//! The five record schemas of the ledger, and the pure field semantics of
//! their lifecycle steps.
//!
//! Every record carries the identity it was created under, a creation
//! timestamp, and an update timestamp bumped on every successful mutation.
//! Cross-record links (`farm_id`, `milled_rice_id`, `rice_batch_ids`, ...)
//! are weak references by identity value only; no referential integrity is
//! enforced here.
//!
//! For each record type there is a `*_created` spec function saying exactly
//! what creation populates, a `*_updated` spec function saying exactly how a
//! partial update merges the supplied fields into a record, and — for the
//! types with a terminal status — a `*_terminated` spec function saying what
//! termination forces. The executable operations in `crate::lifecycle`
//! promise precisely these records. The `lemma_*_update_isolation` proof
//! functions state the field-isolation law: an update overwrites exactly the
//! fields supplied and leaves every other field unchanged.

use vstd::prelude::*;

use crate::status::BatchStatus;
use crate::status::Organization;
use crate::status::PaymentMethod;
use crate::status::TransactionStatus;
use crate::status::ValidationStatus;

verus! {

/// An identity: the immutable unique key a record is stored under, and the
/// value by which records reference one another.
pub type Identity = u64;

/// A producing or trading actor in the supply chain.
#[derive(Debug)]
pub struct ChainActor {
    pub public_key: Identity,
    pub name: String,
    pub actor_type: Vec<String>,
    pub farm_id: Option<Identity>,
    pub farmer_id: Option<Identity>,
    pub assigned_tps: u64,
    pub is_active: bool,
    pub balance: u64,
    pub pin: String,
    pub organization: Organization,
    pub address: Option<String>,
    pub created_at: i64,
    pub updated_at: i64,
}

/// One growing season of one farmer.
#[derive(Debug)]
pub struct ProductionSeason {
    pub public_key: Identity,
    pub farmer_id: Identity,
    pub crop_year: String,
    pub processed_yield_kg: u64,
    pub variety: Option<String>,
    pub planned_practice: Option<String>,
    pub planting_date: Option<i64>,
    pub irrigation_practice: Option<String>,
    pub fertilizer_used: Option<String>,
    pub pesticide_used: Option<String>,
    pub harvest_date: Option<i64>,
    pub total_yield_kg: Option<u64>,
    pub moisture_content: Option<u32>,
    pub carbon_smart_certified: bool,
    pub validation_status: ValidationStatus,
    pub validator_id: Option<Identity>,
    pub created_at: i64,
    pub updated_at: i64,
}

/// A milling output of one farmer.
#[derive(Debug)]
pub struct MilledRice {
    pub public_key: Identity,
    pub farmer_id: Identity,
    pub total_weight_kg: String,
    pub milling_type: String,
    pub quality: String,
    pub photo_urls: Vec<String>,
    pub moisture: u32,
    pub total_weight_processed_kg: u32,
    pub created_at: i64,
    pub updated_at: i64,
}

/// A packaged batch drawn from a milling output.
#[derive(Debug)]
pub struct RiceBatch {
    pub public_key: Identity,
    pub milled_rice_id: Identity,
    pub batch_status: BatchStatus,
    pub quality_score: u32,
    pub weight_kg: u32,
    pub qr_code: String,
    pub created_at: i64,
    pub updated_at: i64,
}

/// A transfer of batches between two actors.
#[derive(Debug)]
pub struct ChainTransaction {
    pub public_key: Identity,
    pub from_actor_id: Identity,
    pub to_actor_id: Identity,
    pub rice_batch_ids: Vec<Identity>,
    pub amount: u64,
    pub payment_method: PaymentMethod,
    pub payment_reference: Option<String>,
    pub geotag_latitude: Option<String>,
    pub geotag_longitude: Option<String>,
    pub quality: Option<String>,
    pub transaction_status: TransactionStatus,
    pub created_at: i64,
    pub updated_at: i64,
}

impl ChainActor {
    /// Timestamp well-formedness: a record is never updated before it was
    /// created.
    pub open spec fn wf(self) -> bool {
        self.created_at <= self.updated_at
    }
}

impl ProductionSeason {
    /// Timestamp well-formedness: a record is never updated before it was
    /// created.
    pub open spec fn wf(self) -> bool {
        self.created_at <= self.updated_at
    }
}

impl MilledRice {
    /// Timestamp well-formedness: a record is never updated before it was
    /// created.
    pub open spec fn wf(self) -> bool {
        self.created_at <= self.updated_at
    }
}

impl RiceBatch {
    /// Timestamp well-formedness: a record is never updated before it was
    /// created.
    pub open spec fn wf(self) -> bool {
        self.created_at <= self.updated_at
    }
}

impl ChainTransaction {
    /// Timestamp well-formedness: a record is never updated before it was
    /// created.
    pub open spec fn wf(self) -> bool {
        self.created_at <= self.updated_at
    }
}

/// The chain actor that creation populates: required fields verbatim,
/// optional fields exactly as supplied (absent stays absent), the active
/// flag raised, a zero balance, and both timestamps equal to the moment of
/// creation.
pub open spec fn chain_actor_created(
    identity: Identity,
    name: String,
    actor_type: Vec<String>,
    farm_id: Option<Identity>,
    farmer_id: Option<Identity>,
    assigned_tps: u64,
    pin: String,
    organization: Organization,
    address: Option<String>,
    now: i64,
) -> ChainActor {
    ChainActor {
        public_key: identity,
        name: name,
        actor_type: actor_type,
        farm_id: farm_id,
        farmer_id: farmer_id,
        assigned_tps: assigned_tps,
        is_active: true,
        balance: 0,
        pin: pin,
        organization: organization,
        address: address,
        created_at: now,
        updated_at: now,
    }
}

/// The chain actor after a partial update: each supplied field overwritten,
/// every field not supplied unchanged, and the update timestamp bumped to
/// the moment of the operation. Identity and creation timestamp never
/// change.
pub open spec fn chain_actor_updated(
    prev: ChainActor,
    name: Option<String>,
    actor_type: Option<Vec<String>>,
    farm_id: Option<Identity>,
    farmer_id: Option<Identity>,
    assigned_tps: Option<u64>,
    pin: Option<String>,
    organization: Option<Organization>,
    address: Option<String>,
    is_active: Option<bool>,
    balance: Option<u64>,
    now: i64,
) -> ChainActor {
    ChainActor {
        public_key: prev.public_key,
        name: match name {
            Some(v) => v,
            None => prev.name,
        },
        actor_type: match actor_type {
            Some(v) => v,
            None => prev.actor_type,
        },
        farm_id: match farm_id {
            Some(v) => Some(v),
            None => prev.farm_id,
        },
        farmer_id: match farmer_id {
            Some(v) => Some(v),
            None => prev.farmer_id,
        },
        assigned_tps: match assigned_tps {
            Some(v) => v,
            None => prev.assigned_tps,
        },
        is_active: match is_active {
            Some(v) => v,
            None => prev.is_active,
        },
        balance: match balance {
            Some(v) => v,
            None => prev.balance,
        },
        pin: match pin {
            Some(v) => v,
            None => prev.pin,
        },
        organization: match organization {
            Some(v) => v,
            None => prev.organization,
        },
        address: match address {
            Some(v) => Some(v),
            None => prev.address,
        },
        created_at: prev.created_at,
        updated_at: now,
    }
}

/// The chain actor after termination: the active flag forced low, whatever
/// it was before, the update timestamp bumped, and every other field
/// untouched.
pub open spec fn chain_actor_terminated(prev: ChainActor, now: i64) -> ChainActor {
    ChainActor { is_active: false, updated_at: now, ..prev }
}

/// The production season that creation populates: required fields verbatim,
/// optional fields exactly as supplied, validation starting at `Pending`
/// with no validator, and both timestamps equal to the moment of creation.
pub open spec fn production_season_created(
    identity: Identity,
    farmer_id: Identity,
    crop_year: String,
    processed_yield_kg: u64,
    variety: Option<String>,
    planned_practice: Option<String>,
    planting_date: Option<i64>,
    irrigation_practice: Option<String>,
    fertilizer_used: Option<String>,
    pesticide_used: Option<String>,
    harvest_date: Option<i64>,
    total_yield_kg: Option<u64>,
    moisture_content: Option<u32>,
    carbon_smart_certified: bool,
    now: i64,
) -> ProductionSeason {
    ProductionSeason {
        public_key: identity,
        farmer_id: farmer_id,
        crop_year: crop_year,
        processed_yield_kg: processed_yield_kg,
        variety: variety,
        planned_practice: planned_practice,
        planting_date: planting_date,
        irrigation_practice: irrigation_practice,
        fertilizer_used: fertilizer_used,
        pesticide_used: pesticide_used,
        harvest_date: harvest_date,
        total_yield_kg: total_yield_kg,
        moisture_content: moisture_content,
        carbon_smart_certified: carbon_smart_certified,
        validation_status: ValidationStatus::Pending,
        validator_id: None,
        created_at: now,
        updated_at: now,
    }
}

/// The production season after a partial update: each supplied field
/// overwritten, every field not supplied unchanged, and the update
/// timestamp bumped. Identity, farmer and creation timestamp never change.
pub open spec fn production_season_updated(
    prev: ProductionSeason,
    crop_year: Option<String>,
    processed_yield_kg: Option<u64>,
    variety: Option<String>,
    planned_practice: Option<String>,
    planting_date: Option<i64>,
    irrigation_practice: Option<String>,
    fertilizer_used: Option<String>,
    pesticide_used: Option<String>,
    harvest_date: Option<i64>,
    total_yield_kg: Option<u64>,
    moisture_content: Option<u32>,
    carbon_smart_certified: Option<bool>,
    validation_status: Option<ValidationStatus>,
    validator_id: Option<Identity>,
    now: i64,
) -> ProductionSeason {
    ProductionSeason {
        public_key: prev.public_key,
        farmer_id: prev.farmer_id,
        crop_year: match crop_year {
            Some(v) => v,
            None => prev.crop_year,
        },
        processed_yield_kg: match processed_yield_kg {
            Some(v) => v,
            None => prev.processed_yield_kg,
        },
        variety: match variety {
            Some(v) => Some(v),
            None => prev.variety,
        },
        planned_practice: match planned_practice {
            Some(v) => Some(v),
            None => prev.planned_practice,
        },
        planting_date: match planting_date {
            Some(v) => Some(v),
            None => prev.planting_date,
        },
        irrigation_practice: match irrigation_practice {
            Some(v) => Some(v),
            None => prev.irrigation_practice,
        },
        fertilizer_used: match fertilizer_used {
            Some(v) => Some(v),
            None => prev.fertilizer_used,
        },
        pesticide_used: match pesticide_used {
            Some(v) => Some(v),
            None => prev.pesticide_used,
        },
        harvest_date: match harvest_date {
            Some(v) => Some(v),
            None => prev.harvest_date,
        },
        total_yield_kg: match total_yield_kg {
            Some(v) => Some(v),
            None => prev.total_yield_kg,
        },
        moisture_content: match moisture_content {
            Some(v) => Some(v),
            None => prev.moisture_content,
        },
        carbon_smart_certified: match carbon_smart_certified {
            Some(v) => v,
            None => prev.carbon_smart_certified,
        },
        validation_status: match validation_status {
            Some(v) => v,
            None => prev.validation_status,
        },
        validator_id: match validator_id {
            Some(v) => Some(v),
            None => prev.validator_id,
        },
        created_at: prev.created_at,
        updated_at: now,
    }
}

/// The production season after termination: validation forced to
/// `Rejected`, whatever it was before, the update timestamp bumped, and
/// every other field untouched.
pub open spec fn production_season_terminated(prev: ProductionSeason, now: i64) -> ProductionSeason {
    ProductionSeason { validation_status: ValidationStatus::Rejected, updated_at: now, ..prev }
}

/// The milling output that creation populates: every field verbatim, both
/// timestamps equal to the moment of creation.
pub open spec fn milled_rice_created(
    identity: Identity,
    farmer_id: Identity,
    total_weight_kg: String,
    milling_type: String,
    quality: String,
    photo_urls: Vec<String>,
    moisture: u32,
    total_weight_processed_kg: u32,
    now: i64,
) -> MilledRice {
    MilledRice {
        public_key: identity,
        farmer_id: farmer_id,
        total_weight_kg: total_weight_kg,
        milling_type: milling_type,
        quality: quality,
        photo_urls: photo_urls,
        moisture: moisture,
        total_weight_processed_kg: total_weight_processed_kg,
        created_at: now,
        updated_at: now,
    }
}

/// The milling output after a partial update: each supplied field
/// overwritten, every field not supplied unchanged, and the update
/// timestamp bumped. Identity, farmer and creation timestamp never change.
pub open spec fn milled_rice_updated(
    prev: MilledRice,
    total_weight_kg: Option<String>,
    milling_type: Option<String>,
    quality: Option<String>,
    photo_urls: Option<Vec<String>>,
    moisture: Option<u32>,
    total_weight_processed_kg: Option<u32>,
    now: i64,
) -> MilledRice {
    MilledRice {
        public_key: prev.public_key,
        farmer_id: prev.farmer_id,
        total_weight_kg: match total_weight_kg {
            Some(v) => v,
            None => prev.total_weight_kg,
        },
        milling_type: match milling_type {
            Some(v) => v,
            None => prev.milling_type,
        },
        quality: match quality {
            Some(v) => v,
            None => prev.quality,
        },
        photo_urls: match photo_urls {
            Some(v) => v,
            None => prev.photo_urls,
        },
        moisture: match moisture {
            Some(v) => v,
            None => prev.moisture,
        },
        total_weight_processed_kg: match total_weight_processed_kg {
            Some(v) => v,
            None => prev.total_weight_processed_kg,
        },
        created_at: prev.created_at,
        updated_at: now,
    }
}

/// The batch that creation populates: every field verbatim — the batch
/// status is always caller-supplied, there is no default — and both
/// timestamps equal to the moment of creation.
pub open spec fn rice_batch_created(
    identity: Identity,
    milled_rice_id: Identity,
    batch_status: BatchStatus,
    quality_score: u32,
    weight_kg: u32,
    qr_code: String,
    now: i64,
) -> RiceBatch {
    RiceBatch {
        public_key: identity,
        milled_rice_id: milled_rice_id,
        batch_status: batch_status,
        quality_score: quality_score,
        weight_kg: weight_kg,
        qr_code: qr_code,
        created_at: now,
        updated_at: now,
    }
}

/// The batch after a partial update: each supplied field overwritten, every
/// field not supplied unchanged, and the update timestamp bumped. Identity,
/// source milling output and creation timestamp never change.
pub open spec fn rice_batch_updated(
    prev: RiceBatch,
    batch_status: Option<BatchStatus>,
    quality_score: Option<u32>,
    weight_kg: Option<u32>,
    qr_code: Option<String>,
    now: i64,
) -> RiceBatch {
    RiceBatch {
        public_key: prev.public_key,
        milled_rice_id: prev.milled_rice_id,
        batch_status: match batch_status {
            Some(v) => v,
            None => prev.batch_status,
        },
        quality_score: match quality_score {
            Some(v) => v,
            None => prev.quality_score,
        },
        weight_kg: match weight_kg {
            Some(v) => v,
            None => prev.weight_kg,
        },
        qr_code: match qr_code {
            Some(v) => v,
            None => prev.qr_code,
        },
        created_at: prev.created_at,
        updated_at: now,
    }
}

/// The batch after termination: status forced to `Consumed`, whatever it
/// was before, the update timestamp bumped, and every other field
/// untouched.
pub open spec fn rice_batch_terminated(prev: RiceBatch, now: i64) -> RiceBatch {
    RiceBatch { batch_status: BatchStatus::Consumed, updated_at: now, ..prev }
}

/// The transaction that creation populates: required fields verbatim,
/// optional fields exactly as supplied, the status starting at `Pending`,
/// and both timestamps equal to the moment of creation.
pub open spec fn chain_transaction_created(
    identity: Identity,
    from_actor_id: Identity,
    to_actor_id: Identity,
    rice_batch_ids: Vec<Identity>,
    amount: u64,
    payment_method: PaymentMethod,
    payment_reference: Option<String>,
    geotag_latitude: Option<String>,
    geotag_longitude: Option<String>,
    quality: Option<String>,
    now: i64,
) -> ChainTransaction {
    ChainTransaction {
        public_key: identity,
        from_actor_id: from_actor_id,
        to_actor_id: to_actor_id,
        rice_batch_ids: rice_batch_ids,
        amount: amount,
        payment_method: payment_method,
        payment_reference: payment_reference,
        geotag_latitude: geotag_latitude,
        geotag_longitude: geotag_longitude,
        quality: quality,
        transaction_status: TransactionStatus::Pending,
        created_at: now,
        updated_at: now,
    }
}

/// The transaction after a partial update: each supplied field overwritten,
/// every field not supplied unchanged, and the update timestamp bumped.
/// Identity, the two actors, the batch list and the creation timestamp
/// never change.
pub open spec fn chain_transaction_updated(
    prev: ChainTransaction,
    amount: Option<u64>,
    payment_method: Option<PaymentMethod>,
    payment_reference: Option<String>,
    geotag_latitude: Option<String>,
    geotag_longitude: Option<String>,
    quality: Option<String>,
    transaction_status: Option<TransactionStatus>,
    now: i64,
) -> ChainTransaction {
    ChainTransaction {
        public_key: prev.public_key,
        from_actor_id: prev.from_actor_id,
        to_actor_id: prev.to_actor_id,
        rice_batch_ids: prev.rice_batch_ids,
        amount: match amount {
            Some(v) => v,
            None => prev.amount,
        },
        payment_method: match payment_method {
            Some(v) => v,
            None => prev.payment_method,
        },
        payment_reference: match payment_reference {
            Some(v) => Some(v),
            None => prev.payment_reference,
        },
        geotag_latitude: match geotag_latitude {
            Some(v) => Some(v),
            None => prev.geotag_latitude,
        },
        geotag_longitude: match geotag_longitude {
            Some(v) => Some(v),
            None => prev.geotag_longitude,
        },
        quality: match quality {
            Some(v) => Some(v),
            None => prev.quality,
        },
        transaction_status: match transaction_status {
            Some(v) => v,
            None => prev.transaction_status,
        },
        created_at: prev.created_at,
        updated_at: now,
    }
}

/// The transaction after termination: status forced to `Cancelled`,
/// whatever it was before, the update timestamp bumped, and every other
/// field untouched.
pub open spec fn chain_transaction_terminated(prev: ChainTransaction, now: i64) -> ChainTransaction {
    ChainTransaction { transaction_status: TransactionStatus::Cancelled, updated_at: now, ..prev }
}

/// Update field-isolation law for chain actors: for any record and any
/// partial update, each supplied field is overwritten with its supplied
/// value, each field not supplied is unchanged, the identity and creation
/// timestamp never change, and the update timestamp becomes the moment of
/// the operation.
pub proof fn lemma_chain_actor_update_isolation(
    prev: ChainActor,
    name: Option<String>,
    actor_type: Option<Vec<String>>,
    farm_id: Option<Identity>,
    farmer_id: Option<Identity>,
    assigned_tps: Option<u64>,
    pin: Option<String>,
    organization: Option<Organization>,
    address: Option<String>,
    is_active: Option<bool>,
    balance: Option<u64>,
    now: i64,
)
    ensures
        ({
            let r = chain_actor_updated(
                prev,
                name,
                actor_type,
                farm_id,
                farmer_id,
                assigned_tps,
                pin,
                organization,
                address,
                is_active,
                balance,
                now,
            );
            &&& r.public_key == prev.public_key
            &&& r.created_at == prev.created_at
            &&& r.updated_at == now
            &&& r.name == (match name {
                Some(v) => v,
                None => prev.name,
            })
            &&& r.actor_type == (match actor_type {
                Some(v) => v,
                None => prev.actor_type,
            })
            &&& r.farm_id == (match farm_id {
                Some(v) => Some(v),
                None => prev.farm_id,
            })
            &&& r.farmer_id == (match farmer_id {
                Some(v) => Some(v),
                None => prev.farmer_id,
            })
            &&& r.assigned_tps == (match assigned_tps {
                Some(v) => v,
                None => prev.assigned_tps,
            })
            &&& r.pin == (match pin {
                Some(v) => v,
                None => prev.pin,
            })
            &&& r.organization == (match organization {
                Some(v) => v,
                None => prev.organization,
            })
            &&& r.address == (match address {
                Some(v) => Some(v),
                None => prev.address,
            })
            &&& r.is_active == (match is_active {
                Some(v) => v,
                None => prev.is_active,
            })
            &&& r.balance == (match balance {
                Some(v) => v,
                None => prev.balance,
            })
        }),
{
}

/// Update field-isolation law for production seasons: for any record and
/// any partial update, each supplied field is overwritten with its supplied
/// value, each field not supplied is unchanged, the identity, farmer and
/// creation timestamp never change, and the update timestamp becomes the
/// moment of the operation.
pub proof fn lemma_production_season_update_isolation(
    prev: ProductionSeason,
    crop_year: Option<String>,
    processed_yield_kg: Option<u64>,
    variety: Option<String>,
    planned_practice: Option<String>,
    planting_date: Option<i64>,
    irrigation_practice: Option<String>,
    fertilizer_used: Option<String>,
    pesticide_used: Option<String>,
    harvest_date: Option<i64>,
    total_yield_kg: Option<u64>,
    moisture_content: Option<u32>,
    carbon_smart_certified: Option<bool>,
    validation_status: Option<ValidationStatus>,
    validator_id: Option<Identity>,
    now: i64,
)
    ensures
        ({
            let r = production_season_updated(
                prev,
                crop_year,
                processed_yield_kg,
                variety,
                planned_practice,
                planting_date,
                irrigation_practice,
                fertilizer_used,
                pesticide_used,
                harvest_date,
                total_yield_kg,
                moisture_content,
                carbon_smart_certified,
                validation_status,
                validator_id,
                now,
            );
            &&& r.public_key == prev.public_key
            &&& r.farmer_id == prev.farmer_id
            &&& r.created_at == prev.created_at
            &&& r.updated_at == now
            &&& r.crop_year == (match crop_year {
                Some(v) => v,
                None => prev.crop_year,
            })
            &&& r.processed_yield_kg == (match processed_yield_kg {
                Some(v) => v,
                None => prev.processed_yield_kg,
            })
            &&& r.variety == (match variety {
                Some(v) => Some(v),
                None => prev.variety,
            })
            &&& r.planned_practice == (match planned_practice {
                Some(v) => Some(v),
                None => prev.planned_practice,
            })
            &&& r.planting_date == (match planting_date {
                Some(v) => Some(v),
                None => prev.planting_date,
            })
            &&& r.irrigation_practice == (match irrigation_practice {
                Some(v) => Some(v),
                None => prev.irrigation_practice,
            })
            &&& r.fertilizer_used == (match fertilizer_used {
                Some(v) => Some(v),
                None => prev.fertilizer_used,
            })
            &&& r.pesticide_used == (match pesticide_used {
                Some(v) => Some(v),
                None => prev.pesticide_used,
            })
            &&& r.harvest_date == (match harvest_date {
                Some(v) => Some(v),
                None => prev.harvest_date,
            })
            &&& r.total_yield_kg == (match total_yield_kg {
                Some(v) => Some(v),
                None => prev.total_yield_kg,
            })
            &&& r.moisture_content == (match moisture_content {
                Some(v) => Some(v),
                None => prev.moisture_content,
            })
            &&& r.carbon_smart_certified == (match carbon_smart_certified {
                Some(v) => v,
                None => prev.carbon_smart_certified,
            })
            &&& r.validation_status == (match validation_status {
                Some(v) => v,
                None => prev.validation_status,
            })
            &&& r.validator_id == (match validator_id {
                Some(v) => Some(v),
                None => prev.validator_id,
            })
        }),
{
}

/// Update field-isolation law for milling outputs: for any record and any
/// partial update, each supplied field is overwritten with its supplied
/// value, each field not supplied is unchanged, the identity, farmer and
/// creation timestamp never change, and the update timestamp becomes the
/// moment of the operation.
pub proof fn lemma_milled_rice_update_isolation(
    prev: MilledRice,
    total_weight_kg: Option<String>,
    milling_type: Option<String>,
    quality: Option<String>,
    photo_urls: Option<Vec<String>>,
    moisture: Option<u32>,
    total_weight_processed_kg: Option<u32>,
    now: i64,
)
    ensures
        ({
            let r = milled_rice_updated(
                prev,
                total_weight_kg,
                milling_type,
                quality,
                photo_urls,
                moisture,
                total_weight_processed_kg,
                now,
            );
            &&& r.public_key == prev.public_key
            &&& r.farmer_id == prev.farmer_id
            &&& r.created_at == prev.created_at
            &&& r.updated_at == now
            &&& r.total_weight_kg == (match total_weight_kg {
                Some(v) => v,
                None => prev.total_weight_kg,
            })
            &&& r.milling_type == (match milling_type {
                Some(v) => v,
                None => prev.milling_type,
            })
            &&& r.quality == (match quality {
                Some(v) => v,
                None => prev.quality,
            })
            &&& r.photo_urls == (match photo_urls {
                Some(v) => v,
                None => prev.photo_urls,
            })
            &&& r.moisture == (match moisture {
                Some(v) => v,
                None => prev.moisture,
            })
            &&& r.total_weight_processed_kg == (match total_weight_processed_kg {
                Some(v) => v,
                None => prev.total_weight_processed_kg,
            })
        }),
{
}

/// Update field-isolation law for rice batches: for any record and any
/// partial update, each supplied field is overwritten with its supplied
/// value, each field not supplied is unchanged, the identity, source
/// milling output and creation timestamp never change, and the update
/// timestamp becomes the moment of the operation.
pub proof fn lemma_rice_batch_update_isolation(
    prev: RiceBatch,
    batch_status: Option<BatchStatus>,
    quality_score: Option<u32>,
    weight_kg: Option<u32>,
    qr_code: Option<String>,
    now: i64,
)
    ensures
        ({
            let r = rice_batch_updated(prev, batch_status, quality_score, weight_kg, qr_code, now);
            &&& r.public_key == prev.public_key
            &&& r.milled_rice_id == prev.milled_rice_id
            &&& r.created_at == prev.created_at
            &&& r.updated_at == now
            &&& r.batch_status == (match batch_status {
                Some(v) => v,
                None => prev.batch_status,
            })
            &&& r.quality_score == (match quality_score {
                Some(v) => v,
                None => prev.quality_score,
            })
            &&& r.weight_kg == (match weight_kg {
                Some(v) => v,
                None => prev.weight_kg,
            })
            &&& r.qr_code == (match qr_code {
                Some(v) => v,
                None => prev.qr_code,
            })
        }),
{
}

/// Update field-isolation law for chain transactions: for any record and
/// any partial update, each supplied field is overwritten with its
/// supplied value, each field not supplied is unchanged, the identity, the
/// two actors, the batch list and the creation timestamp never change, and
/// the update timestamp becomes the moment of the operation.
pub proof fn lemma_chain_transaction_update_isolation(
    prev: ChainTransaction,
    amount: Option<u64>,
    payment_method: Option<PaymentMethod>,
    payment_reference: Option<String>,
    geotag_latitude: Option<String>,
    geotag_longitude: Option<String>,
    quality: Option<String>,
    transaction_status: Option<TransactionStatus>,
    now: i64,
)
    ensures
        ({
            let r = chain_transaction_updated(
                prev,
                amount,
                payment_method,
                payment_reference,
                geotag_latitude,
                geotag_longitude,
                quality,
                transaction_status,
                now,
            );
            &&& r.public_key == prev.public_key
            &&& r.from_actor_id == prev.from_actor_id
            &&& r.to_actor_id == prev.to_actor_id
            &&& r.rice_batch_ids == prev.rice_batch_ids
            &&& r.created_at == prev.created_at
            &&& r.updated_at == now
            &&& r.amount == (match amount {
                Some(v) => v,
                None => prev.amount,
            })
            &&& r.payment_method == (match payment_method {
                Some(v) => v,
                None => prev.payment_method,
            })
            &&& r.payment_reference == (match payment_reference {
                Some(v) => Some(v),
                None => prev.payment_reference,
            })
            &&& r.geotag_latitude == (match geotag_latitude {
                Some(v) => Some(v),
                None => prev.geotag_latitude,
            })
            &&& r.geotag_longitude == (match geotag_longitude {
                Some(v) => Some(v),
                None => prev.geotag_longitude,
            })
            &&& r.quality == (match quality {
                Some(v) => Some(v),
                None => prev.quality,
            })
            &&& r.transaction_status == (match transaction_status {
                Some(v) => v,
                None => prev.transaction_status,
            })
        }),
{
}

/// Termination-forcing law for chain actors: termination lowers the active
/// flag whatever its prior value, bumps only the update timestamp, and
/// leaves every other field untouched.
pub proof fn lemma_chain_actor_termination_forcing(prev: ChainActor, now: i64)
    ensures
        chain_actor_terminated(prev, now).is_active == false,
        chain_actor_terminated(prev, now).updated_at == now,
        chain_actor_terminated(prev, now) == (ChainActor {
            is_active: false,
            updated_at: now,
            ..prev
        }),
{
}

/// Termination-forcing law for production seasons: termination forces the
/// validation status to `Rejected` whatever its prior value, bumps only
/// the update timestamp, and leaves every other field untouched.
pub proof fn lemma_production_season_termination_forcing(prev: ProductionSeason, now: i64)
    ensures
        production_season_terminated(prev, now).validation_status == ValidationStatus::Rejected,
        production_season_terminated(prev, now).updated_at == now,
        production_season_terminated(prev, now) == (ProductionSeason {
            validation_status: ValidationStatus::Rejected,
            updated_at: now,
            ..prev
        }),
{
}

/// Termination-forcing law for rice batches: termination forces the batch
/// status to `Consumed` whatever its prior value, bumps only the update
/// timestamp, and leaves every other field untouched.
pub proof fn lemma_rice_batch_termination_forcing(prev: RiceBatch, now: i64)
    ensures
        rice_batch_terminated(prev, now).batch_status == BatchStatus::Consumed,
        rice_batch_terminated(prev, now).updated_at == now,
        rice_batch_terminated(prev, now) == (RiceBatch {
            batch_status: BatchStatus::Consumed,
            updated_at: now,
            ..prev
        }),
{
}

/// Termination-forcing law for chain transactions: termination forces the
/// status to `Cancelled` whatever its prior value, bumps only the update
/// timestamp, and leaves every other field untouched.
pub proof fn lemma_chain_transaction_termination_forcing(prev: ChainTransaction, now: i64)
    ensures
        chain_transaction_terminated(prev, now).transaction_status == TransactionStatus::Cancelled,
        chain_transaction_terminated(prev, now).updated_at == now,
        chain_transaction_terminated(prev, now) == (ChainTransaction {
            transaction_status: TransactionStatus::Cancelled,
            updated_at: now,
            ..prev
        }),
{
}

} // verus!
