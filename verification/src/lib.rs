//! Ledger of agricultural supply-chain records: producing actors, growing
//! seasons, milling outputs, packaged batches, and transfers between actors.
//!
//! Each record lives under a unique identity in a keyed store that supports
//! insert-once, in-place field update, and read, but never physical removal.
//! Every record type has a creation operation that fixes its identity and
//! required fields, a partial-update operation that overwrites only the
//! fields supplied, and (for four of the five types) a termination operation
//! that forces a terminal status without removing the record.
//!
//! The host environment supplies the wall-clock timestamps handed to each
//! operation; the store itself allocates fresh identities.

pub mod errors;
pub mod lifecycle;
pub mod records;
pub mod status;
pub mod store;
