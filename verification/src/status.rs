//! The enum vocabulary of the ledger: the organization role of an actor, the
//! three status state machines, and the payment methods.
//!
//! No transition-adjacency table is enforced between status values: an update
//! may set a status field to any member of its enum. The ledger provides the
//! vocabulary of states and the terminal values forced by termination;
//! transition-legality policy belongs to a higher layer.
//!
//! Each enum also has a raw-code decoder for the host boundary, where a
//! serialized value outside the defined set must be rejected with
//! `InvalidEnumValue` rather than reach the ledger.

use vstd::prelude::*;

use crate::errors::ChainError;

verus! {

/// The role a chain actor plays in the supply chain. Required at creation;
/// there is no "unset" role.
#[derive(Clone, Copy, Debug, PartialEq, Eq, Structural)]
pub enum Organization {
    Farmer,
    Miller,
    Distributor,
    Retailer,
    Government,
    Cooperative,
}

/// Validation lifecycle of a production season. Starts at `Pending`;
/// termination forces `Rejected`.
#[derive(Clone, Copy, Debug, PartialEq, Eq, Structural)]
pub enum ValidationStatus {
    Pending,
    Approved,
    Rejected,
}

/// Lifecycle of a rice batch. Supplied explicitly at creation (no default);
/// termination forces `Consumed`.
#[derive(Clone, Copy, Debug, PartialEq, Eq, Structural)]
pub enum BatchStatus {
    Created,
    InTransit,
    Delivered,
    Consumed,
}

/// How a chain transaction is paid.
#[derive(Clone, Copy, Debug, PartialEq, Eq, Structural)]
pub enum PaymentMethod {
    Cash,
    BankTransfer,
    DigitalWallet,
    Cryptocurrency,
    Credit,
}

/// Lifecycle of a chain transaction. Starts at `Pending`; termination forces
/// `Cancelled`.
#[derive(Clone, Copy, Debug, PartialEq, Eq, Structural)]
pub enum TransactionStatus {
    Pending,
    Completed,
    Failed,
    Cancelled,
}

/// Decodes a raw organization code from the host boundary.
pub fn organization_from_code(code: u8) -> (r: Result<Organization, ChainError>)
    ensures
        code == 0 ==> r == Ok::<Organization, ChainError>(Organization::Farmer),
        code == 1 ==> r == Ok::<Organization, ChainError>(Organization::Miller),
        code == 2 ==> r == Ok::<Organization, ChainError>(Organization::Distributor),
        code == 3 ==> r == Ok::<Organization, ChainError>(Organization::Retailer),
        code == 4 ==> r == Ok::<Organization, ChainError>(Organization::Government),
        code == 5 ==> r == Ok::<Organization, ChainError>(Organization::Cooperative),
        code > 5 ==> r == Err::<Organization, ChainError>(ChainError::InvalidEnumValue),
{
    match code {
        0 => Ok(Organization::Farmer),
        1 => Ok(Organization::Miller),
        2 => Ok(Organization::Distributor),
        3 => Ok(Organization::Retailer),
        4 => Ok(Organization::Government),
        5 => Ok(Organization::Cooperative),
        _ => Err(ChainError::InvalidEnumValue),
    }
}

/// Decodes a raw validation-status code from the host boundary.
pub fn validation_status_from_code(code: u8) -> (r: Result<ValidationStatus, ChainError>)
    ensures
        code == 0 ==> r == Ok::<ValidationStatus, ChainError>(ValidationStatus::Pending),
        code == 1 ==> r == Ok::<ValidationStatus, ChainError>(ValidationStatus::Approved),
        code == 2 ==> r == Ok::<ValidationStatus, ChainError>(ValidationStatus::Rejected),
        code > 2 ==> r == Err::<ValidationStatus, ChainError>(ChainError::InvalidEnumValue),
{
    match code {
        0 => Ok(ValidationStatus::Pending),
        1 => Ok(ValidationStatus::Approved),
        2 => Ok(ValidationStatus::Rejected),
        _ => Err(ChainError::InvalidEnumValue),
    }
}

/// Decodes a raw batch-status code from the host boundary.
pub fn batch_status_from_code(code: u8) -> (r: Result<BatchStatus, ChainError>)
    ensures
        code == 0 ==> r == Ok::<BatchStatus, ChainError>(BatchStatus::Created),
        code == 1 ==> r == Ok::<BatchStatus, ChainError>(BatchStatus::InTransit),
        code == 2 ==> r == Ok::<BatchStatus, ChainError>(BatchStatus::Delivered),
        code == 3 ==> r == Ok::<BatchStatus, ChainError>(BatchStatus::Consumed),
        code > 3 ==> r == Err::<BatchStatus, ChainError>(ChainError::InvalidEnumValue),
{
    match code {
        0 => Ok(BatchStatus::Created),
        1 => Ok(BatchStatus::InTransit),
        2 => Ok(BatchStatus::Delivered),
        3 => Ok(BatchStatus::Consumed),
        _ => Err(ChainError::InvalidEnumValue),
    }
}

/// Decodes a raw payment-method code from the host boundary.
pub fn payment_method_from_code(code: u8) -> (r: Result<PaymentMethod, ChainError>)
    ensures
        code == 0 ==> r == Ok::<PaymentMethod, ChainError>(PaymentMethod::Cash),
        code == 1 ==> r == Ok::<PaymentMethod, ChainError>(PaymentMethod::BankTransfer),
        code == 2 ==> r == Ok::<PaymentMethod, ChainError>(PaymentMethod::DigitalWallet),
        code == 3 ==> r == Ok::<PaymentMethod, ChainError>(PaymentMethod::Cryptocurrency),
        code == 4 ==> r == Ok::<PaymentMethod, ChainError>(PaymentMethod::Credit),
        code > 4 ==> r == Err::<PaymentMethod, ChainError>(ChainError::InvalidEnumValue),
{
    match code {
        0 => Ok(PaymentMethod::Cash),
        1 => Ok(PaymentMethod::BankTransfer),
        2 => Ok(PaymentMethod::DigitalWallet),
        3 => Ok(PaymentMethod::Cryptocurrency),
        4 => Ok(PaymentMethod::Credit),
        _ => Err(ChainError::InvalidEnumValue),
    }
}

/// Decodes a raw transaction-status code from the host boundary.
pub fn transaction_status_from_code(code: u8) -> (r: Result<TransactionStatus, ChainError>)
    ensures
        code == 0 ==> r == Ok::<TransactionStatus, ChainError>(TransactionStatus::Pending),
        code == 1 ==> r == Ok::<TransactionStatus, ChainError>(TransactionStatus::Completed),
        code == 2 ==> r == Ok::<TransactionStatus, ChainError>(TransactionStatus::Failed),
        code == 3 ==> r == Ok::<TransactionStatus, ChainError>(TransactionStatus::Cancelled),
        code > 3 ==> r == Err::<TransactionStatus, ChainError>(ChainError::InvalidEnumValue),
{
    match code {
        0 => Ok(TransactionStatus::Pending),
        1 => Ok(TransactionStatus::Completed),
        2 => Ok(TransactionStatus::Failed),
        3 => Ok(TransactionStatus::Cancelled),
        _ => Err(ChainError::InvalidEnumValue),
    }
}

} // verus!
