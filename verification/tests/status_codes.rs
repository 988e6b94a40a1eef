use rice_supply_chain::errors::ChainError;
use rice_supply_chain::status::batch_status_from_code;
use rice_supply_chain::status::organization_from_code;
use rice_supply_chain::status::payment_method_from_code;
use rice_supply_chain::status::transaction_status_from_code;
use rice_supply_chain::status::validation_status_from_code;
use rice_supply_chain::status::BatchStatus;
use rice_supply_chain::status::Organization;
use rice_supply_chain::status::PaymentMethod;
use rice_supply_chain::status::TransactionStatus;
use rice_supply_chain::status::ValidationStatus;

#[test]
fn organization_codes_decode() {
    assert_eq!(organization_from_code(0), Ok(Organization::Farmer));
    assert_eq!(organization_from_code(1), Ok(Organization::Miller));
    assert_eq!(organization_from_code(2), Ok(Organization::Distributor));
    assert_eq!(organization_from_code(3), Ok(Organization::Retailer));
    assert_eq!(organization_from_code(4), Ok(Organization::Government));
    assert_eq!(organization_from_code(5), Ok(Organization::Cooperative));
    assert_eq!(organization_from_code(6), Err(ChainError::InvalidEnumValue));
    assert_eq!(organization_from_code(255), Err(ChainError::InvalidEnumValue));
}

#[test]
fn validation_status_codes_decode() {
    assert_eq!(validation_status_from_code(0), Ok(ValidationStatus::Pending));
    assert_eq!(validation_status_from_code(1), Ok(ValidationStatus::Approved));
    assert_eq!(validation_status_from_code(2), Ok(ValidationStatus::Rejected));
    assert_eq!(validation_status_from_code(3), Err(ChainError::InvalidEnumValue));
}

#[test]
fn batch_status_codes_decode() {
    assert_eq!(batch_status_from_code(0), Ok(BatchStatus::Created));
    assert_eq!(batch_status_from_code(1), Ok(BatchStatus::InTransit));
    assert_eq!(batch_status_from_code(2), Ok(BatchStatus::Delivered));
    assert_eq!(batch_status_from_code(3), Ok(BatchStatus::Consumed));
    assert_eq!(batch_status_from_code(4), Err(ChainError::InvalidEnumValue));
}

#[test]
fn payment_method_codes_decode() {
    assert_eq!(payment_method_from_code(0), Ok(PaymentMethod::Cash));
    assert_eq!(payment_method_from_code(1), Ok(PaymentMethod::BankTransfer));
    assert_eq!(payment_method_from_code(2), Ok(PaymentMethod::DigitalWallet));
    assert_eq!(payment_method_from_code(3), Ok(PaymentMethod::Cryptocurrency));
    assert_eq!(payment_method_from_code(4), Ok(PaymentMethod::Credit));
    assert_eq!(payment_method_from_code(5), Err(ChainError::InvalidEnumValue));
}

#[test]
fn transaction_status_codes_decode() {
    assert_eq!(transaction_status_from_code(0), Ok(TransactionStatus::Pending));
    assert_eq!(transaction_status_from_code(1), Ok(TransactionStatus::Completed));
    assert_eq!(transaction_status_from_code(2), Ok(TransactionStatus::Failed));
    assert_eq!(transaction_status_from_code(3), Ok(TransactionStatus::Cancelled));
    assert_eq!(transaction_status_from_code(4), Err(ChainError::InvalidEnumValue));
}
