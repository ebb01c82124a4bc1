use vstd::prelude::*;

verus! {

/// Why an operation was refused. A refused operation changes nothing.
#[derive(Clone, Copy, Debug, PartialEq, Eq, Structural)]
pub enum ErrorCode {
    ProjectNotVerified,
    ExceedsVerifiedCapacity,
    ProjectAlreadyProcessed,
    VerifierNotActive,
    InvalidQualityRating,
    ExceedsAvailableQuantity,
    InvalidEcosystemType,
    InsufficientMonitoringData,
    InvalidCarbonMeasurement,
    ComplianceValidationFailed,
    InsufficientCredits,
    /// A record already lies at the address where one was to be created.
    AddressAlreadyInUse,
    /// The registry was set up before.
    AlreadyInitialized,
    /// No record lies at an address that the operation names.
    AccountNotInitialized,
    /// The record at an address is of another kind than the operation needs.
    AccountDiscriminatorMismatch,
    /// An address that the operation names is not the one derived from its keys.
    ConstraintSeeds,
    /// The party that acts is not the one that the record names.
    ConstraintHasOne,
    /// A record is larger than the room kept for its kind.
    AccountDidNotSerialize,
    /// A counter would pass the largest number it can hold.
    ArithmeticOverflow,
}

impl ErrorCode {
    /// The text of each error, for contracts.
    pub open spec fn spec_message(self) -> Seq<char> {
        match self {
            ErrorCode::ProjectNotVerified => "Project is not verified"@,
            ErrorCode::ExceedsVerifiedCapacity => "Amount exceeds verified carbon capacity"@,
            ErrorCode::ProjectAlreadyProcessed => "Project has already been processed"@,
            ErrorCode::VerifierNotActive => "Verifier is not active"@,
            ErrorCode::InvalidQualityRating => "Invalid quality rating (must be 1-5)"@,
            ErrorCode::ExceedsAvailableQuantity => "Exceeds available quantity"@,
            ErrorCode::InvalidEcosystemType => "Invalid ecosystem type"@,
            ErrorCode::InsufficientMonitoringData => "Insufficient monitoring data"@,
            ErrorCode::InvalidCarbonMeasurement => "Invalid carbon measurement"@,
            ErrorCode::ComplianceValidationFailed => "Compliance validation failed"@,
            ErrorCode::InsufficientCredits => "Not enough credits to trade."@,
            ErrorCode::AddressAlreadyInUse => "Address is already in use"@,
            ErrorCode::AlreadyInitialized => "Registry is already initialized"@,
            ErrorCode::AccountNotInitialized => "Account is not initialized"@,
            ErrorCode::AccountDiscriminatorMismatch => "Account is of another kind"@,
            ErrorCode::ConstraintSeeds => "Address does not match its seeds"@,
            ErrorCode::ConstraintHasOne => "Caller is not the party the record names"@,
            ErrorCode::AccountDidNotSerialize => "Record exceeds its maximum size"@,
            ErrorCode::ArithmeticOverflow => "Counter overflow"@,
        }
    }

    /// The text that describes the error.
    pub fn message(&self) -> (r: &'static str)
        ensures
            r@ == self.spec_message(),
    {
        match self {
            ErrorCode::ProjectNotVerified => "Project is not verified",
            ErrorCode::ExceedsVerifiedCapacity => "Amount exceeds verified carbon capacity",
            ErrorCode::ProjectAlreadyProcessed => "Project has already been processed",
            ErrorCode::VerifierNotActive => "Verifier is not active",
            ErrorCode::InvalidQualityRating => "Invalid quality rating (must be 1-5)",
            ErrorCode::ExceedsAvailableQuantity => "Exceeds available quantity",
            ErrorCode::InvalidEcosystemType => "Invalid ecosystem type",
            ErrorCode::InsufficientMonitoringData => "Insufficient monitoring data",
            ErrorCode::InvalidCarbonMeasurement => "Invalid carbon measurement",
            ErrorCode::ComplianceValidationFailed => "Compliance validation failed",
            ErrorCode::InsufficientCredits => "Not enough credits to trade.",
            ErrorCode::AddressAlreadyInUse => "Address is already in use",
            ErrorCode::AlreadyInitialized => "Registry is already initialized",
            ErrorCode::AccountNotInitialized => "Account is not initialized",
            ErrorCode::AccountDiscriminatorMismatch => "Account is of another kind",
            ErrorCode::ConstraintSeeds => "Address does not match its seeds",
            ErrorCode::ConstraintHasOne => "Caller is not the party the record names",
            ErrorCode::AccountDidNotSerialize => "Record exceeds its maximum size",
            ErrorCode::ArithmeticOverflow => "Counter overflow",
        }
    }
}

} // verus!
