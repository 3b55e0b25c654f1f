use vstd::prelude::*;

verus! {

/// The kind of record an error refers to.
#[derive(Clone, Copy, Debug, PartialEq, Eq, Structural)]
pub enum Entity {
    Provider,
    Config,
    Meter,
    Fee,
    PriceFeed,
    UtilityRate,
    Version,
    MigrationScript,
    Backup,
    Implementation,
    User,
}

/// Every failure the engine reports. Commands fail with one of these; queries
/// return `Option` instead.
#[derive(Clone, Copy, Debug, PartialEq, Eq, Structural)]
pub enum BillingError {
    Unauthorized,
    NotFound(Entity),
    AlreadyRegistered(Entity),
    Inactive(Entity),
    TypeMismatch,
    InvalidEnum,
    ReliabilityTooLow,
    ExchangeRateUnavailable,
    BelowMinimumPayment,
    AboveMaximumPayment,
    CostExceedsLimit,
    DataTooOld,
    UnsafeUpgrade,
    Overflow,
}

pub open spec fn entity_name(e: Entity) -> Seq<char> {
    match e {
        Entity::Provider => "Provider"@,
        Entity::Config => "Configuration"@,
        Entity::Meter => "Meter"@,
        Entity::Fee => "Fee"@,
        Entity::PriceFeed => "Price feed"@,
        Entity::UtilityRate => "Utility rate"@,
        Entity::Version => "Version"@,
        Entity::MigrationScript => "Migration script"@,
        Entity::Backup => "Backup"@,
        Entity::Implementation => "Previous implementation"@,
        Entity::User => "User"@,
    }
}

impl Entity {
    pub fn name(&self) -> (r: &'static str)
        ensures
            r@ == entity_name(*self),
    {
        match self {
            Entity::Provider => "Provider",
            Entity::Config => "Configuration",
            Entity::Meter => "Meter",
            Entity::Fee => "Fee",
            Entity::PriceFeed => "Price feed",
            Entity::UtilityRate => "Utility rate",
            Entity::Version => "Version",
            Entity::MigrationScript => "Migration script",
            Entity::Backup => "Backup",
            Entity::Implementation => "Previous implementation",
            Entity::User => "User",
        }
    }
}

pub open spec fn error_text(e: BillingError) -> Seq<char> {
    match e {
        BillingError::Unauthorized => "Unauthorized"@,
        BillingError::NotFound(x) => entity_name(x) + " not found"@,
        BillingError::AlreadyRegistered(x) => entity_name(x) + " already registered"@,
        BillingError::Inactive(x) => entity_name(x) + " is not active"@,
        BillingError::TypeMismatch => "Utility type mismatch"@,
        BillingError::InvalidEnum => "Invalid enum value"@,
        BillingError::ReliabilityTooLow => "Price data reliability too low"@,
        BillingError::ExchangeRateUnavailable => "Exchange rate not available"@,
        BillingError::BelowMinimumPayment => "Amount below minimum payment"@,
        BillingError::AboveMaximumPayment => "Amount exceeds maximum payment"@,
        BillingError::CostExceedsLimit => "Cost exceeds limit per call"@,
        BillingError::DataTooOld => "Data too old"@,
        BillingError::UnsafeUpgrade => "Unsafe upgrade"@,
        BillingError::Overflow => "Arithmetic overflow"@,
    }
}

impl BillingError {
    /// A human-readable description of the error.
    pub fn message(&self) -> (r: String)
        ensures
            r@ == error_text(*self),
    {
        match self {
            BillingError::Unauthorized => String::from_str("Unauthorized"),
            BillingError::NotFound(x) => String::from_str(x.name()).concat(" not found"),
            BillingError::AlreadyRegistered(x) => String::from_str(x.name()).concat(" already registered"),
            BillingError::Inactive(x) => String::from_str(x.name()).concat(" is not active"),
            BillingError::TypeMismatch => String::from_str("Utility type mismatch"),
            BillingError::InvalidEnum => String::from_str("Invalid enum value"),
            BillingError::ReliabilityTooLow => String::from_str("Price data reliability too low"),
            BillingError::ExchangeRateUnavailable => String::from_str("Exchange rate not available"),
            BillingError::BelowMinimumPayment => String::from_str("Amount below minimum payment"),
            BillingError::AboveMaximumPayment => String::from_str("Amount exceeds maximum payment"),
            BillingError::CostExceedsLimit => String::from_str("Cost exceeds limit per call"),
            BillingError::DataTooOld => String::from_str("Data too old"),
            BillingError::UnsafeUpgrade => String::from_str("Unsafe upgrade"),
            BillingError::Overflow => String::from_str("Arithmetic overflow"),
        }
    }
}

} // verus!
