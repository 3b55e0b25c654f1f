//! Utility-billing engine: rate registry, external price store with its
//! reliability and staleness check, and the billing pipeline that turns a
//! consumption reading into a payable amount.

pub mod billing;
pub mod error;
pub mod laws;
pub mod model;
pub mod oracle;
pub mod pricing;
pub mod registry;
pub mod table;
pub mod types;
pub mod upgrade;
pub mod users;

pub use billing::{BillQuote, BillingRecord, NepaBillingContract, UtilityBillRecord};
pub use error::{BillingError, Entity};
pub use model::{
    DiscountRate, LateFeeConfig, SeasonalAdjustment, TaxRate, TierRate, TimeOfUseRate,
    UtilityConfig, UtilityFee, UtilityMeter, UtilityProvider, UtilityVersion,
};
pub use oracle::{OracleConfig, OracleCost, OracleManager, OracleReliability, PriceFeed, UtilityRate};
pub use registry::MultiUtilityManager;
pub use types::{Address, FeeType, UtilityType};
pub use upgrade::{ContractVersion, DataMigration, MigrationScript, UpgradeProxy, VersionManager};
pub use users::{UserManagement, UserProfile, UserRole};
