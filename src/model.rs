use vstd::prelude::*;

use crate::types::{Address, FeeType, UtilityType};

verus! {

/// A registered utility provider.
#[derive(Clone, Debug)]
pub struct UtilityProvider {
    pub provider_id: String,
    pub name: String,
    pub address: Address,
    pub utility_type: UtilityType,
    pub region: String,
    pub is_active: bool,
    pub registration_date: u64,
    pub license_number: String,
    pub contact_info: String,
    /// Rating on a 1 to 5 scale.
    pub rating: u8,
    pub total_transactions: u64,
}

/// A consumption band `[min_units, max_units]` billed at its own unit rate.
#[derive(Clone, Debug)]
pub struct TierRate {
    pub min_units: i128,
    pub max_units: i128,
    pub rate_per_unit: i128,
    pub tier_name: String,
}

/// A multiplier, in percent of the base amount, for an hour window on some weekdays.
#[derive(Clone, Debug)]
pub struct TimeOfUseRate {
    pub start_hour: u8,
    pub end_hour: u8,
    /// Weekdays, 0 to 6.
    pub days_of_week: Vec<u8>,
    /// 150 stands for 1.5 times the base amount.
    pub rate_multiplier: i128,
    pub season: String,
}

#[derive(Clone, Debug)]
pub struct SeasonalAdjustment {
    pub season: String,
    pub start_month: u8,
    pub end_month: u8,
    /// Percentage of the base rate: 110 stands for 10% more.
    pub rate_adjustment: i128,
}

#[derive(Clone, Debug)]
pub struct TaxRate {
    pub tax_name: String,
    pub rate_percentage: i128,
    /// A compounding tax applies to the base plus the compounding taxes before it.
    pub is_compound: bool,
    /// Upper bound on this tax's contribution.
    pub max_amount: Option<i128>,
}

#[derive(Clone, Debug)]
pub struct DiscountRate {
    pub discount_name: String,
    pub discount_percentage: i128,
    pub condition: String,
    pub is_active: bool,
    pub expiry_date: Option<u64>,
}

#[derive(Clone, Copy, Debug, PartialEq, Eq, Structural)]
pub struct LateFeeConfig {
    pub flat_fee: i128,
    pub percentage_fee: i128,
    pub max_fee: i128,
    pub grace_period_days: u32,
    pub compound_daily: bool,
}

/// A rate schedule of one provider in one region.
#[derive(Clone, Debug)]
pub struct UtilityConfig {
    pub utility_type: UtilityType,
    pub provider_id: String,
    pub region: String,
    pub base_rate: i128,
    pub currency: String,
    pub decimals: u32,
    pub tier_rates: Vec<TierRate>,
    pub time_of_use_rates: Vec<TimeOfUseRate>,
    pub seasonal_adjustments: Vec<SeasonalAdjustment>,
    pub tax_rates: Vec<TaxRate>,
    pub discount_rates: Vec<DiscountRate>,
    pub late_fee_config: LateFeeConfig,
    pub payment_methods: Vec<String>,
    pub billing_cycle_days: u32,
    pub grace_period_days: u32,
    pub minimum_payment: i128,
    pub maximum_payment: i128,
    pub is_active: bool,
    pub version: u32,
    pub last_updated: u64,
}

/// A fixed or percentage fee of a provider for one utility type.
#[derive(Clone, Debug)]
pub struct UtilityFee {
    pub fee_id: String,
    pub utility_type: UtilityType,
    pub provider_id: String,
    pub fee_type: FeeType,
    pub fee_amount: i128,
    pub fee_percentage: Option<i128>,
    pub is_percentage: bool,
    pub description: String,
    pub is_active: bool,
    pub created_at: u64,
}

#[derive(Clone, Debug)]
pub struct UtilityMeter {
    pub meter_id: String,
    pub utility_type: UtilityType,
    pub provider_id: String,
    pub customer_address: Address,
    pub installation_date: u64,
    pub last_reading: i128,
    pub last_reading_date: u64,
    pub is_active: bool,
    pub is_smart_meter: bool,
    pub location: String,
    pub meter_model: String,
    pub firmware_version: String,
}

/// Audit record written by each configuration upgrade.
#[derive(Clone, Debug)]
pub struct UtilityVersion {
    pub config_id: String,
    pub utility_type: UtilityType,
    pub version: u32,
    pub deployment_date: u64,
    pub is_active: bool,
    pub migration_required: bool,
    pub description: String,
}

} // verus!
