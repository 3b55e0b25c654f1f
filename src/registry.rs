use vstd::prelude::*;

use crate::error::{BillingError, Entity};
use crate::model::{
    LateFeeConfig, UtilityConfig, UtilityFee, UtilityMeter, UtilityProvider, UtilityVersion,
};
use crate::pricing::{amount_result, fee_amount_of, fee_sum, lemma_fee_sum_stays_none};
use crate::table::{entries_map, Table};
use crate::types::{
    fee_type_of, utility_type_of, valid_utility_code, Address, FeeType, UtilityType,
};

verus! {

/// Rating a provider starts with: the middle of the 1 to 5 scale.
pub const NEUTRAL_RATING: u8 = 3;

pub const DEFAULT_LATE_FLAT_FEE: i128 = 1000000;

pub const DEFAULT_LATE_PERCENTAGE_FEE: i128 = 500;

pub const DEFAULT_LATE_MAX_FEE: i128 = 10000000;

pub open spec fn new_provider(
    provider_id: String,
    name: String,
    address: Address,
    utility_type: u8,
    region: String,
    license_number: String,
    contact_info: String,
    now: u64,
) -> UtilityProvider {
    UtilityProvider {
        provider_id,
        name,
        address,
        utility_type: utility_type_of(utility_type),
        region,
        is_active: true,
        registration_date: now,
        license_number,
        contact_info,
        rating: NEUTRAL_RATING,
        total_transactions: 0,
    }
}

pub open spec fn default_late_fee(grace_period_days: u32) -> LateFeeConfig {
    LateFeeConfig {
        flat_fee: DEFAULT_LATE_FLAT_FEE,
        percentage_fee: DEFAULT_LATE_PERCENTAGE_FEE,
        max_fee: DEFAULT_LATE_MAX_FEE,
        grace_period_days,
        compound_daily: false,
    }
}

/// Whether `rec` is the audit record of upgrading configuration `config_id`
/// from `old_config` at `now`.
pub open spec fn is_upgrade_record(
    rec: UtilityVersion,
    config_id: Seq<char>,
    old_config: UtilityConfig,
    now: u64,
) -> bool {
    &&& rec.config_id@ == config_id
    &&& rec.utility_type == old_config.utility_type
    &&& rec.version == old_config.version + 1
    &&& rec.deployment_date == now
    &&& rec.is_active
    &&& rec.migration_required
    &&& rec.description@ == "Configuration upgrade"@
}

/// Whether a provider shows up in a listing by type and region.
pub open spec fn listed(p: UtilityProvider, utility_type: UtilityType, region: Seq<char>) -> bool {
    p.utility_type == utility_type && p.region@ == region && p.is_active
}

/// The catalogue of providers, configurations, meters and fees, with the audit
/// log of configuration upgrades.
pub struct MultiUtilityManager {
    admin: Address,
    providers: Table<UtilityProvider>,
    configs: Table<UtilityConfig>,
    meters: Table<UtilityMeter>,
    fees: Table<UtilityFee>,
    versions: Vec<UtilityVersion>,
}

impl MultiUtilityManager {
    pub closed spec fn admin(&self) -> Address {
        self.admin
    }

    pub closed spec fn provider_entries(&self) -> Seq<(String, UtilityProvider)> {
        self.providers.seq()
    }

    pub closed spec fn config_entries(&self) -> Seq<(String, UtilityConfig)> {
        self.configs.seq()
    }

    pub closed spec fn meter_entries(&self) -> Seq<(String, UtilityMeter)> {
        self.meters.seq()
    }

    pub closed spec fn fee_entries(&self) -> Seq<(String, UtilityFee)> {
        self.fees.seq()
    }

    /// The configuration upgrades so far, oldest first.
    pub closed spec fn version_log(&self) -> Seq<UtilityVersion> {
        self.versions@
    }

    pub closed spec fn wf(&self) -> bool {
        self.providers.wf() && self.configs.wf() && self.meters.wf() && self.fees.wf()
    }

    pub open spec fn providers(&self) -> Map<Seq<char>, UtilityProvider> {
        entries_map(self.provider_entries())
    }

    pub open spec fn configs(&self) -> Map<Seq<char>, UtilityConfig> {
        entries_map(self.config_entries())
    }

    pub open spec fn meters(&self) -> Map<Seq<char>, UtilityMeter> {
        entries_map(self.meter_entries())
    }

    pub open spec fn fees(&self) -> Map<Seq<char>, UtilityFee> {
        entries_map(self.fee_entries())
    }

    /// Only the providers differ between `self` and `o`.
    pub open spec fn same_but_providers(&self, o: MultiUtilityManager) -> bool {
        &&& self.admin() == o.admin()
        &&& self.config_entries() == o.config_entries()
        &&& self.meter_entries() == o.meter_entries()
        &&& self.fee_entries() == o.fee_entries()
        &&& self.version_log() == o.version_log()
    }

    /// Only the configurations and the audit log differ between `self` and `o`.
    pub open spec fn same_but_configs(&self, o: MultiUtilityManager) -> bool {
        &&& self.admin() == o.admin()
        &&& self.provider_entries() == o.provider_entries()
        &&& self.meter_entries() == o.meter_entries()
        &&& self.fee_entries() == o.fee_entries()
    }

    /// Providers listed for a utility type and region, in registration order.
    pub open spec fn listing(&self, utility_type: UtilityType, region: Seq<char>) -> Seq<
        UtilityProvider,
    > {
        self.provider_entries().map_values(|e: (String, UtilityProvider)| e.1).filter(
            |p: UtilityProvider| listed(p, utility_type, region),
        )
    }

    /// Sum of the fees that apply to a bill of this provider and utility type.
    pub open spec fn fees_due(&self, provider_id: Seq<char>, utility_type: UtilityType, pre_fee: int) -> Option<int> {
        fee_sum(self.fee_entries(), provider_id, utility_type, pre_fee, self.fee_entries().len())
    }

    /// A new, empty registry administered by `admin`.
    pub fn initialize(admin: Address) -> (r: MultiUtilityManager)
        ensures
            r.wf(),
            r.admin() == admin,
            r.provider_entries().len() == 0,
            r.providers() == Map::<Seq<char>, UtilityProvider>::empty(),
            r.configs() == Map::<Seq<char>, UtilityConfig>::empty(),
            r.meters() == Map::<Seq<char>, UtilityMeter>::empty(),
            r.fees() == Map::<Seq<char>, UtilityFee>::empty(),
            r.fee_entries().len() == 0,
            r.version_log().len() == 0,
    {
        MultiUtilityManager {
            admin,
            providers: Table::new(),
            configs: Table::new(),
            meters: Table::new(),
            fees: Table::new(),
            versions: Vec::new(),
        }
    }

    pub fn is_admin(&self, caller: &Address) -> (r: bool)
        ensures
            r == (caller@ == self.admin()@),
    {
        caller.same_as(&self.admin)
    }

    /// Registers a provider under a new id, active, with the neutral rating and
    /// no transactions.
    pub fn register_provider(
        &mut self,
        admin: &Address,
        provider_id: String,
        name: String,
        provider_address: Address,
        utility_type: u8,
        region: String,
        license_number: String,
        contact_info: String,
        now: u64,
    ) -> (r: Result<(), BillingError>)
        requires
            old(self).wf(),
        ensures
            final(self).wf(),
            r == Self::register_outcome(*old(self), admin@, provider_id@, utility_type),
            r is Err ==> *final(self) == *old(self),
            r is Ok ==> final(self).providers() == old(self).providers().insert(
                provider_id@,
                new_provider(
                    provider_id,
                    name,
                    provider_address,
                    utility_type,
                    region,
                    license_number,
                    contact_info,
                    now,
                ),
            ),
            r is Ok ==> final(self).provider_entries().len() == old(self).provider_entries().len() + 1,
            final(self).admin() == old(self).admin(),
            final(self).config_entries() == old(self).config_entries(),
            final(self).meter_entries() == old(self).meter_entries(),
            final(self).fee_entries() == old(self).fee_entries(),
            final(self).version_log() == old(self).version_log(),
    {
        if !self.is_admin(admin) {
            return Err(BillingError::Unauthorized);
        }
        let kind = UtilityType::from_u8(utility_type)?;
        if self.providers.contains_key(&provider_id) {
            return Err(BillingError::AlreadyRegistered(Entity::Provider));
        }
        let key = provider_id.clone();
        let provider = UtilityProvider {
            provider_id,
            name,
            address: provider_address,
            utility_type: kind,
            region,
            is_active: true,
            registration_date: now,
            license_number,
            contact_info,
            rating: NEUTRAL_RATING,
            total_transactions: 0,
        };
        self.providers.insert_new(key, provider);
        Ok(())
    }

    /// Which result `register_provider` owes, in the order the checks run.
    pub open spec fn register_outcome(
        s: MultiUtilityManager,
        admin: Seq<char>,
        provider_id: Seq<char>,
        utility_type: u8,
    ) -> Result<(), BillingError> {
        if admin != s.admin()@ {
            Err(BillingError::Unauthorized)
        } else if !valid_utility_code(utility_type) {
            Err(BillingError::InvalidEnum)
        } else if s.providers().contains_key(provider_id) {
            Err(BillingError::AlreadyRegistered(Entity::Provider))
        } else {
            Ok(())
        }
    }

    /// `after` is `before` with configuration `config_id` upgraded once: one
    /// version higher, and one more audit record, which carries the new version.
    pub open spec fn upgraded(before: MultiUtilityManager, after: MultiUtilityManager, config_id: Seq<char>) -> bool {
        &&& before.configs().contains_key(config_id)
        &&& after.configs().contains_key(config_id)
        &&& after.configs()[config_id].version == before.configs()[config_id].version + 1
        &&& after.version_log().len() == before.version_log().len() + 1
        &&& after.version_log().last().config_id@ == config_id
        &&& after.version_log().last().version == after.configs()[config_id].version
    }

    /// Adds a configuration, at version 1 with the default late-fee policy, for an
    /// active provider of the same utility type.
    pub fn add_utility_config(
        &mut self,
        admin: &Address,
        config_id: String,
        utility_type: u8,
        provider_id: String,
        region: String,
        base_rate: i128,
        currency: String,
        decimals: u32,
        billing_cycle_days: u32,
        grace_period_days: u32,
        minimum_payment: i128,
        maximum_payment: i128,
        now: u64,
    ) -> (r: Result<(), BillingError>)
        requires
            old(self).wf(),
        ensures
            final(self).wf(),
            r == Self::add_config_outcome(*old(self), admin@, config_id@, utility_type, provider_id@),
            r is Err ==> *final(self) == *old(self),
            r is Ok ==> final(self).configs().dom() == old(self).configs().dom().insert(config_id@),
            r is Ok ==> ({
                let c = final(self).configs()[config_id@];
                &&& c.utility_type == utility_type_of(utility_type)
                &&& c.provider_id == provider_id
                &&& c.region == region
                &&& c.base_rate == base_rate
                &&& c.currency == currency
                &&& c.decimals == decimals
                &&& c.tier_rates@.len() == 0
                &&& c.time_of_use_rates@.len() == 0
                &&& c.seasonal_adjustments@.len() == 0
                &&& c.tax_rates@.len() == 0
                &&& c.discount_rates@.len() == 0
                &&& c.late_fee_config == default_late_fee(grace_period_days)
                &&& c.payment_methods@.len() == 0
                &&& c.billing_cycle_days == billing_cycle_days
                &&& c.grace_period_days == grace_period_days
                &&& c.minimum_payment == minimum_payment
                &&& c.maximum_payment == maximum_payment
                &&& c.is_active
                &&& c.version == 1
                &&& c.last_updated == now
            }),
            r is Ok ==> forall|k: Seq<char>|
                k != config_id@ && #[trigger] old(self).configs().contains_key(k)
                    ==> final(self).configs()[k] == old(self).configs()[k],
            final(self).admin() == old(self).admin(),
            final(self).provider_entries() == old(self).provider_entries(),
            final(self).meter_entries() == old(self).meter_entries(),
            final(self).fee_entries() == old(self).fee_entries(),
            final(self).version_log() == old(self).version_log(),
    {
        if !self.is_admin(admin) {
            return Err(BillingError::Unauthorized);
        }
        let kind = UtilityType::from_u8(utility_type)?;
        let provider = match self.providers.get(&provider_id) {
            Some(p) => p,
            None => return Err(BillingError::NotFound(Entity::Provider)),
        };
        if !provider.is_active {
            return Err(BillingError::Inactive(Entity::Provider));
        }
        if provider.utility_type != kind {
            return Err(BillingError::TypeMismatch);
        }
        if self.configs.contains_key(&config_id) {
            return Err(BillingError::AlreadyRegistered(Entity::Config));
        }
        let config = UtilityConfig {
            utility_type: kind,
            provider_id,
            region,
            base_rate,
            currency,
            decimals,
            tier_rates: Vec::new(),
            time_of_use_rates: Vec::new(),
            seasonal_adjustments: Vec::new(),
            tax_rates: Vec::new(),
            discount_rates: Vec::new(),
            late_fee_config: LateFeeConfig {
                flat_fee: DEFAULT_LATE_FLAT_FEE,
                percentage_fee: DEFAULT_LATE_PERCENTAGE_FEE,
                max_fee: DEFAULT_LATE_MAX_FEE,
                grace_period_days,
                compound_daily: false,
            },
            payment_methods: Vec::new(),
            billing_cycle_days,
            grace_period_days,
            minimum_payment,
            maximum_payment,
            is_active: true,
            version: 1,
            last_updated: now,
        };
        self.configs.insert_new(config_id, config);
        Ok(())
    }

    /// Which result `add_utility_config` owes, in the order the checks run.
    pub open spec fn add_config_outcome(
        s: MultiUtilityManager,
        admin: Seq<char>,
        config_id: Seq<char>,
        utility_type: u8,
        provider_id: Seq<char>,
    ) -> Result<(), BillingError> {
        if admin != s.admin()@ {
            Err(BillingError::Unauthorized)
        } else if !valid_utility_code(utility_type) {
            Err(BillingError::InvalidEnum)
        } else if !s.providers().contains_key(provider_id) {
            Err(BillingError::NotFound(Entity::Provider))
        } else if !s.providers()[provider_id].is_active {
            Err(BillingError::Inactive(Entity::Provider))
        } else if s.providers()[provider_id].utility_type != utility_type_of(utility_type) {
            Err(BillingError::TypeMismatch)
        } else if s.configs().contains_key(config_id) {
            Err(BillingError::AlreadyRegistered(Entity::Config))
        } else {
            Ok(())
        }
    }

    /// Registers a meter of a provider; only the provider's own address may do so.
    pub fn register_meter(
        &mut self,
        provider_address: &Address,
        meter_id: String,
        utility_type: u8,
        provider_id: String,
        customer_address: Address,
        location: String,
        meter_model: String,
        firmware_version: String,
        is_smart_meter: bool,
        now: u64,
    ) -> (r: Result<(), BillingError>)
        requires
            old(self).wf(),
        ensures
            final(self).wf(),
            r == Self::register_meter_outcome(
                *old(self),
                provider_address@,
                meter_id@,
                utility_type,
                provider_id@,
            ),
            r is Err ==> *final(self) == *old(self),
            r is Ok ==> final(self).meters() == old(self).meters().insert(
                meter_id@,
                UtilityMeter {
                    meter_id,
                    utility_type: utility_type_of(utility_type),
                    provider_id,
                    customer_address,
                    installation_date: now,
                    last_reading: 0,
                    last_reading_date: now,
                    is_active: true,
                    is_smart_meter,
                    location,
                    meter_model,
                    firmware_version,
                },
            ),
            final(self).admin() == old(self).admin(),
            final(self).provider_entries() == old(self).provider_entries(),
            final(self).config_entries() == old(self).config_entries(),
            final(self).fee_entries() == old(self).fee_entries(),
            final(self).version_log() == old(self).version_log(),
    {
        let kind = UtilityType::from_u8(utility_type)?;
        let provider = match self.providers.get(&provider_id) {
            Some(p) => p,
            None => return Err(BillingError::NotFound(Entity::Provider)),
        };
        if !provider.address.same_as(provider_address) {
            return Err(BillingError::Unauthorized);
        }
        if !provider.is_active {
            return Err(BillingError::Inactive(Entity::Provider));
        }
        if self.meters.contains_key(&meter_id) {
            return Err(BillingError::AlreadyRegistered(Entity::Meter));
        }
        let key = meter_id.clone();
        let meter = UtilityMeter {
            meter_id,
            utility_type: kind,
            provider_id,
            customer_address,
            installation_date: now,
            last_reading: 0,
            last_reading_date: now,
            is_active: true,
            is_smart_meter,
            location,
            meter_model,
            firmware_version,
        };
        self.meters.insert_new(key, meter);
        Ok(())
    }

    /// Which result `register_meter` owes, in the order the checks run.
    pub open spec fn register_meter_outcome(
        s: MultiUtilityManager,
        caller: Seq<char>,
        meter_id: Seq<char>,
        utility_type: u8,
        provider_id: Seq<char>,
    ) -> Result<(), BillingError> {
        if !valid_utility_code(utility_type) {
            Err(BillingError::InvalidEnum)
        } else if !s.providers().contains_key(provider_id) {
            Err(BillingError::NotFound(Entity::Provider))
        } else if s.providers()[provider_id].address@ != caller {
            Err(BillingError::Unauthorized)
        } else if !s.providers()[provider_id].is_active {
            Err(BillingError::Inactive(Entity::Provider))
        } else if s.meters().contains_key(meter_id) {
            Err(BillingError::AlreadyRegistered(Entity::Meter))
        } else {
            Ok(())
        }
    }

    /// Registers a fee of an existing provider under a new fee id.
    pub fn add_utility_fee(
        &mut self,
        admin: &Address,
        fee_id: String,
        utility_type: u8,
        provider_id: String,
        fee_type: u8,
        fee_amount: i128,
        fee_percentage: Option<i128>,
        is_percentage: bool,
        description: String,
        now: u64,
    ) -> (r: Result<(), BillingError>)
        requires
            old(self).wf(),
        ensures
            final(self).wf(),
            r == Self::add_fee_outcome(*old(self), admin@, fee_id@, utility_type, provider_id@, fee_type),
            r is Err ==> *final(self) == *old(self),
            r is Ok ==> final(self).fee_entries() == old(self).fee_entries().push(
                (
                    fee_id,
                    UtilityFee {
                        fee_id,
                        utility_type: utility_type_of(utility_type),
                        provider_id,
                        fee_type: fee_type_of(fee_type),
                        fee_amount,
                        fee_percentage,
                        is_percentage,
                        description,
                        is_active: true,
                        created_at: now,
                    },
                ),
            ),
            r is Ok ==> final(self).fees() == old(self).fees().insert(
                fee_id@,
                UtilityFee {
                    fee_id,
                    utility_type: utility_type_of(utility_type),
                    provider_id,
                    fee_type: fee_type_of(fee_type),
                    fee_amount,
                    fee_percentage,
                    is_percentage,
                    description,
                    is_active: true,
                    created_at: now,
                },
            ),
            final(self).admin() == old(self).admin(),
            final(self).provider_entries() == old(self).provider_entries(),
            final(self).config_entries() == old(self).config_entries(),
            final(self).meter_entries() == old(self).meter_entries(),
            final(self).version_log() == old(self).version_log(),
    {
        if !self.is_admin(admin) {
            return Err(BillingError::Unauthorized);
        }
        let kind = UtilityType::from_u8(utility_type)?;
        let fee_kind = FeeType::from_u8(fee_type)?;
        if !self.providers.contains_key(&provider_id) {
            return Err(BillingError::NotFound(Entity::Provider));
        }
        if self.fees.contains_key(&fee_id) {
            return Err(BillingError::AlreadyRegistered(Entity::Fee));
        }
        let key = fee_id.clone();
        let fee = UtilityFee {
            fee_id,
            utility_type: kind,
            provider_id,
            fee_type: fee_kind,
            fee_amount,
            fee_percentage,
            is_percentage,
            description,
            is_active: true,
            created_at: now,
        };
        self.fees.insert_new(key, fee);
        Ok(())
    }

    /// Which result `add_utility_fee` owes, in the order the checks run.
    pub open spec fn add_fee_outcome(
        s: MultiUtilityManager,
        admin: Seq<char>,
        fee_id: Seq<char>,
        utility_type: u8,
        provider_id: Seq<char>,
        fee_type: u8,
    ) -> Result<(), BillingError> {
        if admin != s.admin()@ {
            Err(BillingError::Unauthorized)
        } else if !valid_utility_code(utility_type) {
            Err(BillingError::InvalidEnum)
        } else if !(1 <= fee_type <= 8) {
            Err(BillingError::InvalidEnum)
        } else if !s.providers().contains_key(provider_id) {
            Err(BillingError::NotFound(Entity::Provider))
        } else if s.fees().contains_key(fee_id) {
            Err(BillingError::AlreadyRegistered(Entity::Fee))
        } else {
            Ok(())
        }
    }

    /// Number of registered providers.
    pub fn provider_count(&self) -> (r: usize)
        ensures
            r == self.provider_entries().len(),
    {
        self.providers.len()
    }

    pub fn get_provider(&self, provider_id: &String) -> (r: Option<&UtilityProvider>)
        requires
            self.wf(),
        ensures
            r is Some <==> self.providers().contains_key(provider_id@),
            r matches Some(p) ==> *p == self.providers()[provider_id@],
    {
        self.providers.get(provider_id)
    }

    pub fn get_utility_config(&self, config_id: &String) -> (r: Option<&UtilityConfig>)
        requires
            self.wf(),
        ensures
            r is Some <==> self.configs().contains_key(config_id@),
            r matches Some(c) ==> *c == self.configs()[config_id@],
    {
        self.configs.get(config_id)
    }

    pub fn get_meter(&self, meter_id: &String) -> (r: Option<&UtilityMeter>)
        requires
            self.wf(),
        ensures
            r is Some <==> self.meters().contains_key(meter_id@),
            r matches Some(m) ==> *m == self.meters()[meter_id@],
    {
        self.meters.get(meter_id)
    }

    pub fn get_utility_fee(&self, fee_id: &String) -> (r: Option<&UtilityFee>)
        requires
            self.wf(),
        ensures
            r is Some <==> self.fees().contains_key(fee_id@),
            r matches Some(f) ==> *f == self.fees()[fee_id@],
    {
        self.fees.get(fee_id)
    }

    /// Configuration upgrades recorded so far, oldest first.
    pub fn get_version_history(&self) -> (r: &Vec<UtilityVersion>)
        ensures
            r@ == self.version_log(),
    {
        &self.versions
    }

    /// Active providers of a utility type in a region, in registration order.
    pub fn list_providers_by_type_and_region(&self, utility_type: u8, region: &String) -> (r: Result<
        Vec<UtilityProvider>,
        BillingError,
    >)
        requires
            self.wf(),
        ensures
            !valid_utility_code(utility_type) ==> r == Err::<Vec<UtilityProvider>, BillingError>(
                BillingError::InvalidEnum,
            ),
            valid_utility_code(utility_type) ==> (r matches Ok(v) && v@ == self.listing(
                utility_type_of(utility_type),
                region@,
            )),
    {
        let kind = UtilityType::from_u8(utility_type)?;
        let ghost pred = |p: UtilityProvider| listed(p, kind, region@);
        let ghost vals = self.provider_entries().map_values(|e: (String, UtilityProvider)| e.1);
        let mut result: Vec<UtilityProvider> = Vec::new();
        let mut i: usize = 0;
        while i < self.providers.len()
            invariant
                self.wf(),
                i <= self.provider_entries().len(),
                vals == self.provider_entries().map_values(|e: (String, UtilityProvider)| e.1),
                pred == (|p: UtilityProvider| listed(p, kind, region@)),
                result@ == vals.take(i as int).filter(pred),
            decreases self.provider_entries().len() - i,
        {
            let entry = self.providers.entry(i);
            let p = &entry.1;
            proof {
                assert(vals.take(i + 1) == vals.take(i as int).push(vals[i as int]));
                vals.take(i as int).lemma_filter_push(vals[i as int], pred);
            }
            if p.utility_type == kind && p.region == *region && p.is_active {
                result.push(copy_provider(p));
            }
            i += 1;
        }
        proof {
            assert(vals.take(i as int) == vals);
        }
        Ok(result)
    }

    /// Activates or deactivates a provider.
    pub fn update_provider_status(&mut self, admin: &Address, provider_id: &String, is_active: bool) -> (r: Result<
        (),
        BillingError,
    >)
        requires
            old(self).wf(),
        ensures
            final(self).wf(),
            r == (if admin@ != old(self).admin()@ {
                Err(BillingError::Unauthorized)
            } else if !old(self).providers().contains_key(provider_id@) {
                Err(BillingError::NotFound(Entity::Provider))
            } else {
                Ok(())
            }),
            r is Err ==> *final(self) == *old(self),
            r is Ok ==> final(self).providers() == old(self).providers().insert(
                provider_id@,
                UtilityProvider { is_active, ..old(self).providers()[provider_id@] },
            ),
            final(self).admin() == old(self).admin(),
            final(self).config_entries() == old(self).config_entries(),
            final(self).meter_entries() == old(self).meter_entries(),
            final(self).fee_entries() == old(self).fee_entries(),
            final(self).version_log() == old(self).version_log(),
    {
        if !self.is_admin(admin) {
            return Err(BillingError::Unauthorized);
        }
        match self.providers.find(provider_id) {
            Some(i) => {
                proof {
                    crate::table::lemma_key_index(self.provider_entries(), i as int);
                }
                let mut updated = copy_provider(&self.providers.entry(i).1);
                updated.is_active = is_active;
                self.providers.replace_at(i, updated);
                Ok(())
            },
            None => Err(BillingError::NotFound(Entity::Provider)),
        }
    }

    /// Counts one more transaction for a provider; the count saturates at its maximum.
    pub fn record_transaction(&mut self, provider_id: &String)
        requires
            old(self).wf(),
        ensures
            final(self).wf(),
            old(self).providers().contains_key(provider_id@) ==> final(self).providers()
                == old(self).providers().insert(
                provider_id@,
                UtilityProvider {
                    total_transactions: if old(self).providers()[provider_id@].total_transactions
                        < u64::MAX {
                        (old(self).providers()[provider_id@].total_transactions + 1) as u64
                    } else {
                        u64::MAX
                    },
                    ..old(self).providers()[provider_id@]
                },
            ),
            !old(self).providers().contains_key(provider_id@) ==> *final(self) == *old(self),
            final(self).admin() == old(self).admin(),
            final(self).config_entries() == old(self).config_entries(),
            final(self).meter_entries() == old(self).meter_entries(),
            final(self).fee_entries() == old(self).fee_entries(),
            final(self).version_log() == old(self).version_log(),
    {
        if let Some(i) = self.providers.find(provider_id) {
            proof {
                crate::table::lemma_key_index(self.provider_entries(), i as int);
            }
            let mut updated = copy_provider(&self.providers.entry(i).1);
            updated.total_transactions = updated.total_transactions.saturating_add(1);
            self.providers.replace_at(i, updated);
        }
    }

    /// Replaces a configuration, raising its version by one and stamping it with
    /// `now`, after appending an audit record of the upgrade.
    pub fn upgrade_utility_config(
        &mut self,
        admin: &Address,
        config_id: String,
        new_config: UtilityConfig,
        now: u64,
    ) -> (r: Result<(), BillingError>)
        requires
            old(self).wf(),
        ensures
            final(self).wf(),
            r == Self::upgrade_outcome(*old(self), admin@, config_id@),
            r is Err ==> *final(self) == *old(self),
            r is Ok ==> final(self).configs() == old(self).configs().insert(
                config_id@,
                UtilityConfig {
                    version: (old(self).configs()[config_id@].version + 1) as u32,
                    last_updated: now,
                    ..new_config
                },
            ),
            r is Ok ==> final(self).version_log().len() == old(self).version_log().len() + 1,
            r is Ok ==> final(self).version_log().drop_last() == old(self).version_log(),
            r is Ok ==> is_upgrade_record(
                final(self).version_log().last(),
                config_id@,
                old(self).configs()[config_id@],
                now,
            ),
            r is Err ==> final(self).version_log() == old(self).version_log(),
            r is Ok ==> Self::upgraded(*old(self), *final(self), config_id@),
            final(self).admin() == old(self).admin(),
            final(self).provider_entries() == old(self).provider_entries(),
            final(self).meter_entries() == old(self).meter_entries(),
            final(self).fee_entries() == old(self).fee_entries(),
    {
        if !self.is_admin(admin) {
            return Err(BillingError::Unauthorized);
        }
        let i = match self.configs.find(&config_id) {
            Some(i) => i,
            None => return Err(BillingError::NotFound(Entity::Config)),
        };
        proof {
            crate::table::lemma_key_index(self.config_entries(), i as int);
        }
        let old_config = &self.configs.entry(i).1;
        if old_config.version == u32::MAX {
            return Err(BillingError::Overflow);
        }
        let version = old_config.version + 1;
        let record = UtilityVersion {
            config_id: config_id.clone(),
            utility_type: old_config.utility_type,
            version,
            deployment_date: now,
            is_active: true,
            migration_required: true,
            description: String::from_str("Configuration upgrade"),
        };
        proof {
            reveal_strlit("Configuration upgrade");
        }
        self.versions.push(record);
        let mut updated = new_config;
        updated.version = version;
        updated.last_updated = now;
        self.configs.replace_at(i, updated);
        Ok(())
    }

    /// Which result `upgrade_utility_config` owes.
    pub open spec fn upgrade_outcome(s: MultiUtilityManager, admin: Seq<char>, config_id: Seq<char>) -> Result<
        (),
        BillingError,
    > {
        if admin != s.admin()@ {
            Err(BillingError::Unauthorized)
        } else if !s.configs().contains_key(config_id) {
            Err(BillingError::NotFound(Entity::Config))
        } else if s.configs()[config_id].version == u32::MAX {
            Err(BillingError::Overflow)
        } else {
            Ok(())
        }
    }

    /// Accepts exactly the wire codes of the supported utility types.
    pub fn validate_utility_type(&self, utility_type: u8) -> (r: Result<(), BillingError>)
        ensures
            r is Ok <==> valid_utility_code(utility_type),
            r is Err ==> r == Err::<(), BillingError>(BillingError::InvalidEnum),
    {
        UtilityType::from_u8(utility_type)?;
        Ok(())
    }

    /// The supported utility types, by wire code, with their names.
    pub fn get_utility_types(&self) -> (r: Vec<(u8, String)>)
        ensures
            r@.len() == 8,
            forall|i: int|
                0 <= i < 8 ==> (#[trigger] r@[i]).0 == i + 1 && r@[i].1@ == crate::types::utility_name(
                    utility_type_of((i + 1) as u8),
                ),
    {
        let mut r: Vec<(u8, String)> = Vec::new();
        let mut code: u8 = 1;
        while code <= 8
            invariant
                1 <= code <= 9,
                r@.len() == code - 1,
                forall|i: int|
                    0 <= i < code - 1 ==> (#[trigger] r@[i]).0 == i + 1 && r@[i].1@
                        == crate::types::utility_name(utility_type_of((i + 1) as u8)),
            decreases 9 - code,
        {
            let kind = UtilityType::from_u8(code).unwrap();
            r.push((code, kind.to_string()));
            code += 1;
        }
        r
    }

    /// Sum of the active fees registered for this provider and utility type, on a
    /// bill whose amount before fees is `pre_fee`.
    pub fn fee_total(&self, provider_id: &String, utility_type: UtilityType, pre_fee: i128) -> (r: Result<
        i128,
        BillingError,
    >)
        requires
            self.wf(),
        ensures
            r == amount_result(self.fees_due(provider_id@, utility_type, pre_fee as int)),
            r matches Ok(v) ==> self.fees_due(provider_id@, utility_type, pre_fee as int) == Some(
                v as int,
            ),
    {
        let ghost fees = self.fee_entries();
        let mut total: i128 = 0;
        let mut i: usize = 0;
        while i < self.fees.len()
            invariant
                fees == self.fee_entries(),
                i <= fees.len(),
                fee_sum(fees, provider_id@, utility_type, pre_fee as int, i as nat) == Some(
                    total as int,
                ),
            decreases fees.len() - i,
        {
            let fee = &self.fees.entry(i).1;
            if fee.is_active && fee.provider_id == *provider_id && fee.utility_type == utility_type {
                let c = match fee_amount_of(fee, pre_fee) {
                    Ok(c) => c,
                    Err(e) => {
                        proof {
                            lemma_fee_sum_stays_none(
                                fees,
                                provider_id@,
                                utility_type,
                                pre_fee as int,
                                (i + 1) as nat,
                            );
                        }
                        return Err(e);
                    },
                };
                total = match total.checked_add(c) {
                    Some(t) => t,
                    None => {
                        proof {
                            lemma_fee_sum_stays_none(
                                fees,
                                provider_id@,
                                utility_type,
                                pre_fee as int,
                                (i + 1) as nat,
                            );
                        }
                        return Err(BillingError::Overflow);
                    },
                };
            }
            i += 1;
        }
        Ok(total)
    }
}

/// A field-by-field copy of a provider record.
pub fn copy_provider(p: &UtilityProvider) -> (r: UtilityProvider)
    ensures
        r == *p,
{
    UtilityProvider {
        provider_id: p.provider_id.clone(),
        name: p.name.clone(),
        address: p.address.duplicate(),
        utility_type: p.utility_type,
        region: p.region.clone(),
        is_active: p.is_active,
        registration_date: p.registration_date,
        license_number: p.license_number.clone(),
        contact_info: p.contact_info.clone(),
        rating: p.rating,
        total_transactions: p.total_transactions,
    }
}

} // verus!
