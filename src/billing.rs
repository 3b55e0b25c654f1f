use vstd::prelude::*;

use crate::error::{BillingError, Entity};
use crate::model::{UtilityConfig, UtilityFee, UtilityMeter, UtilityProvider};
use crate::oracle::{
    is_fresh, is_usable, sat_inc, OracleConfig, OracleCost, OracleManager, OracleReliability, PriceFeed,
    UtilityRate,
};
use crate::pricing::{
    amount_result, base_amount_of, bounds_result, check_payment_bounds, checked, convert_amount,
    converted_of, tax_of, tax_total, apply_time_of_use, tiered_amount, time_of_use_of,
};
use crate::registry::{new_provider, MultiUtilityManager};
use crate::table::Table;
use crate::types::{
    fee_type_of, utility_code, utility_name, utility_type_of, valid_utility_code, Address,
};
use crate::upgrade::{ContractVersion, DataMigration, UpgradeProxy, VersionManager};

verus! {

/// The amounts of one bill, as the pipeline computes them.
#[derive(Clone, Copy, Debug, PartialEq, Eq, Structural)]
pub struct BillQuote {
    pub base_amount: i128,
    pub tax_amount: i128,
    pub fee_amount: i128,
    pub subtotal: i128,
    pub final_amount: i128,
    pub utility_type: u8,
    pub config_version: u32,
}

/// An immutable snapshot of one bill, keyed by meter and time.
#[derive(Clone, Debug)]
pub struct BillingRecord {
    pub meter_id: String,
    pub timestamp: u64,
    pub consumption: i128,
    pub base_amount: i128,
    pub tax_amount: i128,
    pub fee_amount: i128,
    pub final_amount: i128,
    pub utility_type: u8,
    pub config_version: u32,
}

/// A bill priced from a commodity rate of the price store.
#[derive(Clone, Debug)]
pub struct UtilityBillRecord {
    pub meter_id: String,
    pub timestamp: u64,
    pub kwh_consumed: i128,
    pub rate_per_kwh: i128,
    pub final_amount: i128,
    pub utility_type: String,
}

/// Key of the configuration that bills a provider's meters in a region.
pub open spec fn config_key(provider_id: Seq<char>, region: Seq<char>) -> Seq<char> {
    provider_id + "_"@ + region
}

/// Id of the price feed from one currency to another.
pub open spec fn pair_key(from: Seq<char>, to: Seq<char>) -> Seq<char> {
    from + "_"@ + to
}

/// `a_b`, the way the store joins two parts of a key.
pub fn join_key(a: &String, b: &String) -> (r: String)
    ensures
        r@ == a@ + "_"@ + b@,
{
    let mut key = a.clone();
    key.append("_");
    key.append(b.as_str());
    key
}

/// Whether a record is the one of `meter_id` at `timestamp`.
pub open spec fn record_is(rec: BillingRecord, meter_id: Seq<char>, timestamp: u64) -> bool {
    rec.meter_id@ == meter_id && rec.timestamp == timestamp
}

pub open spec fn record_of(meter_id: String, consumption: i128, now: u64, q: BillQuote) -> BillingRecord {
    BillingRecord {
        meter_id,
        timestamp: now,
        consumption,
        base_amount: q.base_amount,
        tax_amount: q.tax_amount,
        fee_amount: q.fee_amount,
        final_amount: q.final_amount,
        utility_type: q.utility_type,
        config_version: q.config_version,
    }
}

/// The billing engine: registry, price store, and what has been billed and paid.
pub struct NepaBillingContract {
    pub multi_utility: MultiUtilityManager,
    pub oracle: OracleManager,
    pub records: Vec<BillingRecord>,
    pub utility_bills: Vec<UtilityBillRecord>,
    /// Total paid per meter through the direct payment paths.
    pub totals: Table<i128>,
    pub upgrade_proxy: UpgradeProxy,
    pub version_manager: VersionManager,
    pub data_migration: DataMigration,
}

impl NepaBillingContract {
    pub open spec fn records(&self) -> Seq<BillingRecord> {
        self.records@
    }

    pub open spec fn utility_bills(&self) -> Seq<UtilityBillRecord> {
        self.utility_bills@
    }

    pub open spec fn totals(&self) -> Map<Seq<char>, i128> {
        self.totals@
    }

    pub open spec fn wf(&self) -> bool {
        self.multi_utility.wf() && self.oracle.wf() && self.totals.wf() && self.version_manager.wf()
    }

    pub open spec fn upgrades_unchanged(&self, o: NepaBillingContract) -> bool {
        &&& self.upgrade_proxy == o.upgrade_proxy
        &&& self.version_manager == o.version_manager
        &&& self.data_migration == o.data_migration
    }

    /// Everything but the registry is as in `o`.
    pub open spec fn same_but_registry(&self, o: NepaBillingContract) -> bool {
        &&& self.oracle == o.oracle
        &&& self.records == o.records
        &&& self.utility_bills == o.utility_bills
        &&& self.totals == o.totals
        &&& self.upgrades_unchanged(o)
    }

    /// Everything but the price store is as in `o`.
    pub open spec fn same_but_oracle(&self, o: NepaBillingContract) -> bool {
        &&& self.multi_utility == o.multi_utility
        &&& self.records == o.records
        &&& self.utility_bills == o.utility_bills
        &&& self.totals == o.totals
        &&& self.upgrades_unchanged(o)
    }

    pub open spec fn paid(&self, meter_id: Seq<char>) -> int {
        if self.totals().contains_key(meter_id) {
            self.totals()[meter_id] as int
        } else {
            0
        }
    }

    /// The amount after conversion into `currency`: unchanged in the
    /// configuration's own currency, else through a trusted price feed.
    pub open spec fn converted(&self, subtotal: int, from: Seq<char>, currency: Seq<char>, now: u64) -> Result<
        i128,
        BillingError,
    > {
        if from == currency {
            Ok(subtotal as i128)
        } else {
            match self.oracle.trusted_feed(pair_key(from, currency), now) {
                Ok(feed) => amount_result(converted_of(subtotal, feed.price as int, feed.decimals as nat)),
                Err(e) => Err(e),
            }
        }
    }

    /// Steps one to ten of a bill: what `pay_multi_utility_bill` owes.
    pub open spec fn quote_of(
        &self,
        meter_id: Seq<char>,
        consumption: i128,
        currency: Seq<char>,
        apply_fees: bool,
        now: u64,
    ) -> Result<BillQuote, BillingError> {
        let reg = self.multi_utility;
        if !reg.meters().contains_key(meter_id) {
            Err(BillingError::NotFound(Entity::Meter))
        } else if !reg.meters()[meter_id].is_active {
            Err(BillingError::Inactive(Entity::Meter))
        } else {
            let meter = reg.meters()[meter_id];
            let pid = meter.provider_id@;
            if !reg.providers().contains_key(pid) {
                Err(BillingError::NotFound(Entity::Provider))
            } else {
                let key = config_key(pid, reg.providers()[pid].region@);
                if !reg.configs().contains_key(key) {
                    Err(BillingError::NotFound(Entity::Config))
                } else if !reg.configs()[key].is_active {
                    Err(BillingError::Inactive(Entity::Config))
                } else {
                    let config = reg.configs()[key];
                    match base_amount_of(config.base_rate as int, config.tier_rates@, consumption as int) {
                        None => Err(BillingError::Overflow),
                        Some(rated) => match time_of_use_of(rated, config.time_of_use_rates@, now) {
                            None => Err(BillingError::Overflow),
                            Some(base) => match tax_of(config.tax_rates@, base) {
                                None => Err(BillingError::Overflow),
                                Some(tax) => match checked(base + tax) {
                                    None => Err(BillingError::Overflow),
                                    Some(pre_fee) => match (if apply_fees {
                                        reg.fees_due(pid, meter.utility_type, pre_fee)
                                    } else {
                                        Some(0)
                                    }) {
                                        None => Err(BillingError::Overflow),
                                        Some(fee) => match checked(pre_fee + fee) {
                                            None => Err(BillingError::Overflow),
                                            Some(subtotal) => match self.converted(
                                                subtotal,
                                                config.currency@,
                                                currency,
                                                now,
                                            ) {
                                                Err(e) => Err(e),
                                                Ok(final_amount) => match bounds_result(
                                                    final_amount as int,
                                                    config.minimum_payment as int,
                                                    config.maximum_payment as int,
                                                ) {
                                                    Err(e) => Err(e),
                                                    Ok(_) => Ok(
                                                        BillQuote {
                                                            base_amount: base as i128,
                                                            tax_amount: tax as i128,
                                                            fee_amount: fee as i128,
                                                            subtotal: subtotal as i128,
                                                            final_amount,
                                                            utility_type: utility_code(meter.utility_type),
                                                            config_version: config.version,
                                                        },
                                                    ),
                                                },
                                            },
                                        },
                                    },
                                },
                            },
                        },
                    }
                }
            }
        }
    }

    /// A fresh engine: empty registry and price store, both administered by `admin`.
    pub fn initialize(admin: Address, oracle_config: OracleConfig) -> (r: NepaBillingContract)
        ensures
            r.wf(),
            r.multi_utility.admin() == admin,
            r.multi_utility.provider_entries().len() == 0,
            r.oracle.admin() == admin,
            r.oracle.config() == oracle_config,
            r.records().len() == 0,
            r.utility_bills().len() == 0,
            r.totals() == Map::<Seq<char>, i128>::empty(),
            r.upgrade_proxy.admin() == admin,
            r.upgrade_proxy.version() == 1,
            r.version_manager.admin() == admin,
            r.version_manager.entries().len() == 0,
            r.data_migration.admin() == admin,
            r.data_migration.scripts().len() == 0,
    {
        NepaBillingContract {
            multi_utility: MultiUtilityManager::initialize(admin.duplicate()),
            oracle: OracleManager::initialize_oracle(admin.duplicate(), oracle_config),
            records: Vec::new(),
            utility_bills: Vec::new(),
            totals: Table::new(),
            upgrade_proxy: UpgradeProxy::initialize(admin.duplicate()),
            version_manager: VersionManager::initialize(admin.duplicate()),
            data_migration: DataMigration::initialize(admin.duplicate()),
        }
    }

    /// Converts `subtotal` from `from` into `currency` (see `converted`).
    pub fn convert_currency(&self, subtotal: i128, from: &String, currency: &String, now: u64) -> (r:
        Result<i128, BillingError>)
        requires
            self.wf(),
        ensures
            r == self.converted(subtotal as int, from@, currency@, now),
    {
        if *from == *currency {
            return Ok(subtotal);
        }
        let feed_id = join_key(from, currency);
        let feed = self.oracle.trusted_price_feed(&feed_id, now)?;
        convert_amount(subtotal, feed.price, feed.decimals)
    }

    /// Prices a bill without changing anything: meter and configuration lookup,
    /// tiers, time of use, taxes, fees, conversion and the payment bounds. The
    /// configuration is the one keyed `<provider_id>_<region>`, where the region
    /// is that of the meter's provider.
    pub fn quote_multi_utility_bill(
        &self,
        meter_id: &String,
        consumption: i128,
        currency: &String,
        apply_fees: bool,
        now: u64,
    ) -> (r: Result<BillQuote, BillingError>)
        requires
            self.wf(),
        ensures
            r == self.quote_of(meter_id@, consumption, currency@, apply_fees, now),
    {
        let reg = &self.multi_utility;
        let meter = match reg.get_meter(meter_id) {
            Some(m) => m,
            None => return Err(BillingError::NotFound(Entity::Meter)),
        };
        if !meter.is_active {
            return Err(BillingError::Inactive(Entity::Meter));
        }
        let provider = match reg.get_provider(&meter.provider_id) {
            Some(p) => p,
            None => return Err(BillingError::NotFound(Entity::Provider)),
        };
        let key = join_key(&meter.provider_id, &provider.region);
        let config = match reg.get_utility_config(&key) {
            Some(c) => c,
            None => return Err(BillingError::NotFound(Entity::Config)),
        };
        if !config.is_active {
            return Err(BillingError::Inactive(Entity::Config));
        }
        let rated = tiered_amount(config.base_rate, &config.tier_rates, consumption)?;
        let base = apply_time_of_use(rated, &config.time_of_use_rates, now)?;
        let tax = tax_total(base, &config.tax_rates)?;
        let pre_fee = match base.checked_add(tax) {
            Some(v) => v,
            None => return Err(BillingError::Overflow),
        };
        let fee = if apply_fees {
            reg.fee_total(&meter.provider_id, meter.utility_type, pre_fee)?
        } else {
            0
        };
        let subtotal = match pre_fee.checked_add(fee) {
            Some(v) => v,
            None => return Err(BillingError::Overflow),
        };
        let final_amount = self.convert_currency(subtotal, &config.currency, currency, now)?;
        check_payment_bounds(final_amount, config.minimum_payment, config.maximum_payment)?;
        Ok(
            BillQuote {
                base_amount: base,
                tax_amount: tax,
                fee_amount: fee,
                subtotal,
                final_amount,
                utility_type: meter.utility_type.to_u8(),
                config_version: config.version,
            },
        )
    }

    /// Bills a meter: prices the bill, and only when every step succeeds stores the
    /// billing record and counts a transaction for the meter's provider. The caller
    /// moves `final_amount` from the payer; a failure leaves everything as it was.
    pub fn pay_multi_utility_bill(
        &mut self,
        meter_id: String,
        consumption: i128,
        currency: &String,
        apply_fees: bool,
        now: u64,
    ) -> (r: Result<BillQuote, BillingError>)
        requires
            old(self).wf(),
        ensures
            final(self).wf(),
            r == old(self).quote_of(meter_id@, consumption, currency@, apply_fees, now),
            r is Err ==> *final(self) == *old(self),
            r matches Ok(q) ==> final(self).records() == old(self).records().push(
                record_of(meter_id, consumption, now, q),
            ),
            r is Ok ==> ({
                let pid = old(self).multi_utility.meters()[meter_id@].provider_id@;
                let p = old(self).multi_utility.providers()[pid];
                final(self).multi_utility.providers() == old(self).multi_utility.providers().insert(
                    pid,
                    UtilityProvider { total_transactions: sat_inc(p.total_transactions), ..p },
                )
            }),
            final(self).multi_utility.admin() == old(self).multi_utility.admin(),
            final(self).multi_utility.config_entries() == old(self).multi_utility.config_entries(),
            final(self).multi_utility.meter_entries() == old(self).multi_utility.meter_entries(),
            final(self).multi_utility.fee_entries() == old(self).multi_utility.fee_entries(),
            final(self).multi_utility.version_log() == old(self).multi_utility.version_log(),
            final(self).oracle == old(self).oracle,
            final(self).upgrades_unchanged(*old(self)),
            final(self).utility_bills == old(self).utility_bills,
            final(self).totals == old(self).totals,
    {
        let q = self.quote_multi_utility_bill(&meter_id, consumption, currency, apply_fees, now)?;
        let provider_id = match self.multi_utility.get_meter(&meter_id) {
            Some(m) => m.provider_id.clone(),
            None => return Err(BillingError::NotFound(Entity::Meter)),
        };
        let record = BillingRecord {
            meter_id,
            timestamp: now,
            consumption,
            base_amount: q.base_amount,
            tax_amount: q.tax_amount,
            fee_amount: q.fee_amount,
            final_amount: q.final_amount,
            utility_type: q.utility_type,
            config_version: q.config_version,
        };
        self.records.push(record);
        self.multi_utility.record_transaction(&provider_id);
        Ok(q)
    }

    /// The latest billing record of a meter at a timestamp.
    pub fn get_billing_details(&self, meter_id: &String, timestamp: u64) -> (r: Option<&BillingRecord>)
        ensures
            r is None ==> forall|i: int|
                0 <= i < self.records().len() ==> !record_is(
                    #[trigger] self.records()[i],
                    meter_id@,
                    timestamp,
                ),
            r matches Some(rec) ==> exists|i: int|
                0 <= i < self.records().len() && #[trigger] self.records()[i] == *rec && record_is(
                    *rec,
                    meter_id@,
                    timestamp,
                ) && forall|j: int|
                    i < j < self.records().len() ==> !record_is(
                        #[trigger] self.records()[j],
                        meter_id@,
                        timestamp,
                    ),
    {
        let mut i: usize = self.records.len();
        while i > 0
            invariant
                i <= self.records@.len(),
                forall|j: int|
                    i <= j < self.records@.len() ==> !record_is(
                        #[trigger] self.records@[j],
                        meter_id@,
                        timestamp,
                    ),
            decreases i,
        {
            i -= 1;
            let rec = &self.records[i];
            if rec.timestamp == timestamp && rec.meter_id == *meter_id {
                assert(self.records()[i as int] == *rec);
                return Some(rec);
            }
        }
        None
    }

    /// What `pay_bill_with_oracle` charges: the amount, or the amount converted
    /// into USD through the trusted `<currency>_USD` feed.
    pub open spec fn oracle_charge(&self, amount: i128, currency: Seq<char>, use_exchange_rate: bool, now: u64) -> Result<
        i128,
        BillingError,
    > {
        if use_exchange_rate {
            match self.oracle.trusted_feed(pair_key(currency, "USD"@), now) {
                Ok(feed) => amount_result(converted_of(amount as int, feed.price as int, feed.decimals as nat)),
                Err(e) => Err(e),
            }
        } else {
            Ok(amount)
        }
    }

    /// Adds `amount` to a meter's total paid; `Overflow` when the total would not fit.
    fn add_to_total(&mut self, meter_id: String, amount: i128) -> (r: Result<i128, BillingError>)
        requires
            old(self).wf(),
        ensures
            final(self).wf(),
            r == amount_result(checked(old(self).paid(meter_id@) + amount)),
            r is Err ==> *final(self) == *old(self),
            r matches Ok(t) ==> final(self).totals() == old(self).totals().insert(meter_id@, t),
            final(self).multi_utility == old(self).multi_utility,
            final(self).oracle == old(self).oracle,
            final(self).upgrades_unchanged(*old(self)),
            final(self).records == old(self).records,
            final(self).utility_bills == old(self).utility_bills,
    {
        let current: i128 = match self.totals.get(&meter_id) {
            Some(t) => *t,
            None => 0,
        };
        let total = match current.checked_add(amount) {
            Some(t) => t,
            None => return Err(BillingError::Overflow),
        };
        self.totals.set(meter_id, total);
        Ok(total)
    }

    /// Pays a fixed amount against a meter, optionally converted into USD first.
    /// Returns the amount charged.
    pub fn pay_bill_with_oracle(
        &mut self,
        meter_id: String,
        amount: i128,
        currency: &String,
        use_exchange_rate: bool,
        now: u64,
    ) -> (r: Result<i128, BillingError>)
        requires
            old(self).wf(),
        ensures
            final(self).wf(),
            match old(self).oracle_charge(amount, currency@, use_exchange_rate, now) {
                Err(e) => r == Err::<i128, BillingError>(e),
                Ok(charge) => match checked(old(self).paid(meter_id@) + charge) {
                    None => r == Err::<i128, BillingError>(BillingError::Overflow),
                    Some(t) => r == Ok::<i128, BillingError>(charge) && final(self).totals()
                        == old(self).totals().insert(meter_id@, t as i128),
                },
            },
            r is Err ==> *final(self) == *old(self),
            final(self).multi_utility == old(self).multi_utility,
            final(self).oracle == old(self).oracle,
            final(self).upgrades_unchanged(*old(self)),
            final(self).records == old(self).records,
            final(self).utility_bills == old(self).utility_bills,
    {
        let charge = if use_exchange_rate {
            let usd = String::from_str("USD");
            let feed_id = join_key(currency, &usd);
            let feed = self.oracle.trusted_price_feed(&feed_id, now)?;
            convert_amount(amount, feed.price, feed.decimals)?
        } else {
            amount
        };
        self.add_to_total(meter_id, charge)?;
        Ok(charge)
    }

    /// Pays a fixed amount against a meter; returns the meter's new total.
    pub fn pay_bill(&mut self, meter_id: String, amount: i128) -> (r: Result<i128, BillingError>)
        requires
            old(self).wf(),
        ensures
            final(self).wf(),
            r == amount_result(checked(old(self).paid(meter_id@) + amount)),
            r is Err ==> *final(self) == *old(self),
            r matches Ok(t) ==> final(self).totals() == old(self).totals().insert(meter_id@, t),
            final(self).multi_utility == old(self).multi_utility,
            final(self).oracle == old(self).oracle,
            final(self).upgrades_unchanged(*old(self)),
            final(self).records == old(self).records,
            final(self).utility_bills == old(self).utility_bills,
    {
        self.add_to_total(meter_id, amount)
    }

    /// Total paid against a meter through the direct payment paths.
    pub fn get_total_paid(&self, meter_id: &String) -> (r: i128)
        requires
            self.wf(),
        ensures
            r == self.paid(meter_id@),
    {
        match self.totals.get(meter_id) {
            Some(t) => *t,
            None => 0,
        }
    }

    /// What `pay_utility_bill` charges: the consumption at the trusted commodity rate
    /// `<utility_type>_<region>`, converted into `currency`; with the rate used.
    pub open spec fn utility_charge(
        &self,
        kwh_consumed: i128,
        utility_type: Seq<char>,
        region: Seq<char>,
        currency: Seq<char>,
        now: u64,
    ) -> Result<(i128, i128), BillingError> {
        let id = config_key(utility_type, region);
        if !self.oracle.rates().contains_key(id) {
            Err(BillingError::NotFound(Entity::UtilityRate))
        } else {
            let rate = self.oracle.rates()[id];
            if !is_usable(self.oracle.config(), rate.last_updated, rate.reliability_score, now) {
                Err(BillingError::ReliabilityTooLow)
            } else {
                match checked(kwh_consumed * rate.rate_per_kwh) {
                    None => Err(BillingError::Overflow),
                    Some(subtotal) => match self.converted(subtotal, rate.currency@, currency, now) {
                        Err(e) => Err(e),
                        Ok(f) => Ok((rate.rate_per_kwh, f)),
                    },
                }
            }
        }
    }

    /// Bills a consumption at the price store's commodity rate and records it;
    /// returns the amount charged.
    pub fn pay_utility_bill(
        &mut self,
        meter_id: String,
        kwh_consumed: i128,
        utility_type: String,
        region: &String,
        currency: &String,
        now: u64,
    ) -> (r: Result<i128, BillingError>)
        requires
            old(self).wf(),
        ensures
            final(self).wf(),
            match old(self).utility_charge(kwh_consumed, utility_type@, region@, currency@, now) {
                Err(e) => r == Err::<i128, BillingError>(e) && *final(self) == *old(self),
                Ok((rate, charge)) => r == Ok::<i128, BillingError>(charge) && final(self).utility_bills()
                    == old(self).utility_bills().push(
                    UtilityBillRecord {
                        meter_id,
                        timestamp: now,
                        kwh_consumed,
                        rate_per_kwh: rate,
                        final_amount: charge,
                        utility_type,
                    },
                ),
            },
            final(self).multi_utility == old(self).multi_utility,
            final(self).oracle == old(self).oracle,
            final(self).upgrades_unchanged(*old(self)),
            final(self).records == old(self).records,
            final(self).totals == old(self).totals,
    {
        let rate_id = join_key(&utility_type, region);
        let rate = match self.oracle.get_utility_rate(&rate_id) {
            Some(u) => u,
            None => return Err(BillingError::NotFound(Entity::UtilityRate)),
        };
        if !crate::oracle::usable_at(self.oracle.get_config(), rate.last_updated, rate.reliability_score, now) {
            return Err(BillingError::ReliabilityTooLow);
        }
        let subtotal = match kwh_consumed.checked_mul(rate.rate_per_kwh) {
            Some(v) => v,
            None => return Err(BillingError::Overflow),
        };
        let rate_per_kwh = rate.rate_per_kwh;
        let charge = self.convert_currency(subtotal, &rate.currency, currency, now)?;
        self.utility_bills.push(
            UtilityBillRecord {
                meter_id,
                timestamp: now,
                kwh_consumed,
                rate_per_kwh,
                final_amount: charge,
                utility_type,
            },
        );
        Ok(charge)
    }

    /// The latest commodity-rate bill of a meter at a timestamp.
    pub fn get_utility_bill_details(&self, meter_id: &String, timestamp: u64) -> (r: Option<&UtilityBillRecord>)
        ensures
            r is None ==> forall|i: int|
                0 <= i < self.utility_bills().len() ==> !((#[trigger] self.utility_bills()[i]).meter_id@
                    == meter_id@ && self.utility_bills()[i].timestamp == timestamp),
            r matches Some(rec) ==> rec.meter_id@ == meter_id@ && rec.timestamp == timestamp
                && exists|i: int|
                0 <= i < self.utility_bills().len() && #[trigger] self.utility_bills()[i] == *rec,
    {
        let mut i: usize = self.utility_bills.len();
        while i > 0
            invariant
                i <= self.utility_bills@.len(),
                forall|j: int|
                    i <= j < self.utility_bills@.len() ==> !((#[trigger] self.utility_bills@[j]).meter_id@
                        == meter_id@ && self.utility_bills@[j].timestamp == timestamp),
            decreases i,
        {
            i -= 1;
            let rec = &self.utility_bills[i];
            if rec.timestamp == timestamp && rec.meter_id == *meter_id {
                assert(self.utility_bills()[i as int] == *rec);
                return Some(rec);
            }
        }
        None
    }

    /// Whether the price feeds and the commodity rates are due a refresh at `now`.
    pub fn should_update_oracles(&self, now: u64) -> (r: (bool, bool))
        ensures
            r == (match self.oracle.last_feed_refresh() {
                Some(t) => !crate::oracle::is_fresh(self.oracle.config(), t, now),
                None => true,
            }, match self.oracle.last_rate_refresh() {
                Some(t) => !crate::oracle::is_fresh(self.oracle.config(), t, now),
                None => true,
            }),
    {
        (self.oracle.should_update_price_feeds(now), self.oracle.should_update_utility_rates(now))
    }

    /// Resets the upgrade proxy, version catalogue and migration store under `admin`.
    pub fn initialize_upgrade_system(&mut self, admin: Address)
        requires
            old(self).wf(),
        ensures
            final(self).wf(),
            final(self).upgrade_proxy.admin() == admin,
            final(self).upgrade_proxy.version() == 1,
            final(self).version_manager.admin() == admin,
            final(self).version_manager.entries().len() == 0,
            final(self).data_migration.admin() == admin,
            final(self).data_migration.scripts().len() == 0,
            final(self).multi_utility == old(self).multi_utility,
            final(self).oracle == old(self).oracle,
            final(self).records == old(self).records,
            final(self).utility_bills == old(self).utility_bills,
            final(self).totals == old(self).totals,
    {
        self.upgrade_proxy = UpgradeProxy::initialize(admin.duplicate());
        self.version_manager = VersionManager::initialize(admin.duplicate());
        self.data_migration = DataMigration::initialize(admin);
    }

    /// Which result `upgrade_contract` owes, in the order the checks run.
    pub open spec fn upgrade_contract_outcome(&self, admin: Seq<char>, new_version: u32) -> Result<
        (),
        BillingError,
    > {
        let current = self.upgrade_proxy.version();
        let vm = self.version_manager;
        if vm.info(current) is None || vm.info(new_version) is None {
            Err(BillingError::NotFound(Entity::Version))
        } else if !vm.info(new_version)->Some_0.backward_compatible && current < new_version {
            Err(BillingError::UnsafeUpgrade)
        } else if admin != self.data_migration.admin()@ {
            Err(BillingError::Unauthorized)
        } else if admin != self.upgrade_proxy.admin()@ {
            Err(BillingError::Unauthorized)
        } else if vm.info(new_version)->Some_0.migration_required && !self.data_migration.has_script(
            current,
            new_version,
        ) {
            Err(BillingError::NotFound(Entity::MigrationScript))
        } else {
            Ok(())
        }
    }

    /// Moves the contract to a registered version when that is safe: takes a
    /// backup, switches the implementation, and runs the migration the version
    /// needs. Either all of it happens or none of it.
    pub fn upgrade_contract(
        &mut self,
        admin: &Address,
        new_implementation: Address,
        new_version: u32,
        now: u64,
    ) -> (r: Result<(), BillingError>)
        requires
            old(self).wf(),
        ensures
            final(self).wf(),
            r == old(self).upgrade_contract_outcome(admin@, new_version),
            r is Err ==> *final(self) == *old(self),
            r is Ok ==> final(self).upgrade_proxy.version() == new_version,
            r is Ok ==> final(self).upgrade_proxy.implementation() == Some(new_implementation),
            r is Ok ==> final(self).data_migration.backups() == old(self).data_migration.backups().push(
                now,
            ),
            final(self).version_manager == old(self).version_manager,
            final(self).data_migration.scripts() == old(self).data_migration.scripts(),
            final(self).multi_utility == old(self).multi_utility,
            final(self).oracle == old(self).oracle,
            final(self).records == old(self).records,
            final(self).utility_bills == old(self).utility_bills,
            final(self).totals == old(self).totals,
    {
        let current = self.upgrade_proxy.get_version();
        if !self.version_manager.is_upgrade_safe(current, new_version)? {
            return Err(BillingError::UnsafeUpgrade);
        }
        if !self.data_migration.is_admin(admin) || !self.upgrade_proxy.is_admin(admin) {
            return Err(BillingError::Unauthorized);
        }
        let migration_required = match self.version_manager.get_version_info(new_version) {
            Some(info) => info.migration_required,
            None => return Err(BillingError::NotFound(Entity::Version)),
        };
        if migration_required {
            self.data_migration.execute_migration(admin, current, new_version)?;
        }
        self.data_migration.backup_data(admin, now)?;
        self.upgrade_proxy.upgrade(admin, new_implementation, new_version)?;
        Ok(())
    }

    pub fn register_contract_version(
        &mut self,
        admin: &Address,
        version: u32,
        implementation_address: Address,
        migration_required: bool,
        backward_compatible: bool,
        now: u64,
    ) -> (r: Result<(), BillingError>)
        requires
            old(self).wf(),
        ensures
            final(self).wf(),
            r == (if admin@ != old(self).version_manager.admin()@ {
                Err(BillingError::Unauthorized)
            } else {
                Ok(())
            }),
            r is Err ==> *final(self) == *old(self),
            r is Ok ==> final(self).version_manager.info(version) == Some(
                ContractVersion {
                    version,
                    implementation_address,
                    deployment_timestamp: now,
                    migration_required,
                    backward_compatible,
                },
            ),
            r is Ok ==> forall|v: u32|
                v != version ==> #[trigger] final(self).version_manager.info(v) == old(
                    self,
                ).version_manager.info(v),
            final(self).version_manager.admin() == old(self).version_manager.admin(),
            final(self).upgrade_proxy == old(self).upgrade_proxy,
            final(self).data_migration == old(self).data_migration,
            final(self).multi_utility == old(self).multi_utility,
            final(self).oracle == old(self).oracle,
            final(self).records == old(self).records,
            final(self).utility_bills == old(self).utility_bills,
            final(self).totals == old(self).totals,
    {
        self.version_manager.register_version(
            admin,
            version,
            implementation_address,
            migration_required,
            backward_compatible,
            now,
        )
    }

    pub fn get_contract_version(&self) -> (r: u32)
        ensures
            r == self.upgrade_proxy.version(),
    {
        self.upgrade_proxy.get_version()
    }

    /// Version, implementation, and whether the proxy is administered by the
    /// contract at `contract_address` itself.
    pub fn get_upgrade_info(&self, contract_address: &Address) -> (r: (u32, Option<&Address>, bool))
        ensures
            r.0 == self.upgrade_proxy.version(),
            r.1 == match self.upgrade_proxy.implementation() {
                Some(a) => Some(&a),
                None => None::<&Address>,
            },
            r.2 == (self.upgrade_proxy.admin()@ == contract_address@),
    {
        (
            self.upgrade_proxy.get_version(),
            self.upgrade_proxy.get_implementation(),
            self.upgrade_proxy.is_admin(contract_address),
        )
    }

    pub fn list_contract_versions(&self) -> (r: &Vec<ContractVersion>)
        ensures
            r@ == self.version_manager.entries(),
    {
        self.version_manager.list_versions()
    }

    /// Whether a version above the current one is registered.
    pub fn is_upgrade_available(&self) -> (r: bool)
        ensures
            r == exists|i: int|
                0 <= i < self.version_manager.entries().len() && (
                #[trigger] self.version_manager.entries()[i]).version
                    > self.upgrade_proxy.version(),
    {
        let current = self.upgrade_proxy.get_version();
        match self.version_manager.get_latest_version() {
            Some(latest) => {
                proof {
                    let s = self.version_manager.entries();
                    let j = choose|j: int| 0 <= j < s.len() && (#[trigger] s[j]).version == latest;
                    assert(s[j].version == latest);
                }
                latest > current
            },
            None => false,
        }
    }

    /// Whether the current version needs a data migration, and that version when
    /// it is registered.
    pub fn get_migration_status(&self) -> (r: (bool, Option<u32>))
        requires
            self.wf(),
        ensures
            r == match self.version_manager.info(self.upgrade_proxy.version()) {
                Some(info) => (info.migration_required, Some(info.version)),
                None => (false, None),
            },
    {
        match self.version_manager.get_version_info(self.upgrade_proxy.get_version()) {
            Some(info) => (info.migration_required, Some(info.version)),
            None => (false, None),
        }
    }

    /// Replaces the registry with an empty one administered by `admin`.
    pub fn initialize_multi_utility(&mut self, admin: Address)
        requires
            old(self).wf(),
        ensures
            final(self).wf(),
            final(self).multi_utility.admin() == admin,
            final(self).multi_utility.providers() == Map::<Seq<char>, UtilityProvider>::empty(),
            final(self).multi_utility.configs() == Map::<Seq<char>, UtilityConfig>::empty(),
            final(self).multi_utility.meters() == Map::<Seq<char>, UtilityMeter>::empty(),
            final(self).multi_utility.fees() == Map::<Seq<char>, UtilityFee>::empty(),
            final(self).multi_utility.version_log().len() == 0,
            final(self).same_but_registry(*old(self)),
    {
        self.multi_utility = MultiUtilityManager::initialize(admin);
    }

    pub fn register_utility_provider(
        &mut self,
        admin: &Address,
        provider_id: String,
        name: String,
        provider_address: Address,
        utility_type: u8,
        region: String,
        license_number: String,
        contact_info: String,
        now: u64,
    ) -> (r: Result<(), BillingError>)
        requires
            old(self).wf(),
        ensures
            final(self).wf(),
            r == MultiUtilityManager::register_outcome(
                old(self).multi_utility,
                admin@,
                provider_id@,
                utility_type,
            ),
            r is Err ==> *final(self) == *old(self),
            r is Ok ==> final(self).multi_utility.providers() == old(self).multi_utility.providers().insert(
                provider_id@,
                new_provider(
                    provider_id,
                    name,
                    provider_address,
                    utility_type,
                    region,
                    license_number,
                    contact_info,
                    now,
                ),
            ),
            final(self).multi_utility.same_but_providers(old(self).multi_utility),
            final(self).same_but_registry(*old(self)),
    {
        self.multi_utility.register_provider(
            admin,
            provider_id,
            name,
            provider_address,
            utility_type,
            region,
            license_number,
            contact_info,
            now,
        )
    }

    pub fn add_utility_configuration(
        &mut self,
        admin: &Address,
        config_id: String,
        utility_type: u8,
        provider_id: String,
        region: String,
        base_rate: i128,
        currency: String,
        decimals: u32,
        billing_cycle_days: u32,
        grace_period_days: u32,
        minimum_payment: i128,
        maximum_payment: i128,
        now: u64,
    ) -> (r: Result<(), BillingError>)
        requires
            old(self).wf(),
        ensures
            final(self).wf(),
            r == MultiUtilityManager::add_config_outcome(
                old(self).multi_utility,
                admin@,
                config_id@,
                utility_type,
                provider_id@,
            ),
            r is Err ==> *final(self) == *old(self),
            r is Ok ==> ({
                let c = final(self).multi_utility.configs()[config_id@];
                &&& final(self).multi_utility.configs().dom() == old(
                    self,
                ).multi_utility.configs().dom().insert(config_id@)
                &&& c.provider_id == provider_id
                &&& c.region == region
                &&& c.base_rate == base_rate
                &&& c.currency == currency
                &&& c.decimals == decimals
                &&& c.minimum_payment == minimum_payment
                &&& c.maximum_payment == maximum_payment
                &&& c.billing_cycle_days == billing_cycle_days
                &&& c.grace_period_days == grace_period_days
                &&& c.is_active
                &&& c.version == 1
                &&& c.last_updated == now
            }),
            final(self).multi_utility.same_but_configs(old(self).multi_utility),
            final(self).multi_utility.version_log() == old(self).multi_utility.version_log(),
            final(self).same_but_registry(*old(self)),
    {
        self.multi_utility.add_utility_config(
            admin,
            config_id,
            utility_type,
            provider_id,
            region,
            base_rate,
            currency,
            decimals,
            billing_cycle_days,
            grace_period_days,
            minimum_payment,
            maximum_payment,
            now,
        )
    }

    pub fn register_utility_meter(
        &mut self,
        provider_address: &Address,
        meter_id: String,
        utility_type: u8,
        provider_id: String,
        customer_address: Address,
        location: String,
        meter_model: String,
        firmware_version: String,
        is_smart_meter: bool,
        now: u64,
    ) -> (r: Result<(), BillingError>)
        requires
            old(self).wf(),
        ensures
            final(self).wf(),
            r == MultiUtilityManager::register_meter_outcome(
                old(self).multi_utility,
                provider_address@,
                meter_id@,
                utility_type,
                provider_id@,
            ),
            r is Err ==> *final(self) == *old(self),
            r is Ok ==> final(self).multi_utility.meters() == old(self).multi_utility.meters().insert(
                meter_id@,
                UtilityMeter {
                    meter_id,
                    utility_type: utility_type_of(utility_type),
                    provider_id,
                    customer_address,
                    installation_date: now,
                    last_reading: 0,
                    last_reading_date: now,
                    is_active: true,
                    is_smart_meter,
                    location,
                    meter_model,
                    firmware_version,
                },
            ),
            final(self).multi_utility.provider_entries() == old(self).multi_utility.provider_entries(),
            final(self).multi_utility.config_entries() == old(self).multi_utility.config_entries(),
            final(self).multi_utility.fee_entries() == old(self).multi_utility.fee_entries(),
            final(self).multi_utility.version_log() == old(self).multi_utility.version_log(),
            final(self).multi_utility.admin() == old(self).multi_utility.admin(),
            final(self).same_but_registry(*old(self)),
    {
        self.multi_utility.register_meter(
            provider_address,
            meter_id,
            utility_type,
            provider_id,
            customer_address,
            location,
            meter_model,
            firmware_version,
            is_smart_meter,
            now,
        )
    }

    pub fn add_utility_fee_structure(
        &mut self,
        admin: &Address,
        fee_id: String,
        utility_type: u8,
        provider_id: String,
        fee_type: u8,
        fee_amount: i128,
        fee_percentage: Option<i128>,
        is_percentage: bool,
        description: String,
        now: u64,
    ) -> (r: Result<(), BillingError>)
        requires
            old(self).wf(),
        ensures
            final(self).wf(),
            r == MultiUtilityManager::add_fee_outcome(
                old(self).multi_utility,
                admin@,
                fee_id@,
                utility_type,
                provider_id@,
                fee_type,
            ),
            r is Err ==> *final(self) == *old(self),
            r is Ok ==> final(self).multi_utility.fees() == old(self).multi_utility.fees().insert(
                fee_id@,
                UtilityFee {
                    fee_id,
                    utility_type: utility_type_of(utility_type),
                    provider_id,
                    fee_type: fee_type_of(fee_type),
                    fee_amount,
                    fee_percentage,
                    is_percentage,
                    description,
                    is_active: true,
                    created_at: now,
                },
            ),
            final(self).multi_utility.provider_entries() == old(self).multi_utility.provider_entries(),
            final(self).multi_utility.config_entries() == old(self).multi_utility.config_entries(),
            final(self).multi_utility.meter_entries() == old(self).multi_utility.meter_entries(),
            final(self).multi_utility.version_log() == old(self).multi_utility.version_log(),
            final(self).multi_utility.admin() == old(self).multi_utility.admin(),
            final(self).same_but_registry(*old(self)),
    {
        self.multi_utility.add_utility_fee(
            admin,
            fee_id,
            utility_type,
            provider_id,
            fee_type,
            fee_amount,
            fee_percentage,
            is_percentage,
            description,
            now,
        )
    }

    pub fn update_provider_status(&mut self, admin: &Address, provider_id: &String, is_active: bool) -> (r:
        Result<(), BillingError>)
        requires
            old(self).wf(),
        ensures
            final(self).wf(),
            r == (if admin@ != old(self).multi_utility.admin()@ {
                Err(BillingError::Unauthorized)
            } else if !old(self).multi_utility.providers().contains_key(provider_id@) {
                Err(BillingError::NotFound(Entity::Provider))
            } else {
                Ok(())
            }),
            r is Err ==> *final(self) == *old(self),
            r is Ok ==> final(self).multi_utility.providers() == old(self).multi_utility.providers().insert(
                provider_id@,
                UtilityProvider { is_active, ..old(self).multi_utility.providers()[provider_id@] },
            ),
            final(self).multi_utility.same_but_providers(old(self).multi_utility),
            final(self).same_but_registry(*old(self)),
    {
        self.multi_utility.update_provider_status(admin, provider_id, is_active)
    }

    pub fn upgrade_utility_configuration(
        &mut self,
        admin: &Address,
        config_id: String,
        new_config: UtilityConfig,
        now: u64,
    ) -> (r: Result<(), BillingError>)
        requires
            old(self).wf(),
        ensures
            final(self).wf(),
            r == MultiUtilityManager::upgrade_outcome(old(self).multi_utility, admin@, config_id@),
            r is Err ==> *final(self) == *old(self),
            r is Ok ==> final(self).multi_utility.configs() == old(self).multi_utility.configs().insert(
                config_id@,
                UtilityConfig {
                    version: (old(self).multi_utility.configs()[config_id@].version + 1) as u32,
                    last_updated: now,
                    ..new_config
                },
            ),
            r is Ok ==> MultiUtilityManager::upgraded(
                old(self).multi_utility,
                final(self).multi_utility,
                config_id@,
            ),
            final(self).multi_utility.same_but_configs(old(self).multi_utility),
            final(self).same_but_registry(*old(self)),
    {
        self.multi_utility.upgrade_utility_config(admin, config_id, new_config, now)
    }

    pub fn get_utility_provider(&self, provider_id: &String) -> (r: Option<&UtilityProvider>)
        requires
            self.wf(),
        ensures
            r is Some <==> self.multi_utility.providers().contains_key(provider_id@),
            r matches Some(p) ==> *p == self.multi_utility.providers()[provider_id@],
    {
        self.multi_utility.get_provider(provider_id)
    }

    pub fn get_utility_configuration(&self, config_id: &String) -> (r: Option<&UtilityConfig>)
        requires
            self.wf(),
        ensures
            r is Some <==> self.multi_utility.configs().contains_key(config_id@),
            r matches Some(c) ==> *c == self.multi_utility.configs()[config_id@],
    {
        self.multi_utility.get_utility_config(config_id)
    }

    pub fn get_utility_meter_info(&self, meter_id: &String) -> (r: Option<&UtilityMeter>)
        requires
            self.wf(),
        ensures
            r is Some <==> self.multi_utility.meters().contains_key(meter_id@),
            r matches Some(m) ==> *m == self.multi_utility.meters()[meter_id@],
    {
        self.multi_utility.get_meter(meter_id)
    }

    pub fn get_utility_fee_info(&self, fee_id: &String) -> (r: Option<&UtilityFee>)
        requires
            self.wf(),
        ensures
            r is Some <==> self.multi_utility.fees().contains_key(fee_id@),
            r matches Some(f) ==> *f == self.multi_utility.fees()[fee_id@],
    {
        self.multi_utility.get_utility_fee(fee_id)
    }

    pub fn list_providers(&self, utility_type: u8, region: &String) -> (r: Result<
        Vec<UtilityProvider>,
        BillingError,
    >)
        requires
            self.wf(),
        ensures
            !valid_utility_code(utility_type) ==> r == Err::<Vec<UtilityProvider>, BillingError>(
                BillingError::InvalidEnum,
            ),
            valid_utility_code(utility_type) ==> (r matches Ok(v) && v@ == self.multi_utility.listing(
                utility_type_of(utility_type),
                region@,
            )),
    {
        self.multi_utility.list_providers_by_type_and_region(utility_type, region)
    }

    pub fn validate_utility_type(&self, utility_type: u8) -> (r: Result<(), BillingError>)
        ensures
            r is Ok <==> valid_utility_code(utility_type),
            r is Err ==> r == Err::<(), BillingError>(BillingError::InvalidEnum),
    {
        self.multi_utility.validate_utility_type(utility_type)
    }

    pub fn get_supported_utility_types(&self) -> (r: Vec<(u8, String)>)
        ensures
            r@.len() == 8,
            forall|i: int|
                0 <= i < 8 ==> (#[trigger] r@[i]).0 == i + 1 && r@[i].1@ == utility_name(
                    utility_type_of((i + 1) as u8),
                ),
    {
        self.multi_utility.get_utility_types()
    }

    pub fn add_price_feed(&mut self, admin: &Address, feed_id: String, price_feed: PriceFeed) -> (r:
        Result<(), BillingError>)
        requires
            old(self).wf(),
        ensures
            final(self).wf(),
            r == (if admin@ != old(self).oracle.admin()@ {
                Err(BillingError::Unauthorized)
            } else if old(self).oracle.feeds().contains_key(feed_id@) {
                Err(BillingError::AlreadyRegistered(Entity::PriceFeed))
            } else {
                Ok(())
            }),
            r is Err ==> *final(self) == *old(self),
            r is Ok ==> final(self).oracle.feeds() == old(self).oracle.feeds().insert(feed_id@, price_feed),
            final(self).oracle.others_unchanged(old(self).oracle),
            final(self).oracle.rate_entries() == old(self).oracle.rate_entries(),
            final(self).same_but_oracle(*old(self)),
    {
        self.oracle.add_price_feed(admin, feed_id, price_feed)
    }

    pub fn update_price_feed(&mut self, feed_id: &String, new_price: i128, timestamp: u64, now: u64) -> (r:
        Result<(), BillingError>)
        requires
            old(self).wf(),
        ensures
            final(self).wf(),
            r == (if !old(self).oracle.feeds().contains_key(feed_id@) {
                Err(BillingError::NotFound(Entity::PriceFeed))
            } else if !is_fresh(old(self).oracle.config(), timestamp, now) {
                Err(BillingError::DataTooOld)
            } else {
                Ok(())
            }),
            r is Err ==> *final(self) == *old(self),
            r is Ok ==> final(self).oracle.feeds() == old(self).oracle.feeds().insert(
                feed_id@,
                PriceFeed {
                    price: new_price,
                    last_updated: timestamp,
                    ..old(self).oracle.feeds()[feed_id@]
                },
            ),
            final(self).oracle.others_unchanged(old(self).oracle),
            final(self).oracle.rate_entries() == old(self).oracle.rate_entries(),
            final(self).same_but_oracle(*old(self)),
    {
        self.oracle.update_price_feed(feed_id, new_price, timestamp, now)
    }

    pub fn get_price_feed(&self, feed_id: &String) -> (r: Option<&PriceFeed>)
        requires
            self.wf(),
        ensures
            r is Some <==> self.oracle.feeds().contains_key(feed_id@),
            r matches Some(f) ==> *f == self.oracle.feeds()[feed_id@],
    {
        self.oracle.get_price_feed(feed_id)
    }

    pub fn add_utility_rate(&mut self, admin: &Address, rate_id: String, utility_rate: UtilityRate) -> (r:
        Result<(), BillingError>)
        requires
            old(self).wf(),
        ensures
            final(self).wf(),
            r == (if admin@ != old(self).oracle.admin()@ {
                Err(BillingError::Unauthorized)
            } else if old(self).oracle.rates().contains_key(rate_id@) {
                Err(BillingError::AlreadyRegistered(Entity::UtilityRate))
            } else {
                Ok(())
            }),
            r is Err ==> *final(self) == *old(self),
            r is Ok ==> final(self).oracle.rates() == old(self).oracle.rates().insert(rate_id@, utility_rate),
            final(self).oracle.others_unchanged(old(self).oracle),
            final(self).oracle.feed_entries() == old(self).oracle.feed_entries(),
            final(self).same_but_oracle(*old(self)),
    {
        self.oracle.add_utility_rate(admin, rate_id, utility_rate)
    }

    pub fn update_utility_rate(&mut self, rate_id: &String, new_rate: i128, timestamp: u64, now: u64) -> (r:
        Result<(), BillingError>)
        requires
            old(self).wf(),
        ensures
            final(self).wf(),
            r == (if !old(self).oracle.rates().contains_key(rate_id@) {
                Err(BillingError::NotFound(Entity::UtilityRate))
            } else if !is_fresh(old(self).oracle.config(), timestamp, now) {
                Err(BillingError::DataTooOld)
            } else {
                Ok(())
            }),
            r is Err ==> *final(self) == *old(self),
            r is Ok ==> final(self).oracle.rates() == old(self).oracle.rates().insert(
                rate_id@,
                UtilityRate {
                    rate_per_kwh: new_rate,
                    last_updated: timestamp,
                    ..old(self).oracle.rates()[rate_id@]
                },
            ),
            final(self).oracle.others_unchanged(old(self).oracle),
            final(self).oracle.feed_entries() == old(self).oracle.feed_entries(),
            final(self).same_but_oracle(*old(self)),
    {
        self.oracle.update_utility_rate(rate_id, new_rate, timestamp, now)
    }

    pub fn get_utility_rate(&self, rate_id: &String) -> (r: Option<&UtilityRate>)
        requires
            self.wf(),
        ensures
            r is Some <==> self.oracle.rates().contains_key(rate_id@),
            r matches Some(u) ==> *u == self.oracle.rates()[rate_id@],
    {
        self.oracle.get_utility_rate(rate_id)
    }

    pub fn get_oracle_stats(&self) -> (r: (OracleCost, OracleReliability, u32))
        ensures
            r == (self.oracle.cost(), self.oracle.reliability(), self.oracle.reliability().reliability_score),
    {
        self.oracle.get_oracle_stats()
    }
}

} // verus!
