use vstd::prelude::*;

use crate::error::{BillingError, Entity};
use crate::pricing::trunc_div;
use crate::table::{entries_map, Table};
use crate::types::Address;

verus! {

/// Trust thresholds for external data.
#[derive(Clone, Copy, Debug, PartialEq, Eq, Structural)]
pub struct OracleConfig {
    pub max_age_seconds: u64,
    pub min_reliability_score: u32,
    pub fallback_enabled: bool,
    pub cost_limit_per_call: i128,
}

/// An exchange rate between two assets, scaled by `10^decimals`.
#[derive(Clone, Debug)]
pub struct PriceFeed {
    pub feed_address: Address,
    pub base_asset: String,
    pub quote_asset: String,
    pub decimals: u32,
    pub last_updated: u64,
    pub price: i128,
    /// Confidence in the feed, 0 to 100.
    pub reliability_score: u32,
}

/// A commodity rate of a utility in a region.
#[derive(Clone, Debug)]
pub struct UtilityRate {
    pub utility_type: String,
    pub rate_per_kwh: i128,
    pub currency: String,
    pub region: String,
    pub last_updated: u64,
    /// Confidence in the rate, 0 to 100.
    pub reliability_score: u32,
}

#[derive(Clone, Copy, Debug, PartialEq, Eq, Structural)]
pub struct OracleCost {
    pub total_spent: i128,
    pub calls_made: u64,
    pub average_cost_per_call: i128,
}

#[derive(Clone, Copy, Debug, PartialEq, Eq, Structural)]
pub struct OracleReliability {
    pub total_calls: u64,
    pub successful_calls: u64,
    pub failed_calls: u64,
    /// Weighted score, 0 to 100.
    pub reliability_score: u32,
}

/// Score a tracker starts from.
pub const NEUTRAL_RELIABILITY: u32 = 50;

/// Responses up to this many milliseconds count as prompt.
pub const PROMPT_RESPONSE_MS: u64 = 1000;

/// A datum is fresh when it is at most `max_age_seconds` old at `now`.
pub open spec fn is_fresh(config: OracleConfig, last_updated: u64, now: u64) -> bool {
    now - last_updated <= config.max_age_seconds
}

/// The reliability and staleness check: fresh and reliable enough.
pub open spec fn is_usable(config: OracleConfig, last_updated: u64, score: u32, now: u64) -> bool {
    is_fresh(config, last_updated, now) && score >= config.min_reliability_score
}

/// Score a single call earns: nothing for a failure; for a success, 100 less one
/// point per 100 ms beyond a prompt response, at most 50 less.
pub open spec fn outcome_score(success: bool, response_time_ms: u64) -> int {
    if !success {
        0
    } else if response_time_ms <= PROMPT_RESPONSE_MS {
        100
    } else {
        let penalty = (response_time_ms - PROMPT_RESPONSE_MS) / 100;
        100 - if penalty > 50 {
            50
        } else {
            penalty
        }
    }
}

/// The new score: a tenth of the way from the old score to the call's outcome,
/// rounded toward the outcome so that a long run of equal outcomes reaches it.
pub open spec fn next_score(score: int, success: bool, response_time_ms: u64) -> int {
    let target = outcome_score(success, response_time_ms);
    if target >= score {
        score + (target - score + 9) / 10
    } else {
        score - (score - target + 9) / 10
    }
}

/// Sanity bounds on an externally supplied magnitude, whatever its scale.
pub fn validate_external_data(value: i128, min_value: i128, max_value: i128, decimals: u32) -> (r:
    bool)
    ensures
        r == (min_value <= value <= max_value),
{
    min_value <= value && value <= max_value
}

/// Whether a datum passes the freshness bound at `now`.
pub fn fresh_at(config: &OracleConfig, last_updated: u64, now: u64) -> (r: bool)
    ensures
        r == is_fresh(*config, last_updated, now),
{
    now <= last_updated || now - last_updated <= config.max_age_seconds
}

/// Whether a datum passes the reliability and staleness check at `now`.
pub fn usable_at(config: &OracleConfig, last_updated: u64, score: u32, now: u64) -> (r: bool)
    ensures
        r == is_usable(*config, last_updated, score, now),
{
    fresh_at(config, last_updated, now) && score >= config.min_reliability_score
}

/// The store of price feeds and commodity rates, with call statistics.
pub struct OracleManager {
    admin: Address,
    config: OracleConfig,
    price_feeds: Table<PriceFeed>,
    utility_rates: Table<UtilityRate>,
    cost: OracleCost,
    reliability: OracleReliability,
    last_feed_refresh: Option<u64>,
    last_rate_refresh: Option<u64>,
}

impl OracleManager {
    pub closed spec fn admin(&self) -> Address {
        self.admin
    }

    pub closed spec fn config(&self) -> OracleConfig {
        self.config
    }

    pub closed spec fn feed_entries(&self) -> Seq<(String, PriceFeed)> {
        self.price_feeds.seq()
    }

    pub closed spec fn rate_entries(&self) -> Seq<(String, UtilityRate)> {
        self.utility_rates.seq()
    }

    pub closed spec fn cost(&self) -> OracleCost {
        self.cost
    }

    pub closed spec fn reliability(&self) -> OracleReliability {
        self.reliability
    }

    pub closed spec fn last_feed_refresh(&self) -> Option<u64> {
        self.last_feed_refresh
    }

    pub closed spec fn last_rate_refresh(&self) -> Option<u64> {
        self.last_rate_refresh
    }

    pub closed spec fn wf(&self) -> bool {
        &&& self.price_feeds.wf()
        &&& self.utility_rates.wf()
        &&& self.reliability.reliability_score <= 100
    }

    pub open spec fn feeds(&self) -> Map<Seq<char>, PriceFeed> {
        entries_map(self.feed_entries())
    }

    pub open spec fn rates(&self) -> Map<Seq<char>, UtilityRate> {
        entries_map(self.rate_entries())
    }

    /// Everything but the feeds and the rates is as in `o`.
    pub open spec fn others_unchanged(&self, o: OracleManager) -> bool {
        &&& self.admin() == o.admin()
        &&& self.config() == o.config()
        &&& self.cost() == o.cost()
        &&& self.reliability() == o.reliability()
        &&& self.last_feed_refresh() == o.last_feed_refresh()
        &&& self.last_rate_refresh() == o.last_rate_refresh()
    }

    /// The price of a feed that passes the trust check at `now`.
    pub open spec fn usable_price(&self, feed_id: Seq<char>, now: u64) -> Option<i128> {
        if self.feeds().contains_key(feed_id) && is_usable(
            self.config(),
            self.feeds()[feed_id].last_updated,
            self.feeds()[feed_id].reliability_score,
            now,
        ) {
            Some(self.feeds()[feed_id].price)
        } else {
            None
        }
    }

    /// Which result fetching feed `feed_id` through the trust check at `now` gives.
    pub open spec fn trusted_feed(&self, feed_id: Seq<char>, now: u64) -> Result<PriceFeed, BillingError> {
        if !self.feeds().contains_key(feed_id) {
            Err(BillingError::ExchangeRateUnavailable)
        } else if !is_usable(
            self.config(),
            self.feeds()[feed_id].last_updated,
            self.feeds()[feed_id].reliability_score,
            now,
        ) {
            Err(BillingError::ReliabilityTooLow)
        } else {
            Ok(self.feeds()[feed_id])
        }
    }

    /// A store with no data, the neutral reliability score and no spending.
    pub fn initialize_oracle(admin: Address, config: OracleConfig) -> (r: OracleManager)
        ensures
            r.wf(),
            r.admin() == admin,
            r.config() == config,
            r.feeds() == Map::<Seq<char>, PriceFeed>::empty(),
            r.rates() == Map::<Seq<char>, UtilityRate>::empty(),
            r.cost() == (OracleCost { total_spent: 0, calls_made: 0, average_cost_per_call: 0 }),
            r.reliability() == (OracleReliability {
                total_calls: 0,
                successful_calls: 0,
                failed_calls: 0,
                reliability_score: NEUTRAL_RELIABILITY,
            }),
            r.last_feed_refresh() is None,
            r.last_rate_refresh() is None,
    {
        OracleManager {
            admin,
            config,
            price_feeds: Table::new(),
            utility_rates: Table::new(),
            cost: OracleCost { total_spent: 0, calls_made: 0, average_cost_per_call: 0 },
            reliability: OracleReliability {
                total_calls: 0,
                successful_calls: 0,
                failed_calls: 0,
                reliability_score: NEUTRAL_RELIABILITY,
            },
            last_feed_refresh: None,
            last_rate_refresh: None,
        }
    }

    pub fn get_config(&self) -> (r: &OracleConfig)
        ensures
            *r == self.config(),
    {
        &self.config
    }

    /// Adds a price feed under a new id; only the administrator may.
    pub fn add_price_feed(&mut self, admin: &Address, feed_id: String, price_feed: PriceFeed) -> (r:
        Result<(), BillingError>)
        requires
            old(self).wf(),
        ensures
            final(self).wf(),
            r == (if admin@ != old(self).admin()@ {
                Err(BillingError::Unauthorized)
            } else if old(self).feeds().contains_key(feed_id@) {
                Err(BillingError::AlreadyRegistered(Entity::PriceFeed))
            } else {
                Ok(())
            }),
            r is Err ==> *final(self) == *old(self),
            final(self).others_unchanged(*old(self)),
            final(self).rate_entries() == old(self).rate_entries(),
            r is Ok ==> final(self).feeds() == old(self).feeds().insert(feed_id@, price_feed),
    {
        if !admin.same_as(&self.admin) {
            return Err(BillingError::Unauthorized);
        }
        if self.price_feeds.contains_key(&feed_id) {
            return Err(BillingError::AlreadyRegistered(Entity::PriceFeed));
        }
        self.price_feeds.insert_new(feed_id, price_feed);
        Ok(())
    }

    pub fn get_price_feed(&self, feed_id: &String) -> (r: Option<&PriceFeed>)
        requires
            self.wf(),
        ensures
            r is Some <==> self.feeds().contains_key(feed_id@),
            r matches Some(f) ==> *f == self.feeds()[feed_id@],
    {
        self.price_feeds.get(feed_id)
    }

    /// Records a new price observed at `timestamp`; data already stale at `now` is
    /// refused.
    pub fn update_price_feed(&mut self, feed_id: &String, new_price: i128, timestamp: u64, now: u64) -> (r:
        Result<(), BillingError>)
        requires
            old(self).wf(),
        ensures
            final(self).wf(),
            r == (if !old(self).feeds().contains_key(feed_id@) {
                Err(BillingError::NotFound(Entity::PriceFeed))
            } else if !is_fresh(old(self).config(), timestamp, now) {
                Err(BillingError::DataTooOld)
            } else {
                Ok(())
            }),
            r is Err ==> *final(self) == *old(self),
            r is Ok ==> final(self).feeds() == old(self).feeds().insert(
                feed_id@,
                PriceFeed { price: new_price, last_updated: timestamp, ..old(self).feeds()[feed_id@] },
            ),
            final(self).others_unchanged(*old(self)),
            final(self).rate_entries() == old(self).rate_entries(),
    {
        let i = match self.price_feeds.find(feed_id) {
            Some(i) => i,
            None => return Err(BillingError::NotFound(Entity::PriceFeed)),
        };
        if !fresh_at(&self.config, timestamp, now) {
            return Err(BillingError::DataTooOld);
        }
        proof {
            crate::table::lemma_key_index(self.feed_entries(), i as int);
        }
        let mut updated = copy_feed(&self.price_feeds.entry(i).1);
        updated.price = new_price;
        updated.last_updated = timestamp;
        self.price_feeds.replace_at(i, updated);
        Ok(())
    }

    /// Adds a commodity rate under a new id; only the administrator may.
    pub fn add_utility_rate(&mut self, admin: &Address, rate_id: String, utility_rate: UtilityRate) -> (r:
        Result<(), BillingError>)
        requires
            old(self).wf(),
        ensures
            final(self).wf(),
            r == (if admin@ != old(self).admin()@ {
                Err(BillingError::Unauthorized)
            } else if old(self).rates().contains_key(rate_id@) {
                Err(BillingError::AlreadyRegistered(Entity::UtilityRate))
            } else {
                Ok(())
            }),
            r is Err ==> *final(self) == *old(self),
            r is Ok ==> final(self).rates() == old(self).rates().insert(rate_id@, utility_rate),
            final(self).others_unchanged(*old(self)),
            final(self).feed_entries() == old(self).feed_entries(),
    {
        if !admin.same_as(&self.admin) {
            return Err(BillingError::Unauthorized);
        }
        if self.utility_rates.contains_key(&rate_id) {
            return Err(BillingError::AlreadyRegistered(Entity::UtilityRate));
        }
        self.utility_rates.insert_new(rate_id, utility_rate);
        Ok(())
    }

    pub fn get_utility_rate(&self, rate_id: &String) -> (r: Option<&UtilityRate>)
        requires
            self.wf(),
        ensures
            r is Some <==> self.rates().contains_key(rate_id@),
            r matches Some(u) ==> *u == self.rates()[rate_id@],
    {
        self.utility_rates.get(rate_id)
    }

    /// Records a new commodity rate observed at `timestamp`; data already stale at
    /// `now` is refused.
    pub fn update_utility_rate(&mut self, rate_id: &String, new_rate: i128, timestamp: u64, now: u64) -> (r:
        Result<(), BillingError>)
        requires
            old(self).wf(),
        ensures
            final(self).wf(),
            r == (if !old(self).rates().contains_key(rate_id@) {
                Err(BillingError::NotFound(Entity::UtilityRate))
            } else if !is_fresh(old(self).config(), timestamp, now) {
                Err(BillingError::DataTooOld)
            } else {
                Ok(())
            }),
            r is Err ==> *final(self) == *old(self),
            r is Ok ==> final(self).rates() == old(self).rates().insert(
                rate_id@,
                UtilityRate {
                    rate_per_kwh: new_rate,
                    last_updated: timestamp,
                    ..old(self).rates()[rate_id@]
                },
            ),
            final(self).others_unchanged(*old(self)),
            final(self).feed_entries() == old(self).feed_entries(),
    {
        let i = match self.utility_rates.find(rate_id) {
            Some(i) => i,
            None => return Err(BillingError::NotFound(Entity::UtilityRate)),
        };
        if !fresh_at(&self.config, timestamp, now) {
            return Err(BillingError::DataTooOld);
        }
        proof {
            crate::table::lemma_key_index(self.rate_entries(), i as int);
        }
        let mut updated = copy_rate(&self.utility_rates.entry(i).1);
        updated.rate_per_kwh = new_rate;
        updated.last_updated = timestamp;
        self.utility_rates.replace_at(i, updated);
        Ok(())
    }

    /// A feed fetched through the reliability and staleness check:
    /// `ExchangeRateUnavailable` when absent, `ReliabilityTooLow` when it fails the trust check.
    pub fn trusted_price_feed(&self, feed_id: &String, now: u64) -> (r: Result<&PriceFeed, BillingError>)
        requires
            self.wf(),
        ensures
            match (r, self.trusted_feed(feed_id@, now)) {
                (Ok(a), Ok(b)) => *a == b,
                (Err(a), Err(b)) => a == b,
                _ => false,
            },
    {
        let feed = match self.price_feeds.get(feed_id) {
            Some(f) => f,
            None => return Err(BillingError::ExchangeRateUnavailable),
        };
        if !usable_at(&self.config, feed.last_updated, feed.reliability_score, now) {
            return Err(BillingError::ReliabilityTooLow);
        }
        Ok(feed)
    }

    /// The last known price of a feed, when fallback is enabled and the feed passes
    /// the trust check at `now`; nothing for stale or unreliable data.
    pub fn get_fallback_price(&self, feed_id: &String, now: u64) -> (r: Option<i128>)
        requires
            self.wf(),
        ensures
            r == (if self.config().fallback_enabled {
                self.usable_price(feed_id@, now)
            } else {
                None
            }),
    {
        if !self.config.fallback_enabled {
            return None;
        }
        match self.price_feeds.get(feed_id) {
            Some(feed) => if usable_at(&self.config, feed.last_updated, feed.reliability_score, now) {
                Some(feed.price)
            } else {
                None
            },
            None => None,
        }
    }

    pub fn get_reliability_score(&self) -> (r: u32)
        ensures
            r == self.reliability().reliability_score,
    {
        self.reliability.reliability_score
    }

    /// Counts a call and moves the weighted score toward the call's outcome: toward
    /// 100 on prompt successes, toward 0 on failures, never leaving `[0, 100]`.
    pub fn update_reliability(&mut self, success: bool, response_time_ms: u64)
        requires
            old(self).wf(),
        ensures
            final(self).wf(),
            final(self).reliability().reliability_score == next_score(
                old(self).reliability().reliability_score as int,
                success,
                response_time_ms,
            ),
            final(self).reliability().reliability_score <= 100,
            success && response_time_ms <= PROMPT_RESPONSE_MS ==> final(self).reliability().reliability_score
                >= old(self).reliability().reliability_score,
            !success ==> final(self).reliability().reliability_score
                <= old(self).reliability().reliability_score,
            final(self).reliability().total_calls == sat_inc(old(self).reliability().total_calls),
            final(self).reliability().successful_calls == if success {
                sat_inc(old(self).reliability().successful_calls)
            } else {
                old(self).reliability().successful_calls
            },
            final(self).reliability().failed_calls == if success {
                old(self).reliability().failed_calls
            } else {
                sat_inc(old(self).reliability().failed_calls)
            },
            final(self).admin() == old(self).admin(),
            final(self).config() == old(self).config(),
            final(self).cost() == old(self).cost(),
            final(self).feed_entries() == old(self).feed_entries(),
            final(self).rate_entries() == old(self).rate_entries(),
            final(self).last_feed_refresh() == old(self).last_feed_refresh(),
            final(self).last_rate_refresh() == old(self).last_rate_refresh(),
    {
        let sample: u32 = if !success {
            0
        } else if response_time_ms <= PROMPT_RESPONSE_MS {
            100
        } else {
            let penalty = (response_time_ms - PROMPT_RESPONSE_MS) / 100;
            if penalty > 50 {
                50
            } else {
                100 - penalty as u32
            }
        };
        let old_score = self.reliability.reliability_score;
        let score = if sample >= old_score {
            old_score + (sample - old_score + 9) / 10
        } else {
            old_score - (old_score - sample + 9) / 10
        };
        self.reliability.reliability_score = score;
        self.reliability.total_calls = self.reliability.total_calls.saturating_add(1);
        if success {
            self.reliability.successful_calls = self.reliability.successful_calls.saturating_add(1);
        } else {
            self.reliability.failed_calls = self.reliability.failed_calls.saturating_add(1);
        }
    }

    /// Charges one oracle call of `cost`; a cost above the per-call limit is refused.
    pub fn track_oracle_cost(&mut self, cost: i128) -> (r: Result<(), BillingError>)
        requires
            old(self).wf(),
        ensures
            final(self).wf(),
            r == (if cost > old(self).config().cost_limit_per_call {
                Err(BillingError::CostExceedsLimit)
            } else if !crate::pricing::fits(old(self).cost().total_spent + cost)
                || old(self).cost().calls_made == u64::MAX {
                Err(BillingError::Overflow)
            } else {
                Ok(())
            }),
            r is Err ==> *final(self) == *old(self),
            r is Ok ==> final(self).cost().total_spent == old(self).cost().total_spent + cost,
            r is Ok ==> final(self).cost().calls_made == old(self).cost().calls_made + 1,
            r is Ok ==> final(self).cost().average_cost_per_call == trunc_div(
                final(self).cost().total_spent as int,
                final(self).cost().calls_made as int,
            ),
            final(self).admin() == old(self).admin(),
            final(self).config() == old(self).config(),
            final(self).reliability() == old(self).reliability(),
            final(self).feed_entries() == old(self).feed_entries(),
            final(self).rate_entries() == old(self).rate_entries(),
            final(self).last_feed_refresh() == old(self).last_feed_refresh(),
            final(self).last_rate_refresh() == old(self).last_rate_refresh(),
    {
        if cost > self.config.cost_limit_per_call {
            return Err(BillingError::CostExceedsLimit);
        }
        let total = match self.cost.total_spent.checked_add(cost) {
            Some(t) => t,
            None => return Err(BillingError::Overflow),
        };
        if self.cost.calls_made == u64::MAX {
            return Err(BillingError::Overflow);
        }
        let calls = self.cost.calls_made + 1;
        let average = crate::pricing::div_toward_zero(total, calls as i128);
        self.cost = OracleCost { total_spent: total, calls_made: calls, average_cost_per_call: average };
        Ok(())
    }

    /// Spending, reliability counters and the current reliability score.
    pub fn get_oracle_stats(&self) -> (r: (OracleCost, OracleReliability, u32))
        ensures
            r == (self.cost(), self.reliability(), self.reliability().reliability_score),
    {
        (self.cost, self.reliability, self.reliability.reliability_score)
    }

    /// Whether the price feeds are due a refresh: never refreshed, or the last
    /// refresh is no longer fresh at `now`.
    pub fn should_update_price_feeds(&self, now: u64) -> (r: bool)
        ensures
            r == match self.last_feed_refresh() {
                Some(t) => !is_fresh(self.config(), t, now),
                None => true,
            },
    {
        match self.last_feed_refresh {
            Some(t) => !fresh_at(&self.config, t, now),
            None => true,
        }
    }

    /// Whether the commodity rates are due a refresh.
    pub fn should_update_utility_rates(&self, now: u64) -> (r: bool)
        ensures
            r == match self.last_rate_refresh() {
                Some(t) => !is_fresh(self.config(), t, now),
                None => true,
            },
    {
        match self.last_rate_refresh {
            Some(t) => !fresh_at(&self.config, t, now),
            None => true,
        }
    }

    pub fn mark_price_feeds_updated(&mut self, now: u64)
        requires
            old(self).wf(),
        ensures
            final(self).wf(),
            final(self).last_feed_refresh() == Some(now),
            final(self).last_rate_refresh() == old(self).last_rate_refresh(),
            final(self).admin() == old(self).admin(),
            final(self).config() == old(self).config(),
            final(self).cost() == old(self).cost(),
            final(self).reliability() == old(self).reliability(),
            final(self).feed_entries() == old(self).feed_entries(),
            final(self).rate_entries() == old(self).rate_entries(),
    {
        self.last_feed_refresh = Some(now);
    }

    pub fn mark_utility_rates_updated(&mut self, now: u64)
        requires
            old(self).wf(),
        ensures
            final(self).wf(),
            final(self).last_rate_refresh() == Some(now),
            final(self).last_feed_refresh() == old(self).last_feed_refresh(),
            final(self).admin() == old(self).admin(),
            final(self).config() == old(self).config(),
            final(self).cost() == old(self).cost(),
            final(self).reliability() == old(self).reliability(),
            final(self).feed_entries() == old(self).feed_entries(),
            final(self).rate_entries() == old(self).rate_entries(),
    {
        self.last_rate_refresh = Some(now);
    }
}

/// A counter increased by one, saturating at its maximum.
pub open spec fn sat_inc(n: u64) -> u64 {
    if n < u64::MAX {
        (n + 1) as u64
    } else {
        u64::MAX
    }
}

/// A field-by-field copy of a price feed.
pub fn copy_feed(f: &PriceFeed) -> (r: PriceFeed)
    ensures
        r == *f,
{
    PriceFeed {
        feed_address: f.feed_address.duplicate(),
        base_asset: f.base_asset.clone(),
        quote_asset: f.quote_asset.clone(),
        decimals: f.decimals,
        last_updated: f.last_updated,
        price: f.price,
        reliability_score: f.reliability_score,
    }
}

/// A field-by-field copy of a commodity rate.
pub fn copy_rate(u: &UtilityRate) -> (r: UtilityRate)
    ensures
        r == *u,
{
    UtilityRate {
        utility_type: u.utility_type.clone(),
        rate_per_kwh: u.rate_per_kwh,
        currency: u.currency.clone(),
        region: u.region.clone(),
        last_updated: u.last_updated,
        reliability_score: u.reliability_score,
    }
}

} // verus!
