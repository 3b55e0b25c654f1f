//! Properties that relate several operations, or hold for all inputs.
use vstd::prelude::*;

use crate::billing::{config_key, pair_key, NepaBillingContract};
use crate::error::{BillingError, Entity};
use crate::model::{TierRate, TimeOfUseRate, UtilityProvider};
use crate::oracle::is_fresh;
use crate::pricing::{
    base_amount_of, bounds_result, checked, first_tier, hour_of, lemma_first_rule_at,
    lemma_first_rule_none, lemma_first_tier_at, rule_applies, scaled, tier_contains,
    time_of_use_of, weekday_of,
};
use crate::registry::MultiUtilityManager;
use crate::types::valid_utility_code;

verus! {

/// A configuration that starts at version 1 and is then upgraded successfully
/// `states.len() - 1` times stands at version `1 + N` after `N` upgrades, and
/// the audit log has grown by exactly one record per upgrade.
pub proof fn law_version_counts_upgrades(states: Seq<MultiUtilityManager>, config_id: Seq<char>)
    requires
        states.len() >= 1,
        states[0].configs().contains_key(config_id),
        states[0].configs()[config_id].version == 1,
        forall|i: int|
            0 <= i < states.len() - 1 ==> MultiUtilityManager::upgraded(
                #[trigger] states[i],
                states[i + 1],
                config_id,
            ),
    ensures
        states.last().configs().contains_key(config_id),
        states.last().configs()[config_id].version == states.len(),
        states.last().version_log().len() == states[0].version_log().len() + states.len() - 1,
    decreases states.len(),
{
    if states.len() > 1 {
        let prefix = states.drop_last();
        assert forall|i: int| 0 <= i < prefix.len() - 1 implies MultiUtilityManager::upgraded(
            #[trigger] prefix[i],
            prefix[i + 1],
            config_id,
        ) by {
            assert(prefix[i] == states[i] && prefix[i + 1] == states[i + 1]);
            assert(MultiUtilityManager::upgraded(states[i], states[i + 1], config_id));
        }
        law_version_counts_upgrades(prefix, config_id);
        let n = states.len() - 2;
        assert(MultiUtilityManager::upgraded(states[n], states[n + 1], config_id));
        assert(prefix.last() == states[n]);
    }
}

/// When tier `i` is the first to hold the consumption, it is the one applied,
/// even though a later tier `j` holds it too.
pub proof fn law_first_matching_tier_applies(
    base_rate: int,
    tiers: Seq<TierRate>,
    consumption: int,
    i: int,
    j: int,
)
    requires
        0 <= i < j < tiers.len(),
        tier_contains(tiers[i], consumption),
        tier_contains(tiers[j], consumption),
        forall|k: int| 0 <= k < i ==> !tier_contains(#[trigger] tiers[k], consumption),
    ensures
        first_tier(tiers, consumption) == Some(tiers[i]),
        base_amount_of(base_rate, tiers, consumption) == checked(
            consumption * tiers[i].rate_per_unit,
        ),
{
    lemma_first_tier_at(tiers, consumption, i);
}

/// A time whose hour and weekday fall in exactly one rule scales the amount by
/// that rule's multiplier over 100; a time that no rule covers leaves it as is.
pub proof fn law_time_of_use(amount: int, rules: Seq<TimeOfUseRate>, now: u64)
    ensures
        (forall|k: int|
            0 <= k < rules.len() ==> !rule_applies(#[trigger] rules[k], hour_of(now), weekday_of(now)))
            ==> time_of_use_of(amount, rules, now) == Some(amount),
        forall|k: int|
            0 <= k < rules.len() && rule_applies(#[trigger] rules[k], hour_of(now), weekday_of(now))
                && (forall|m: int|
                0 <= m < rules.len() && m != k ==> !rule_applies(
                    #[trigger] rules[m],
                    hour_of(now),
                    weekday_of(now),
                )) ==> time_of_use_of(amount, rules, now) == scaled(
                amount,
                rules[k].rate_multiplier as int,
                100,
            ),
{
    let hour = hour_of(now);
    let weekday = weekday_of(now);
    if forall|k: int| 0 <= k < rules.len() ==> !rule_applies(#[trigger] rules[k], hour, weekday) {
        lemma_first_rule_none(rules, hour, weekday);
    }
    assert forall|k: int|
        0 <= k < rules.len() && rule_applies(#[trigger] rules[k], hour, weekday) && (forall|m: int|
            0 <= m < rules.len() && m != k ==> !rule_applies(
                #[trigger] rules[m],
                hour,
                weekday,
            )) implies time_of_use_of(amount, rules, now) == scaled(
        amount,
        rules[k].rate_multiplier as int,
        100,
    ) by {
        assert forall|m: int| 0 <= m < k implies !rule_applies(#[trigger] rules[m], hour, weekday) by {
            assert(m != k);
        }
        lemma_first_rule_at(rules, hour, weekday, k);
    }
}

/// The configuration that bills a meter, when every lookup succeeds.
pub open spec fn billing_config_currency(c: NepaBillingContract, meter_id: Seq<char>) -> Option<Seq<char>> {
    let reg = c.multi_utility;
    if reg.meters().contains_key(meter_id) && reg.providers().contains_key(
        reg.meters()[meter_id].provider_id@,
    ) {
        let pid = reg.meters()[meter_id].provider_id@;
        let key = config_key(pid, reg.providers()[pid].region@);
        if reg.configs().contains_key(key) {
            Some(reg.configs()[key].currency@)
        } else {
            None
        }
    } else {
        None
    }
}

/// Billing in the configuration's own currency converts nothing: the final
/// amount is the subtotal, and the price store plays no part in the result.
pub proof fn law_same_currency_is_not_converted(
    c1: NepaBillingContract,
    c2: NepaBillingContract,
    meter_id: Seq<char>,
    consumption: i128,
    currency: Seq<char>,
    apply_fees: bool,
    now: u64,
)
    requires
        c1.multi_utility == c2.multi_utility,
        billing_config_currency(c1, meter_id) == Some(currency),
    ensures
        c1.quote_of(meter_id, consumption, currency, apply_fees, now) == c2.quote_of(
            meter_id,
            consumption,
            currency,
            apply_fees,
            now,
        ),
        c1.quote_of(meter_id, consumption, currency, apply_fees, now) matches Ok(q) ==> q.final_amount
            == q.subtotal,
{
}

/// A bill that needs a conversion through a stale feed never goes through: the
/// conversion fails with `ReliabilityTooLow`, and so does the bill unless an
/// earlier step already failed.
pub proof fn law_stale_feed_blocks_payment(
    c: NepaBillingContract,
    meter_id: Seq<char>,
    consumption: i128,
    currency: Seq<char>,
    apply_fees: bool,
    now: u64,
    subtotal: int,
)
    requires
        billing_config_currency(c, meter_id) matches Some(from) && from != currency && ({
            let id = pair_key(from, currency);
            c.oracle.feeds().contains_key(id) && !is_fresh(
                c.oracle.config(),
                c.oracle.feeds()[id].last_updated,
                now,
            )
        }),
    ensures
        c.converted(subtotal, billing_config_currency(c, meter_id)->Some_0, currency, now) == Err::<
            i128,
            BillingError,
        >(BillingError::ReliabilityTooLow),
        c.quote_of(meter_id, consumption, currency, apply_fees, now) is Err,
{
}

/// Amounts below the minimum or above the maximum are refused; the bounds
/// themselves are accepted.
pub proof fn law_payment_bounds(amount: int, minimum: int, maximum: int)
    ensures
        amount < minimum ==> bounds_result(amount, minimum, maximum) == Err::<(), BillingError>(
            BillingError::BelowMinimumPayment,
        ),
        minimum <= amount && amount > maximum ==> bounds_result(amount, minimum, maximum) == Err::<
            (),
            BillingError,
        >(BillingError::AboveMaximumPayment),
        minimum <= maximum ==> bounds_result(minimum, minimum, maximum) is Ok,
        minimum <= maximum ==> bounds_result(maximum, minimum, maximum) is Ok,
{
}

/// Every bill that goes through lies within its configuration's payment bounds.
pub proof fn law_billed_within_bounds(
    c: NepaBillingContract,
    meter_id: Seq<char>,
    consumption: i128,
    currency: Seq<char>,
    apply_fees: bool,
    now: u64,
)
    requires
        c.quote_of(meter_id, consumption, currency, apply_fees, now) is Ok,
    ensures
        ({
            let reg = c.multi_utility;
            let pid = reg.meters()[meter_id].provider_id@;
            let config = reg.configs()[config_key(pid, reg.providers()[pid].region@)];
            let q = c.quote_of(meter_id, consumption, currency, apply_fees, now)->Ok_0;
            config.minimum_payment <= q.final_amount <= config.maximum_payment
        }),
{
}

/// After a provider id has been registered, registering it again is refused with
/// `AlreadyRegistered`, and the provider registered first is the one on record.
pub proof fn law_second_registration_refused(
    before: MultiUtilityManager,
    after: MultiUtilityManager,
    provider_id: Seq<char>,
    first: UtilityProvider,
    admin: Seq<char>,
    utility_type: u8,
)
    requires
        after.admin() == before.admin(),
        after.providers() == before.providers().insert(provider_id, first),
        admin == after.admin()@,
        valid_utility_code(utility_type),
    ensures
        MultiUtilityManager::register_outcome(after, admin, provider_id, utility_type) == Err::<
            (),
            BillingError,
        >(BillingError::AlreadyRegistered(Entity::Provider)),
        after.providers()[provider_id] == first,
{
}

} // verus!
