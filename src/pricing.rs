use vstd::prelude::*;

use crate::error::BillingError;
use crate::model::{TaxRate, TierRate, TimeOfUseRate, UtilityFee};
use crate::types::UtilityType;

verus! {

pub open spec fn fits(x: int) -> bool {
    i128::MIN <= x <= i128::MAX
}

/// `x` when it fits the monetary width, nothing otherwise.
pub open spec fn checked(x: int) -> Option<int> {
    if fits(x) {
        Some(x)
    } else {
        None
    }
}

/// Integer division rounding toward zero, for a positive divisor.
pub open spec fn trunc_div(x: int, d: int) -> int {
    if x >= 0 {
        x / d
    } else {
        -((-x) / d)
    }
}

/// A monetary computation as the engine reports it: the value, or `Overflow`.
pub open spec fn amount_result(o: Option<int>) -> Result<i128, BillingError> {
    match o {
        Some(x) => Ok(x as i128),
        None => Err(BillingError::Overflow),
    }
}

/// `x * y / d`, rounding toward zero, when the product fits.
pub open spec fn scaled(x: int, y: int, d: int) -> Option<int> {
    match checked(x * y) {
        Some(p) => Some(trunc_div(p, d)),
        None => None,
    }
}

proof fn lemma_trunc_div_fits(x: int, d: int)
    requires
        fits(x),
        d >= 1,
    ensures
        fits(trunc_div(x, d)),
        x >= 0 ==> 0 <= trunc_div(x, d) <= x,
        x < 0 ==> x <= trunc_div(x, d) <= 0,
{
    if x >= 0 {
        assert(x / d <= x) by (nonlinear_arith)
            requires
                x >= 0,
                d >= 1,
        ;
        assert(x / d >= 0) by (nonlinear_arith)
            requires
                x >= 0,
                d >= 1,
        ;
    } else {
        let y = -x;
        assert(y / d <= y) by (nonlinear_arith)
            requires
                y >= 0,
                d >= 1,
        ;
        assert(y / d >= 0) by (nonlinear_arith)
            requires
                y >= 0,
                d >= 1,
        ;
    }
}

/// Rust's `/` on a positive divisor, which rounds toward zero.
pub fn div_toward_zero(x: i128, d: i128) -> (r: i128)
    requires
        d >= 1,
    ensures
        r == trunc_div(x as int, d as int),
{
    proof {
        lemma_trunc_div_fits(x as int, d as int);
    }
    match x.checked_div(d) {
        Some(q) => q,
        None => 0,
    }
}

/// `x * y / d`, rounding toward zero; `Overflow` when the product does not fit.
pub fn mul_div(x: i128, y: i128, d: i128) -> (r: Result<i128, BillingError>)
    requires
        d >= 1,
    ensures
        r == amount_result(scaled(x as int, y as int, d as int)),
{
    match x.checked_mul(y) {
        Some(p) => {
            proof {
                lemma_trunc_div_fits(p as int, d as int);
            }
            Ok(div_toward_zero(p, d))
        },
        None => Err(BillingError::Overflow),
    }
}

// ---------------------------------------------------------------- tiers

pub open spec fn tier_contains(t: TierRate, consumption: int) -> bool {
    t.min_units <= consumption <= t.max_units
}

/// The first tier, in stored order, whose range holds `consumption`.
pub open spec fn first_tier(tiers: Seq<TierRate>, consumption: int) -> Option<TierRate>
    decreases tiers.len(),
{
    if tiers.len() == 0 {
        None
    } else if tier_contains(tiers[0], consumption) {
        Some(tiers[0])
    } else {
        first_tier(tiers.drop_first(), consumption)
    }
}

/// The unit rate that applies: the first matching tier's, else the base rate.
pub open spec fn unit_rate(base_rate: int, tiers: Seq<TierRate>, consumption: int) -> int {
    match first_tier(tiers, consumption) {
        Some(t) => t.rate_per_unit as int,
        None => base_rate,
    }
}

pub open spec fn base_amount_of(base_rate: int, tiers: Seq<TierRate>, consumption: int) -> Option<
    int,
> {
    checked(consumption * unit_rate(base_rate, tiers, consumption))
}

/// A tier at index `i` that matches, after no earlier one does, is the first match.
pub proof fn lemma_first_tier_at(tiers: Seq<TierRate>, consumption: int, i: int)
    requires
        0 <= i < tiers.len(),
        tier_contains(tiers[i], consumption),
        forall|j: int| 0 <= j < i ==> !tier_contains(#[trigger] tiers[j], consumption),
    ensures
        first_tier(tiers, consumption) == Some(tiers[i]),
    decreases i,
{
    if i > 0 {
        let rest = tiers.drop_first();
        assert forall|j: int| 0 <= j < i - 1 implies !tier_contains(#[trigger] rest[j], consumption) by {
            assert(rest[j] == tiers[j + 1]);
        }
        assert(!tier_contains(tiers[0], consumption));
        lemma_first_tier_at(rest, consumption, i - 1);
    }
}

/// With no tier matching, there is no first match.
pub proof fn lemma_first_tier_none(tiers: Seq<TierRate>, consumption: int)
    requires
        forall|j: int| 0 <= j < tiers.len() ==> !tier_contains(#[trigger] tiers[j], consumption),
    ensures
        first_tier(tiers, consumption) is None,
    decreases tiers.len(),
{
    if tiers.len() > 0 {
        let rest = tiers.drop_first();
        assert forall|j: int| 0 <= j < rest.len() implies !tier_contains(#[trigger] rest[j], consumption) by {
            assert(rest[j] == tiers[j + 1]);
        }
        assert(!tier_contains(tiers[0], consumption));
        lemma_first_tier_none(rest, consumption);
    }
}

/// Position of the first tier whose range holds `consumption`.
pub fn select_tier(tiers: &Vec<TierRate>, consumption: i128) -> (r: Option<usize>)
    ensures
        r matches Some(i) ==> i < tiers@.len() && first_tier(tiers@, consumption as int) == Some(
            tiers@[i as int],
        ),
        r is None ==> first_tier(tiers@, consumption as int) is None,
{
    let mut i: usize = 0;
    while i < tiers.len()
        invariant
            i <= tiers@.len(),
            forall|j: int| 0 <= j < i ==> !tier_contains(#[trigger] tiers@[j], consumption as int),
        decreases tiers@.len() - i,
    {
        let t = &tiers[i];
        if consumption >= t.min_units && consumption <= t.max_units {
            proof {
                lemma_first_tier_at(tiers@, consumption as int, i as int);
            }
            return Some(i);
        }
        i += 1;
    }
    proof {
        lemma_first_tier_none(tiers@, consumption as int);
    }
    None
}

/// `consumption` times the rate of the first matching tier, or of the base rate
/// when no tier matches.
pub fn tiered_amount(base_rate: i128, tiers: &Vec<TierRate>, consumption: i128) -> (r: Result<
    i128,
    BillingError,
>)
    ensures
        r == amount_result(base_amount_of(base_rate as int, tiers@, consumption as int)),
{
    let rate = match select_tier(tiers, consumption) {
        Some(i) => tiers[i].rate_per_unit,
        None => base_rate,
    };
    match consumption.checked_mul(rate) {
        Some(a) => Ok(a),
        None => Err(BillingError::Overflow),
    }
}

// ---------------------------------------------------------------- time of use

pub open spec fn hour_of(now: u64) -> int {
    (now / 3600) as int % 24
}

pub open spec fn weekday_of(now: u64) -> int {
    (now / 86400) as int % 7
}

pub open spec fn rule_applies(rule: TimeOfUseRate, hour: int, weekday: int) -> bool {
    &&& rule.start_hour <= hour <= rule.end_hour
    &&& exists|k: int| 0 <= k < rule.days_of_week@.len() && rule.days_of_week@[k] == weekday
}

/// The first rule, in stored order, that covers the hour and the weekday.
pub open spec fn first_rule(rules: Seq<TimeOfUseRate>, hour: int, weekday: int) -> Option<
    TimeOfUseRate,
>
    decreases rules.len(),
{
    if rules.len() == 0 {
        None
    } else if rule_applies(rules[0], hour, weekday) {
        Some(rules[0])
    } else {
        first_rule(rules.drop_first(), hour, weekday)
    }
}

/// The amount after the time-of-use rule that applies at `now`, if any.
pub open spec fn time_of_use_of(amount: int, rules: Seq<TimeOfUseRate>, now: u64) -> Option<int> {
    match first_rule(rules, hour_of(now), weekday_of(now)) {
        Some(rule) => scaled(amount, rule.rate_multiplier as int, 100),
        None => Some(amount),
    }
}

pub proof fn lemma_first_rule_at(rules: Seq<TimeOfUseRate>, hour: int, weekday: int, i: int)
    requires
        0 <= i < rules.len(),
        rule_applies(rules[i], hour, weekday),
        forall|j: int| 0 <= j < i ==> !rule_applies(#[trigger] rules[j], hour, weekday),
    ensures
        first_rule(rules, hour, weekday) == Some(rules[i]),
    decreases i,
{
    if i > 0 {
        let rest = rules.drop_first();
        assert forall|j: int| 0 <= j < i - 1 implies !rule_applies(#[trigger] rest[j], hour, weekday) by {
            assert(rest[j] == rules[j + 1]);
        }
        assert(!rule_applies(rules[0], hour, weekday));
        lemma_first_rule_at(rest, hour, weekday, i - 1);
    }
}

pub proof fn lemma_first_rule_none(rules: Seq<TimeOfUseRate>, hour: int, weekday: int)
    requires
        forall|j: int| 0 <= j < rules.len() ==> !rule_applies(#[trigger] rules[j], hour, weekday),
    ensures
        first_rule(rules, hour, weekday) is None,
    decreases rules.len(),
{
    if rules.len() > 0 {
        let rest = rules.drop_first();
        assert forall|j: int| 0 <= j < rest.len() implies !rule_applies(#[trigger] rest[j], hour, weekday) by {
            assert(rest[j] == rules[j + 1]);
        }
        assert(!rule_applies(rules[0], hour, weekday));
        lemma_first_rule_none(rest, hour, weekday);
    }
}

/// Hour of the day, 0 to 23, of a timestamp in seconds.
pub fn hour_of_day(now: u64) -> (r: u8)
    ensures
        r == hour_of(now),
        r < 24,
{
    ((now / 3600) % 24) as u8
}

/// Day of the week, 0 to 6, of a timestamp in seconds.
pub fn day_of_week(now: u64) -> (r: u8)
    ensures
        r == weekday_of(now),
        r < 7,
{
    ((now / 86400) % 7) as u8
}

fn has_weekday(days: &Vec<u8>, weekday: u8) -> (r: bool)
    ensures
        r == exists|k: int| 0 <= k < days@.len() && days@[k] == weekday,
{
    let mut i: usize = 0;
    while i < days.len()
        invariant
            i <= days@.len(),
            forall|k: int| 0 <= k < i ==> days@[k] != weekday,
        decreases days@.len() - i,
    {
        if days[i] == weekday {
            return true;
        }
        i += 1;
    }
    false
}

/// Position of the first time-of-use rule that covers the hour and weekday of `now`.
pub fn select_time_of_use(rules: &Vec<TimeOfUseRate>, now: u64) -> (r: Option<usize>)
    ensures
        r matches Some(i) ==> i < rules@.len() && first_rule(rules@, hour_of(now), weekday_of(now))
            == Some(rules@[i as int]),
        r is None ==> first_rule(rules@, hour_of(now), weekday_of(now)) is None,
{
    let hour = hour_of_day(now);
    let weekday = day_of_week(now);
    let mut i: usize = 0;
    while i < rules.len()
        invariant
            i <= rules@.len(),
            hour == hour_of(now),
            weekday == weekday_of(now),
            forall|j: int|
                0 <= j < i ==> !rule_applies(#[trigger] rules@[j], hour as int, weekday as int),
        decreases rules@.len() - i,
    {
        let rule = &rules[i];
        if hour >= rule.start_hour && hour <= rule.end_hour && has_weekday(
            &rule.days_of_week,
            weekday,
        ) {
            proof {
                lemma_first_rule_at(rules@, hour as int, weekday as int, i as int);
            }
            return Some(i);
        }
        i += 1;
    }
    proof {
        lemma_first_rule_none(rules@, hour as int, weekday as int);
    }
    None
}

/// Multiplies `amount` by the first applicable rule's multiplier over 100, or
/// leaves it as it is when no rule covers `now`.
pub fn apply_time_of_use(amount: i128, rules: &Vec<TimeOfUseRate>, now: u64) -> (r: Result<
    i128,
    BillingError,
>)
    ensures
        r == amount_result(time_of_use_of(amount as int, rules@, now)),
{
    match select_time_of_use(rules, now) {
        Some(i) => mul_div(amount, rules[i].rate_multiplier, 100),
        None => Ok(amount),
    }
}

// ---------------------------------------------------------------- taxes

/// One tax on `basis`, capped at its maximum when it has one.
pub open spec fn tax_contribution(t: TaxRate, basis: int) -> Option<int> {
    match scaled(basis, t.rate_percentage as int, 100) {
        Some(raw) => Some(
            match t.max_amount {
                Some(cap) => if raw > cap {
                    cap as int
                } else {
                    raw
                },
                None => raw,
            },
        ),
        None => None,
    }
}

/// `(running, total)` after the first `n` taxes: `running` is the base plus the
/// compounding taxes so far, `total` the sum of all taxes so far.
pub open spec fn tax_state(taxes: Seq<TaxRate>, base: int, n: nat) -> Option<(int, int)>
    decreases n,
{
    if n == 0 {
        Some((base, 0))
    } else {
        match tax_state(taxes, base, (n - 1) as nat) {
            Some((running, total)) => {
                let t = taxes[n - 1];
                let basis = if t.is_compound {
                    running
                } else {
                    base
                };
                match tax_contribution(t, basis) {
                    Some(c) => match checked(total + c) {
                        Some(new_total) => if t.is_compound {
                            match checked(running + c) {
                                Some(new_running) => Some((new_running, new_total)),
                                None => None,
                            }
                        } else {
                            Some((running, new_total))
                        },
                        None => None,
                    },
                    None => None,
                }
            },
            None => None,
        }
    }
}

pub open spec fn tax_of(taxes: Seq<TaxRate>, base: int) -> Option<int> {
    match tax_state(taxes, base, taxes.len()) {
        Some((_, total)) => Some(total),
        None => None,
    }
}

/// Sum of all configured taxes on `base`.
pub fn tax_total(base: i128, taxes: &Vec<TaxRate>) -> (r: Result<i128, BillingError>)
    ensures
        r == amount_result(tax_of(taxes@, base as int)),
{
    let mut running: i128 = base;
    let mut total: i128 = 0;
    let mut i: usize = 0;
    while i < taxes.len()
        invariant
            i <= taxes@.len(),
            tax_state(taxes@, base as int, i as nat) == Some((running as int, total as int)),
        decreases taxes@.len() - i,
    {
        let t = &taxes[i];
        let basis = if t.is_compound {
            running
        } else {
            base
        };
        let raw = match mul_div(basis, t.rate_percentage, 100) {
            Ok(v) => v,
            Err(e) => {
                assert(tax_state(taxes@, base as int, (i + 1) as nat) is None);
                proof {
                    lemma_tax_state_stays_none(taxes@, base as int, (i + 1) as nat);
                }
                return Err(e);
            },
        };
        let c = match t.max_amount {
            Some(cap) => if raw > cap {
                cap
            } else {
                raw
            },
            None => raw,
        };
        let new_total = match total.checked_add(c) {
            Some(v) => v,
            None => {
                assert(tax_state(taxes@, base as int, (i + 1) as nat) is None);
                proof {
                    lemma_tax_state_stays_none(taxes@, base as int, (i + 1) as nat);
                }
                return Err(BillingError::Overflow);
            },
        };
        if t.is_compound {
            running = match running.checked_add(c) {
                Some(v) => v,
                None => {
                    assert(tax_state(taxes@, base as int, (i + 1) as nat) is None);
                    proof {
                        lemma_tax_state_stays_none(taxes@, base as int, (i + 1) as nat);
                    }
                    return Err(BillingError::Overflow);
                },
            };
        }
        total = new_total;
        i += 1;
    }
    Ok(total)
}

/// Once the tax computation overflows, it stays failed.
proof fn lemma_tax_state_stays_none(taxes: Seq<TaxRate>, base: int, n: nat)
    requires
        n <= taxes.len(),
        tax_state(taxes, base, n) is None,
    ensures
        tax_state(taxes, base, taxes.len()) is None,
    decreases taxes.len() - n,
{
    if n < taxes.len() {
        assert(tax_state(taxes, base, (n + 1) as nat) is None);
        lemma_tax_state_stays_none(taxes, base, (n + 1) as nat);
    }
}

// ---------------------------------------------------------------- fees

/// Whether a registered fee is charged on a bill of this provider and utility type.
pub open spec fn fee_applies(f: UtilityFee, provider_id: Seq<char>, utility_type: UtilityType) -> bool {
    f.is_active && f.provider_id@ == provider_id && f.utility_type == utility_type
}

/// A fee's amount on a bill whose amount before fees is `pre_fee`.
pub open spec fn fee_contribution(f: UtilityFee, pre_fee: int) -> Option<int> {
    if f.is_percentage {
        match f.fee_percentage {
            Some(p) => scaled(pre_fee, p as int, 100),
            None => Some(0),
        }
    } else {
        Some(f.fee_amount as int)
    }
}

/// Sum of the applicable fees among the first `n` registered ones.
pub open spec fn fee_sum(
    fees: Seq<(String, UtilityFee)>,
    provider_id: Seq<char>,
    utility_type: UtilityType,
    pre_fee: int,
    n: nat,
) -> Option<int>
    decreases n,
{
    if n == 0 {
        Some(0)
    } else {
        match fee_sum(fees, provider_id, utility_type, pre_fee, (n - 1) as nat) {
            Some(acc) => {
                let f = fees[n - 1].1;
                if fee_applies(f, provider_id, utility_type) {
                    match fee_contribution(f, pre_fee) {
                        Some(c) => checked(acc + c),
                        None => None,
                    }
                } else {
                    Some(acc)
                }
            },
            None => None,
        }
    }
}

pub proof fn lemma_fee_sum_stays_none(
    fees: Seq<(String, UtilityFee)>,
    provider_id: Seq<char>,
    utility_type: UtilityType,
    pre_fee: int,
    n: nat,
)
    requires
        n <= fees.len(),
        fee_sum(fees, provider_id, utility_type, pre_fee, n) is None,
    ensures
        fee_sum(fees, provider_id, utility_type, pre_fee, fees.len()) is None,
    decreases fees.len() - n,
{
    if n < fees.len() {
        assert(fee_sum(fees, provider_id, utility_type, pre_fee, (n + 1) as nat) is None);
        lemma_fee_sum_stays_none(fees, provider_id, utility_type, pre_fee, (n + 1) as nat);
    }
}

/// The amount one fee adds to a bill whose amount before fees is `pre_fee`.
pub fn fee_amount_of(fee: &UtilityFee, pre_fee: i128) -> (r: Result<i128, BillingError>)
    ensures
        r == amount_result(fee_contribution(*fee, pre_fee as int)),
{
    if fee.is_percentage {
        match fee.fee_percentage {
            Some(p) => mul_div(pre_fee, p, 100),
            None => Ok(0),
        }
    } else {
        Ok(fee.fee_amount)
    }
}

// ---------------------------------------------------------------- conversion and bounds

pub open spec fn pow10(n: nat) -> int
    decreases n,
{
    if n == 0 {
        1
    } else {
        10 * pow10((n - 1) as nat)
    }
}

proof fn lemma_pow10_positive(n: nat)
    ensures
        pow10(n) >= 1,
    decreases n,
{
    if n > 0 {
        lemma_pow10_positive((n - 1) as nat);
    }
}

/// `subtotal * price / 10^decimals`, rounding toward zero.
pub open spec fn converted_of(subtotal: int, price: int, decimals: nat) -> Option<int> {
    if fits(pow10(decimals)) {
        scaled(subtotal, price, pow10(decimals))
    } else {
        None
    }
}

/// `10^n`, or `Overflow` when it does not fit.
pub fn power_of_ten(n: u32) -> (r: Result<i128, BillingError>)
    ensures
        r == amount_result(checked(pow10(n as nat))),
        r matches Ok(v) ==> v >= 1,
{
    let mut acc: i128 = 1;
    let mut i: u32 = 0;
    while i < n
        invariant
            i <= n,
            acc == pow10(i as nat),
            acc >= 1,
        decreases n - i,
    {
        acc = match acc.checked_mul(10) {
            Some(v) => v,
            None => {
                proof {
                    lemma_pow10_grows(i as nat, n as nat);
                }
                return Err(BillingError::Overflow);
            },
        };
        i += 1;
    }
    Ok(acc)
}

/// Past the width, powers of ten stay past it.
proof fn lemma_pow10_grows(i: nat, n: nat)
    requires
        i < n,
        !fits(10 * pow10(i)),
    ensures
        !fits(pow10(n)),
    decreases n - i,
{
    lemma_pow10_positive(i);
    if i + 1 < n {
        assert(pow10((i + 1) as nat) == 10 * pow10(i));
        lemma_pow10_positive((i + 1) as nat);
        assert(10 * pow10((i + 1) as nat) >= pow10((i + 1) as nat));
        lemma_pow10_grows((i + 1) as nat, n);
    } else {
        assert(pow10(n) == 10 * pow10(i));
    }
}

/// Converts an amount with a fixed-point price scaled by `10^decimals`.
pub fn convert_amount(subtotal: i128, price: i128, decimals: u32) -> (r: Result<i128, BillingError>)
    ensures
        r == amount_result(converted_of(subtotal as int, price as int, decimals as nat)),
{
    let scale = power_of_ten(decimals)?;
    mul_div(subtotal, price, scale)
}

pub open spec fn bounds_result(amount: int, minimum: int, maximum: int) -> Result<(), BillingError> {
    if amount < minimum {
        Err(BillingError::BelowMinimumPayment)
    } else if amount > maximum {
        Err(BillingError::AboveMaximumPayment)
    } else {
        Ok(())
    }
}

/// Accepts an amount within `[minimum, maximum]`, bounds included.
pub fn check_payment_bounds(amount: i128, minimum: i128, maximum: i128) -> (r: Result<
    (),
    BillingError,
>)
    ensures
        r == bounds_result(amount as int, minimum as int, maximum as int),
{
    if amount < minimum {
        Err(BillingError::BelowMinimumPayment)
    } else if amount > maximum {
        Err(BillingError::AboveMaximumPayment)
    } else {
        Ok(())
    }
}

} // verus!
