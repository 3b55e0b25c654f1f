use nepa_billing::pricing::{apply_time_of_use, check_payment_bounds, convert_amount, select_tier, tax_total, tiered_amount};
use nepa_billing::{
    Address, BillingError, Entity, NepaBillingContract, OracleConfig, PriceFeed, TaxRate, TierRate,
    TimeOfUseRate, UtilityRate,
};

fn addr(id: &str) -> Address {
    Address::new(id.to_string())
}

fn s(text: &str) -> String {
    text.to_string()
}

fn oracle_config() -> OracleConfig {
    OracleConfig { max_age_seconds: 300, min_reliability_score: 70, fallback_enabled: true, cost_limit_per_call: 1000000 }
}

fn tier(min_units: i128, max_units: i128, rate_per_unit: i128) -> TierRate {
    TierRate { min_units, max_units, rate_per_unit, tier_name: s("tier") }
}

fn tax(rate_percentage: i128, is_compound: bool, max_amount: Option<i128>) -> TaxRate {
    TaxRate { tax_name: s("tax"), rate_percentage, is_compound, max_amount }
}

/// An engine with provider P1 (Electricity, Lagos), configuration P1_Lagos and meter M1.
fn lagos_engine(base_rate: i128, minimum: i128, maximum: i128) -> (NepaBillingContract, Address) {
    let admin = addr("GADMIN");
    let provider = addr("GP1");
    let mut c = NepaBillingContract::initialize(admin.clone(), oracle_config());
    c.multi_utility
        .register_provider(&admin, s("P1"), s("Power One"), provider.clone(), 1, s("Lagos"), s("L1"), s("c"), 0)
        .unwrap();
    c.multi_utility
        .add_utility_config(&admin, s("P1_Lagos"), 1, s("P1"), s("Lagos"), base_rate, s("XLM"), 7, 30, 5, minimum, maximum, 0)
        .unwrap();
    c.multi_utility
        .register_meter(&provider, s("M1"), 1, s("P1"), addr("GCUSTOMER"), s("loc"), s("model"), s("fw"), true, 0)
        .unwrap();
    (c, admin)
}

fn reconfigure(c: &mut NepaBillingContract, admin: &Address, change: impl Fn(&mut nepa_billing::UtilityConfig)) {
    let mut config = c.multi_utility.get_utility_config(&s("P1_Lagos")).unwrap().clone();
    change(&mut config);
    c.multi_utility.upgrade_utility_config(admin, s("P1_Lagos"), config, 0).unwrap();
}

#[test]
fn end_to_end_lagos_bill() {
    let (mut c, _) = lagos_engine(1000000, 1000000, 100000000);
    let q = c.pay_multi_utility_bill(s("M1"), 50, &s("XLM"), true, 1000).unwrap();
    assert_eq!(q.base_amount, 50000000);
    assert_eq!(q.tax_amount, 0);
    assert_eq!(q.fee_amount, 0);
    assert_eq!(q.subtotal, 50000000);
    assert_eq!(q.final_amount, 50000000);
    assert_eq!(q.utility_type, 1);
    assert_eq!(q.config_version, 1);

    let record = c.get_billing_details(&s("M1"), 1000).unwrap();
    assert_eq!(record.consumption, 50);
    assert_eq!(record.final_amount, 50000000);
    assert_eq!(c.multi_utility.get_provider(&s("P1")).unwrap().total_transactions, 1);

    let second = c.pay_multi_utility_bill(s("M1"), 0, &s("XLM"), true, 2000);
    assert_eq!(second, Err(BillingError::BelowMinimumPayment));
    assert!(c.get_billing_details(&s("M1"), 2000).is_none());
    assert_eq!(c.records.len(), 1);
    assert_eq!(c.multi_utility.get_provider(&s("P1")).unwrap().total_transactions, 1);
}

#[test]
fn payment_bounds_are_inclusive() {
    assert_eq!(check_payment_bounds(99, 100, 200), Err(BillingError::BelowMinimumPayment));
    assert_eq!(check_payment_bounds(201, 100, 200), Err(BillingError::AboveMaximumPayment));
    assert_eq!(check_payment_bounds(100, 100, 200), Ok(()));
    assert_eq!(check_payment_bounds(200, 100, 200), Ok(()));

    let (mut c, _) = lagos_engine(1000000, 50000000, 50000000);
    assert_eq!(c.quote_multi_utility_bill(&s("M1"), 50, &s("XLM"), false, 0).unwrap().final_amount, 50000000);
    assert_eq!(
        c.pay_multi_utility_bill(s("M1"), 51, &s("XLM"), false, 0),
        Err(BillingError::AboveMaximumPayment)
    );
    assert_eq!(
        c.pay_multi_utility_bill(s("M1"), 49, &s("XLM"), false, 0),
        Err(BillingError::BelowMinimumPayment)
    );
}

#[test]
fn first_matching_tier_wins() {
    let tiers = vec![tier(0, 100, 5), tier(50, 200, 3), tier(0, 1000, 1)];
    assert_eq!(select_tier(&tiers, 60), Some(0));
    assert_eq!(tiered_amount(10, &tiers, 60), Ok(300));
    assert_eq!(tiered_amount(10, &tiers, 150), Ok(450));
    assert_eq!(tiered_amount(10, &tiers, 5000), Ok(50000));
    assert_eq!(tiered_amount(i128::MAX, &tiers, 5000), Err(BillingError::Overflow));

    let (mut c, admin) = lagos_engine(1000000, 0, i128::MAX);
    reconfigure(&mut c, &admin, |config| config.tier_rates = vec![tier(10, 60, 7), tier(40, 80, 9)]);
    let q = c.quote_multi_utility_bill(&s("M1"), 50, &s("XLM"), false, 0).unwrap();
    assert_eq!(q.base_amount, 350);
    assert_eq!(q.config_version, 2);
}

#[test]
fn time_of_use_multiplies_when_a_rule_covers_now() {
    // day 3 of the epoch week, 14:00
    let now: u64 = 3 * 86400 + 14 * 3600;
    let rules = vec![TimeOfUseRate {
        start_hour: 12,
        end_hour: 16,
        days_of_week: vec![3],
        rate_multiplier: 150,
        season: s("summer"),
    }];
    assert_eq!(apply_time_of_use(1000, &rules, now), Ok(1500));
    assert_eq!(apply_time_of_use(-1001, &rules, now), Ok(-1501));
    // 17:00 falls outside the hours, day 4 outside the weekdays
    assert_eq!(apply_time_of_use(1000, &rules, now + 3 * 3600), Ok(1000));
    assert_eq!(apply_time_of_use(1000, &rules, now + 86400), Ok(1000));
    assert_eq!(apply_time_of_use(1000, &vec![], now), Ok(1000));

    let (mut c, admin) = lagos_engine(100, 0, i128::MAX);
    reconfigure(&mut c, &admin, |config| config.time_of_use_rates = rules.clone());
    assert_eq!(c.quote_multi_utility_bill(&s("M1"), 10, &s("XLM"), false, now).unwrap().base_amount, 1500);
}

#[test]
fn taxes_compound_and_cap() {
    let taxes = vec![tax(10, true, None), tax(5, false, None), tax(10, true, Some(50))];
    assert_eq!(tax_total(1000, &taxes), Ok(200));
    assert_eq!(tax_total(1000, &vec![]), Ok(0));
    assert_eq!(tax_total(1000, &vec![tax(10, false, None), tax(10, false, None)]), Ok(200));
    assert_eq!(tax_total(1000, &vec![tax(10, true, None), tax(10, true, None)]), Ok(210));
}

#[test]
fn registered_fees_are_charged_and_missing_ones_are_not() {
    let (mut c, admin) = lagos_engine(10, 0, i128::MAX);
    reconfigure(&mut c, &admin, |config| config.tax_rates = vec![tax(10, false, None)]);
    // no fee registered: none charged
    let q = c.quote_multi_utility_bill(&s("M1"), 100, &s("XLM"), true, 0).unwrap();
    assert_eq!(q.fee_amount, 0);
    assert_eq!(q.subtotal, 1100);

    c.multi_utility.add_utility_fee(&admin, s("fixed"), 1, s("P1"), 1, 2000, None, false, s("d"), 0).unwrap();
    c.multi_utility.add_utility_fee(&admin, s("pct"), 1, s("P1"), 2, 0, Some(10), true, s("d"), 0).unwrap();
    // a fee for another utility type does not apply
    c.multi_utility.add_utility_fee(&admin, s("water"), 2, s("P1"), 2, 999, None, false, s("d"), 0).unwrap();
    let q = c.quote_multi_utility_bill(&s("M1"), 100, &s("XLM"), true, 0).unwrap();
    assert_eq!(q.base_amount, 1000);
    assert_eq!(q.tax_amount, 100);
    assert_eq!(q.fee_amount, 2110);
    assert_eq!(q.subtotal, 3210);
    let q = c.quote_multi_utility_bill(&s("M1"), 100, &s("XLM"), false, 0).unwrap();
    assert_eq!(q.fee_amount, 0);
}

#[test]
fn conversion_goes_through_the_trusted_feed() {
    let (mut c, admin) = lagos_engine(1000, 0, i128::MAX);
    assert_eq!(
        c.pay_multi_utility_bill(s("M1"), 10, &s("USD"), false, 5000),
        Err(BillingError::ExchangeRateUnavailable)
    );
    let feed = PriceFeed {
        feed_address: addr("GFEED"),
        base_asset: s("XLM"),
        quote_asset: s("USD"),
        decimals: 8,
        last_updated: 5000,
        price: 12000000,
        reliability_score: 85,
    };
    c.oracle.add_price_feed(&admin, s("XLM_USD"), feed).unwrap();
    let q = c.pay_multi_utility_bill(s("M1"), 10, &s("USD"), false, 5100).unwrap();
    assert_eq!(q.subtotal, 10000);
    assert_eq!(q.final_amount, 1200);

    // the same currency is never converted, whatever the feed
    let q = c.quote_multi_utility_bill(&s("M1"), 10, &s("XLM"), false, 900000).unwrap();
    assert_eq!(q.final_amount, q.subtotal);

    // stale at 5301: the bill fails and nothing is stored
    let records = c.records.len();
    assert_eq!(
        c.pay_multi_utility_bill(s("M1"), 10, &s("USD"), false, 5301),
        Err(BillingError::ReliabilityTooLow)
    );
    assert_eq!(c.records.len(), records);

    assert_eq!(convert_amount(10000, 12000000, 8), Ok(1200));
    assert_eq!(convert_amount(-10000, 12000000, 8), Ok(-1200));
    assert_eq!(convert_amount(1, 1, 39), Err(BillingError::Overflow));
}

#[test]
fn unreliable_feed_is_refused() {
    let (mut c, admin) = lagos_engine(1000, 0, i128::MAX);
    let feed = PriceFeed {
        feed_address: addr("GFEED"),
        base_asset: s("XLM"),
        quote_asset: s("NGN"),
        decimals: 2,
        last_updated: 0,
        price: 100,
        reliability_score: 69,
    };
    c.oracle.add_price_feed(&admin, s("XLM_NGN"), feed).unwrap();
    assert_eq!(
        c.quote_multi_utility_bill(&s("M1"), 1, &s("NGN"), false, 0),
        Err(BillingError::ReliabilityTooLow)
    );
}

#[test]
fn pipeline_lookup_failures() {
    let (mut c, admin) = lagos_engine(1000, 0, i128::MAX);
    assert_eq!(
        c.quote_multi_utility_bill(&s("nope"), 1, &s("XLM"), false, 0),
        Err(BillingError::NotFound(Entity::Meter))
    );
    reconfigure(&mut c, &admin, |config| config.is_active = false);
    assert_eq!(
        c.quote_multi_utility_bill(&s("M1"), 1, &s("XLM"), false, 0),
        Err(BillingError::Inactive(Entity::Config))
    );
    // a meter of a provider with no configuration for its region
    let other = addr("GP2");
    c.multi_utility
        .register_provider(&admin, s("P2"), s("Two"), other.clone(), 1, s("Kano"), s("L"), s("c"), 0)
        .unwrap();
    c.multi_utility
        .register_meter(&other, s("M2"), 1, s("P2"), addr("GC"), s("l"), s("m"), s("f"), false, 0)
        .unwrap();
    assert_eq!(
        c.quote_multi_utility_bill(&s("M2"), 1, &s("XLM"), false, 0),
        Err(BillingError::NotFound(Entity::Config))
    );
    assert_eq!(
        c.quote_multi_utility_bill(&s("M1"), i128::MAX, &s("XLM"), false, 0),
        Err(BillingError::Inactive(Entity::Config))
    );
}

#[test]
fn overflow_is_reported_not_wrapped() {
    let (mut c, _) = lagos_engine(i128::MAX / 2, 0, i128::MAX);
    assert_eq!(
        c.pay_multi_utility_bill(s("M1"), 3, &s("XLM"), false, 0),
        Err(BillingError::Overflow)
    );
    assert_eq!(c.records.len(), 0);
}

#[test]
fn direct_payments_accumulate_per_meter() {
    let (mut c, admin) = lagos_engine(1000, 0, i128::MAX);
    assert_eq!(c.get_total_paid(&s("meter123")), 0);
    assert_eq!(c.pay_bill(s("meter123"), 40), Ok(40));
    assert_eq!(c.pay_bill(s("meter123"), 2), Ok(42));
    assert_eq!(c.get_total_paid(&s("meter123")), 42);
    assert_eq!(c.pay_bill(s("meter123"), i128::MAX), Err(BillingError::Overflow));
    assert_eq!(c.get_total_paid(&s("meter123")), 42);

    assert_eq!(
        c.pay_bill_with_oracle(s("meter123"), 100000000, &s("NGN"), true, 0),
        Err(BillingError::ExchangeRateUnavailable)
    );
    let feed = PriceFeed {
        feed_address: addr("GFEED"),
        base_asset: s("NGN"),
        quote_asset: s("USD"),
        decimals: 8,
        last_updated: 0,
        price: 300000000000,
        reliability_score: 85,
    };
    c.oracle.add_price_feed(&admin, s("NGN_USD"), feed).unwrap();
    assert_eq!(c.pay_bill_with_oracle(s("meter123"), 100000000, &s("NGN"), true, 10), Ok(300000000000));
    assert_eq!(c.get_total_paid(&s("meter123")), 300000000042);
    assert_eq!(c.pay_bill_with_oracle(s("meter9"), 5, &s("NGN"), false, 10), Ok(5));
}

#[test]
fn utility_bill_priced_from_the_price_store() {
    let (mut c, admin) = lagos_engine(1000, 0, i128::MAX);
    let rate = UtilityRate {
        utility_type: s("electricity"),
        rate_per_kwh: 120000,
        currency: s("USD"),
        region: s("LAGOS"),
        last_updated: 0,
        reliability_score: 90,
    };
    assert_eq!(
        c.pay_utility_bill(s("meter456"), 50000, s("electricity"), &s("LAGOS"), &s("USD"), 0),
        Err(BillingError::NotFound(Entity::UtilityRate))
    );
    c.oracle.add_utility_rate(&admin, s("electricity_LAGOS"), rate).unwrap();
    assert_eq!(c.pay_utility_bill(s("meter456"), 50000, s("electricity"), &s("LAGOS"), &s("USD"), 0), Ok(6000000000));
    let details = c.get_utility_bill_details(&s("meter456"), 0).unwrap();
    assert_eq!(details.kwh_consumed, 50000);
    assert_eq!(details.rate_per_kwh, 120000);
    assert_eq!(details.utility_type, "electricity");
    assert_eq!(
        c.pay_utility_bill(s("meter456"), 50000, s("electricity"), &s("LAGOS"), &s("USD"), 301),
        Err(BillingError::ReliabilityTooLow)
    );
}

#[test]
fn contract_upgrade_flow() {
    let admin = addr("GADMIN");
    let mut c = NepaBillingContract::initialize(admin.clone(), oracle_config());
    assert_eq!(c.get_contract_version(), 1);
    assert!(!c.is_upgrade_available());
    assert_eq!(c.upgrade_contract(&admin, addr("C2"), 2, 7), Err(BillingError::NotFound(Entity::Version)));

    c.register_contract_version(&admin, 1, addr("C1"), false, true, 0).unwrap();
    c.register_contract_version(&admin, 2, addr("C2"), true, true, 0).unwrap();
    c.register_contract_version(&admin, 3, addr("C3"), false, false, 0).unwrap();
    assert!(c.is_upgrade_available());
    assert_eq!(c.get_migration_status(), (false, Some(1)));
    assert_eq!(c.list_contract_versions().len(), 3);

    assert_eq!(c.upgrade_contract(&admin, addr("C3"), 3, 7), Err(BillingError::UnsafeUpgrade));
    assert_eq!(c.upgrade_contract(&addr("GX"), addr("C2"), 2, 7), Err(BillingError::Unauthorized));
    assert_eq!(
        c.upgrade_contract(&admin, addr("C2"), 2, 7),
        Err(BillingError::NotFound(Entity::MigrationScript))
    );
    assert_eq!(c.get_contract_version(), 1);

    c.data_migration.register_migration_script(&admin, 1, 2, [3u8; 32], s("M")).unwrap();
    assert_eq!(c.upgrade_contract(&admin, addr("C2"), 2, 7), Ok(()));
    assert_eq!(c.get_contract_version(), 2);
    let (version, implementation, self_administered) = c.get_upgrade_info(&addr("CSELF"));
    assert_eq!(version, 2);
    assert_eq!(implementation, Some(&addr("C2")));
    assert!(!self_administered);
    assert_eq!(c.get_migration_status(), (true, Some(2)));
    assert_eq!(c.data_migration.restore_data(&admin, 7), Ok(()));
}
