use nepa_billing::oracle::validate_external_data;
use nepa_billing::{Address, BillingError, Entity, OracleConfig, OracleManager, PriceFeed, UtilityRate};

fn create_test_address() -> Address {
    Address::new("GTESTADDRESS".to_string())
}

fn create_test_oracle_config() -> OracleConfig {
    OracleConfig { max_age_seconds: 300, min_reliability_score: 70, fallback_enabled: true, cost_limit_per_call: 1000000 }
}

fn create_test_price_feed() -> PriceFeed {
    PriceFeed {
        feed_address: create_test_address(),
        base_asset: "ETH".to_string(),
        quote_asset: "USD".to_string(),
        decimals: 8,
        last_updated: 1640995200,
        price: 300000000000,
        reliability_score: 85,
    }
}

fn create_test_utility_rate() -> UtilityRate {
    UtilityRate {
        utility_type: "electricity".to_string(),
        rate_per_kwh: 120000,
        currency: "USD".to_string(),
        region: "LAGOS".to_string(),
        last_updated: 1640995200,
        reliability_score: 90,
    }
}

const NOW: u64 = 1640995200;

#[test]
fn oracle_initialization_keeps_config() {
    let oracle = OracleManager::initialize_oracle(create_test_address(), create_test_oracle_config());
    assert_eq!(*oracle.get_config(), create_test_oracle_config());
    assert_eq!(oracle.get_reliability_score(), 50);
}

#[test]
fn add_get_and_update_price_feed() {
    let admin = create_test_address();
    let mut oracle = OracleManager::initialize_oracle(admin.clone(), create_test_oracle_config());
    let feed_id = "ETH_USD".to_string();
    oracle.add_price_feed(&admin, feed_id.clone(), create_test_price_feed()).unwrap();
    assert_eq!(
        oracle.add_price_feed(&admin, feed_id.clone(), create_test_price_feed()),
        Err(BillingError::AlreadyRegistered(Entity::PriceFeed))
    );
    assert_eq!(
        oracle.add_price_feed(&Address::new("GOTHER".to_string()), "X".to_string(), create_test_price_feed()),
        Err(BillingError::Unauthorized)
    );

    let feed = oracle.get_price_feed(&feed_id).unwrap();
    assert_eq!(feed.base_asset, "ETH");
    assert_eq!(feed.price, 300000000000);
    assert_eq!(feed.decimals, 8);

    assert_eq!(oracle.update_price_feed(&feed_id, 350000000000, 1640995300, NOW), Ok(()));
    let feed = oracle.get_price_feed(&feed_id).unwrap();
    assert_eq!(feed.price, 350000000000);
    assert_eq!(feed.last_updated, 1640995300);

    let result = oracle.update_price_feed(&feed_id, 300000000000, 1640995200 - 1000, NOW);
    assert_eq!(result.unwrap_err().message(), "Data too old");
    assert_eq!(
        oracle.update_price_feed(&"BTC_USD".to_string(), 1, NOW, NOW),
        Err(BillingError::NotFound(Entity::PriceFeed))
    );
}

#[test]
fn add_get_and_update_utility_rate() {
    let admin = create_test_address();
    let mut oracle = OracleManager::initialize_oracle(admin.clone(), create_test_oracle_config());
    let rate_id = "electricity_LAGOS".to_string();
    oracle.add_utility_rate(&admin, rate_id.clone(), create_test_utility_rate()).unwrap();
    let rate = oracle.get_utility_rate(&rate_id).unwrap();
    assert_eq!(rate.rate_per_kwh, 120000);
    assert_eq!(rate.region, "LAGOS");

    assert_eq!(oracle.update_utility_rate(&rate_id, 150000, 1640995300, NOW), Ok(()));
    let rate = oracle.get_utility_rate(&rate_id).unwrap();
    assert_eq!(rate.rate_per_kwh, 150000);
    assert_eq!(rate.last_updated, 1640995300);
    assert_eq!(oracle.update_utility_rate(&rate_id, 1, NOW - 301, NOW), Err(BillingError::DataTooOld));
}

#[test]
fn external_data_validation() {
    assert!(validate_external_data(300000000000, 10000000000, 1000000000000, 8));
    assert!(!validate_external_data(5000000000, 10000000000, 1000000000000, 8));
    assert!(!validate_external_data(2000000000000, 10000000000, 1000000000000, 8));
    assert!(validate_external_data(300000000123, 10000000000, 1000000000000, 8));
    assert!(validate_external_data(10000000000, 10000000000, 1000000000000, 0));
}

#[test]
fn fallback_price_only_for_usable_data() {
    let admin = create_test_address();
    let mut oracle = OracleManager::initialize_oracle(admin.clone(), create_test_oracle_config());
    oracle.add_price_feed(&admin, "ETH_USD".to_string(), create_test_price_feed()).unwrap();
    assert_eq!(oracle.get_fallback_price(&"ETH_USD".to_string(), NOW), Some(300000000000));

    let mut old_feed = create_test_price_feed();
    old_feed.base_asset = "BTC".to_string();
    old_feed.last_updated = 1640995200 - 1000;
    old_feed.price = 50000000000;
    oracle.add_price_feed(&admin, "BTC_USD".to_string(), old_feed).unwrap();
    assert_eq!(oracle.get_fallback_price(&"BTC_USD".to_string(), NOW), None);
    assert_eq!(oracle.get_fallback_price(&"NONE".to_string(), NOW), None);

    let mut config = create_test_oracle_config();
    config.fallback_enabled = false;
    let mut strict = OracleManager::initialize_oracle(admin.clone(), config);
    strict.add_price_feed(&admin, "ETH_USD".to_string(), create_test_price_feed()).unwrap();
    assert_eq!(strict.get_fallback_price(&"ETH_USD".to_string(), NOW), None);
}

#[test]
fn reliability_scoring_moves_with_outcomes() {
    let mut oracle = OracleManager::initialize_oracle(create_test_address(), create_test_oracle_config());
    assert_eq!(oracle.get_reliability_score(), 50);

    for _ in 0..10 {
        oracle.update_reliability(true, 1000);
    }
    let good_score = oracle.get_reliability_score();
    assert_eq!(good_score, 85);

    for _ in 0..5 {
        oracle.update_reliability(false, 5000);
    }
    let mixed_score = oracle.get_reliability_score();
    assert!(mixed_score < good_score);
    assert!(mixed_score > 40);
    assert_eq!(mixed_score, 48);

    for _ in 0..200 {
        oracle.update_reliability(true, 0);
    }
    assert_eq!(oracle.get_reliability_score(), 100);
    // a slow success pulls a perfect score down toward its outcome
    oracle.update_reliability(true, 3000);
    assert_eq!(oracle.get_reliability_score(), 98);
    for _ in 0..200 {
        oracle.update_reliability(false, 0);
    }
    assert_eq!(oracle.get_reliability_score(), 0);
    let (_, reliability, score) = oracle.get_oracle_stats();
    assert_eq!(reliability.total_calls, 416);
    assert_eq!(reliability.successful_calls, 211);
    assert_eq!(reliability.failed_calls, 205);
    assert_eq!(score, 0);
}

#[test]
fn cost_tracking_with_a_limit() {
    let mut oracle = OracleManager::initialize_oracle(create_test_address(), create_test_oracle_config());
    assert!(oracle.track_oracle_cost(500000).is_ok());
    let (cost, _, _) = oracle.get_oracle_stats();
    assert_eq!(cost.total_spent, 500000);
    assert_eq!(cost.calls_made, 1);
    assert_eq!(cost.average_cost_per_call, 500000);

    let expensive_call = oracle.track_oracle_cost(2000000);
    assert_eq!(expensive_call.unwrap_err().message(), "Cost exceeds limit per call");

    oracle.track_oracle_cost(200000).unwrap();
    let (cost, _, _) = oracle.get_oracle_stats();
    assert_eq!(cost.total_spent, 700000);
    assert_eq!(cost.calls_made, 2);
    assert_eq!(cost.average_cost_per_call, 350000);
}

#[test]
fn update_scheduling() {
    let mut oracle = OracleManager::initialize_oracle(create_test_address(), create_test_oracle_config());
    assert!(oracle.should_update_price_feeds(0));
    assert!(oracle.should_update_utility_rates(0));

    oracle.mark_price_feeds_updated(0);
    oracle.mark_utility_rates_updated(0);

    assert!(!oracle.should_update_price_feeds(0));
    assert!(!oracle.should_update_utility_rates(0));
    assert!(!oracle.should_update_price_feeds(300));
    assert!(oracle.should_update_price_feeds(301));
}
