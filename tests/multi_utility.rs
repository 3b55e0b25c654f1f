use nepa_billing::{Address, BillingError, Entity, FeeType, MultiUtilityManager, UtilityType};

fn addr(id: &str) -> Address {
    Address::new(id.to_string())
}

fn s(text: &str) -> String {
    text.to_string()
}

fn register(
    manager: &mut MultiUtilityManager,
    admin: &Address,
    id: &str,
    name: &str,
    provider: Address,
    utility_type: u8,
    region: &str,
    license: &str,
    contact: &str,
) -> Result<(), BillingError> {
    manager.register_provider(admin, s(id), s(name), provider, utility_type, s(region), s(license), s(contact), 0)
}

#[test]
fn test_utility_type_enum() {
    assert_eq!(UtilityType::from_u8(1).unwrap(), UtilityType::Electricity);
    assert_eq!(UtilityType::from_u8(2).unwrap(), UtilityType::Water);
    assert_eq!(UtilityType::from_u8(8).unwrap(), UtilityType::EVCharging);

    assert!(UtilityType::from_u8(99).is_err());

    assert_eq!(UtilityType::Electricity.to_string(), "electricity");
    assert_eq!(UtilityType::Water.to_string(), "water");

    assert_eq!(UtilityType::Electricity.get_unit(), "kWh");
    assert_eq!(UtilityType::Water.get_unit(), "m³");
    assert_eq!(UtilityType::Internet.get_unit(), "Mbps");
}

#[test]
fn test_fee_type_enum() {
    assert_eq!(FeeType::from_u8(1).unwrap(), FeeType::Processing);
    assert_eq!(FeeType::from_u8(8).unwrap(), FeeType::Emergency);

    assert!(FeeType::from_u8(99).is_err());
}

#[test]
fn test_multi_utility_initialization() {
    let admin = addr("GADMIN");
    let manager = MultiUtilityManager::initialize(admin);

    let utility_types = manager.get_utility_types();
    assert!(utility_types.iter().any(|(code, _)| *code == 1));
    assert!(utility_types.iter().any(|(code, _)| *code == 2));
    assert!(utility_types.iter().any(|(code, _)| *code == 8));

    assert_eq!(manager.provider_count(), 0);
}

#[test]
fn test_provider_registration() {
    let admin = addr("GADMIN");
    let provider_address = addr("GPROVIDER");
    let mut manager = MultiUtilityManager::initialize(admin.clone());

    let result = register(
        &mut manager,
        &admin,
        "provider_001",
        "Test Electricity Co",
        provider_address.clone(),
        1,
        "Lagos",
        "LICENSE001",
        "contact@test.com",
    );
    assert!(result.is_ok());

    let provider = manager.get_provider(&s("provider_001"));
    assert!(provider.is_some());
    let provider = provider.unwrap();
    assert_eq!(provider.name, "Test Electricity Co");
    assert_eq!(provider.utility_type, UtilityType::Electricity);
    assert_eq!(provider.region, "Lagos");
    assert!(provider.is_active);

    let duplicate_result = register(
        &mut manager,
        &admin,
        "provider_001",
        "Duplicate Co",
        provider_address,
        1,
        "Lagos",
        "LICENSE002",
        "duplicate@test.com",
    );
    assert!(duplicate_result.is_err());
    assert_eq!(duplicate_result.unwrap_err().message(), "Provider already registered");
}

#[test]
fn test_utility_configuration() {
    let admin = addr("GADMIN");
    let mut manager = MultiUtilityManager::initialize(admin.clone());
    register(&mut manager, &admin, "provider_001", "Test Water Co", addr("GPROVIDER"), 2, "Abuja", "LICENSE001", "contact@test.com")
        .unwrap();

    let result = manager.add_utility_config(
        &admin,
        s("config_001"),
        2,
        s("provider_001"),
        s("Abuja"),
        5000000i128,
        s("XLM"),
        7,
        30,
        5,
        1000000i128,
        100000000i128,
        0,
    );
    assert!(result.is_ok());

    let config = manager.get_utility_config(&s("config_001"));
    assert!(config.is_some());
    let config = config.unwrap();
    assert_eq!(config.utility_type, UtilityType::Water);
    assert_eq!(config.base_rate, 5000000i128);
    assert_eq!(config.currency, "XLM");
    assert_eq!(config.billing_cycle_days, 30);
    assert!(config.is_active);
}

#[test]
fn test_meter_registration() {
    let admin = addr("GADMIN");
    let provider_address = addr("GPROVIDER");
    let customer_address = addr("GCUSTOMER");
    let mut manager = MultiUtilityManager::initialize(admin.clone());
    register(&mut manager, &admin, "provider_001", "Test Gas Co", provider_address.clone(), 3, "Kano", "LICENSE001", "contact@test.com")
        .unwrap();

    let result = manager.register_meter(
        &provider_address,
        s("meter_001"),
        3,
        s("provider_001"),
        customer_address.clone(),
        s("123 Main St"),
        s("SmartMeter X1"),
        s("v1.0.0"),
        true,
        0,
    );
    assert!(result.is_ok());

    let meter = manager.get_meter(&s("meter_001"));
    assert!(meter.is_some());
    let meter = meter.unwrap();
    assert_eq!(meter.utility_type, UtilityType::Gas);
    assert_eq!(meter.provider_id, "provider_001");
    assert_eq!(meter.customer_address, customer_address);
    assert!(meter.is_smart_meter);
    assert!(meter.is_active);
}

#[test]
fn test_utility_fee_structure() {
    let admin = addr("GADMIN");
    let mut manager = MultiUtilityManager::initialize(admin.clone());
    register(&mut manager, &admin, "provider_001", "Test Internet Co", addr("GPROVIDER"), 4, "Port Harcourt", "LICENSE001", "contact@test.com")
        .unwrap();

    let result = manager.add_utility_fee(
        &admin,
        s("fee_001"),
        4,
        s("provider_001"),
        1,
        2000000i128,
        None,
        false,
        s("Standard processing fee"),
        0,
    );
    assert!(result.is_ok());

    let fee = manager.get_utility_fee(&s("fee_001"));
    assert!(fee.is_some());
    let fee = fee.unwrap();
    assert_eq!(fee.utility_type, UtilityType::Internet);
    assert_eq!(fee.fee_type, FeeType::Processing);
    assert_eq!(fee.fee_amount, 2000000i128);
    assert!(!fee.is_percentage);
    assert!(fee.is_active);
}

#[test]
fn test_list_providers_by_type_and_region() {
    let admin = addr("GADMIN");
    let mut manager = MultiUtilityManager::initialize(admin.clone());
    register(&mut manager, &admin, "provider_001", "Electricity Co 1", addr("GP1"), 1, "Lagos", "LICENSE001", "contact1@test.com")
        .unwrap();
    register(&mut manager, &admin, "provider_002", "Electricity Co 2", addr("GP2"), 1, "Lagos", "LICENSE002", "contact2@test.com")
        .unwrap();
    register(&mut manager, &admin, "provider_003", "Water Co", addr("GP3"), 2, "Lagos", "LICENSE003", "contact3@test.com")
        .unwrap();

    let providers = manager.list_providers_by_type_and_region(1, &s("Lagos")).unwrap();
    assert_eq!(providers.len(), 2);

    let provider_ids: Vec<String> = providers.iter().map(|p| p.provider_id.clone()).collect();
    assert!(provider_ids.contains(&s("provider_001")));
    assert!(provider_ids.contains(&s("provider_002")));
    assert!(!provider_ids.contains(&s("provider_003")));
}

#[test]
fn test_provider_status_update() {
    let admin = addr("GADMIN");
    let mut manager = MultiUtilityManager::initialize(admin.clone());
    register(&mut manager, &admin, "provider_001", "Test Co", addr("GPROVIDER"), 1, "Lagos", "LICENSE001", "contact@test.com")
        .unwrap();

    let provider = manager.get_provider(&s("provider_001")).unwrap();
    assert!(provider.is_active);

    let result = manager.update_provider_status(&admin, &s("provider_001"), false);
    assert!(result.is_ok());

    let provider = manager.get_provider(&s("provider_001")).unwrap();
    assert!(!provider.is_active);
}

#[test]
fn test_utility_type_validation() {
    let manager = MultiUtilityManager::initialize(addr("GADMIN"));

    assert!(manager.validate_utility_type(1).is_ok());
    assert!(manager.validate_utility_type(2).is_ok());
    assert!(manager.validate_utility_type(8).is_ok());

    assert!(manager.validate_utility_type(99).is_err());
}

#[test]
fn test_configuration_upgrade() {
    let admin = addr("GADMIN");
    let mut manager = MultiUtilityManager::initialize(admin.clone());
    register(&mut manager, &admin, "provider_001", "Test Co", addr("GPROVIDER"), 1, "Lagos", "LICENSE001", "contact@test.com")
        .unwrap();
    manager
        .add_utility_config(
            &admin,
            s("config_001"),
            1,
            s("provider_001"),
            s("Lagos"),
            1000000i128,
            s("XLM"),
            7,
            30,
            5,
            1000000i128,
            100000000i128,
            0,
        )
        .unwrap();

    let initial_config = manager.get_utility_config(&s("config_001")).unwrap();
    assert_eq!(initial_config.version, 1);
    assert_eq!(initial_config.base_rate, 1000000i128);

    let mut upgraded_config = initial_config.clone();
    upgraded_config.base_rate = 1500000i128;
    upgraded_config.billing_cycle_days = 60;

    let result = manager.upgrade_utility_config(&admin, s("config_001"), upgraded_config, 0);
    assert!(result.is_ok());

    let upgraded_config_result = manager.get_utility_config(&s("config_001")).unwrap();
    assert_eq!(upgraded_config_result.version, 2);
    assert_eq!(upgraded_config_result.base_rate, 1500000i128);
    assert_eq!(upgraded_config_result.billing_cycle_days, 60);
}

// ------------------------------------------------------------ further cases

#[test]
fn registry_errors_for_each_check() {
    let admin = addr("GADMIN");
    let stranger = addr("GSTRANGER");
    let provider_address = addr("GPROVIDER");
    let mut manager = MultiUtilityManager::initialize(admin.clone());

    assert_eq!(
        register(&mut manager, &stranger, "p", "n", provider_address.clone(), 1, "Lagos", "l", "c"),
        Err(BillingError::Unauthorized)
    );
    assert_eq!(
        register(&mut manager, &admin, "p", "n", provider_address.clone(), 0, "Lagos", "l", "c"),
        Err(BillingError::InvalidEnum)
    );
    assert_eq!(
        register(&mut manager, &admin, "p", "n", provider_address.clone(), 9, "Lagos", "l", "c"),
        Err(BillingError::InvalidEnum)
    );
    register(&mut manager, &admin, "p", "n", provider_address.clone(), 1, "Lagos", "l", "c").unwrap();
    let provider = manager.get_provider(&s("p")).unwrap();
    assert_eq!(provider.rating, 3);
    assert_eq!(provider.total_transactions, 0);

    let add = |m: &mut MultiUtilityManager, who: &Address, id: &str, t: u8, pid: &str| {
        m.add_utility_config(who, s(id), t, s(pid), s("Lagos"), 1, s("XLM"), 7, 30, 5, 0, 100, 9)
    };
    assert_eq!(add(&mut manager, &stranger, "c", 1, "p"), Err(BillingError::Unauthorized));
    assert_eq!(add(&mut manager, &admin, "c", 12, "p"), Err(BillingError::InvalidEnum));
    assert_eq!(add(&mut manager, &admin, "c", 1, "nobody"), Err(BillingError::NotFound(Entity::Provider)));
    assert_eq!(add(&mut manager, &admin, "c", 2, "p"), Err(BillingError::TypeMismatch));
    assert_eq!(add(&mut manager, &admin, "c", 1, "p"), Ok(()));
    assert_eq!(add(&mut manager, &admin, "c", 1, "p"), Err(BillingError::AlreadyRegistered(Entity::Config)));
    let config = manager.get_utility_config(&s("c")).unwrap();
    assert_eq!(config.version, 1);
    assert_eq!(config.last_updated, 9);
    assert_eq!(config.late_fee_config.flat_fee, 1000000);
    assert_eq!(config.late_fee_config.percentage_fee, 500);
    assert_eq!(config.late_fee_config.max_fee, 10000000);
    assert_eq!(config.late_fee_config.grace_period_days, 5);

    manager.update_provider_status(&admin, &s("p"), false).unwrap();
    assert_eq!(add(&mut manager, &admin, "c2", 1, "p"), Err(BillingError::Inactive(Entity::Provider)));
    assert_eq!(
        manager.update_provider_status(&admin, &s("nobody"), false),
        Err(BillingError::NotFound(Entity::Provider))
    );
    assert_eq!(manager.update_provider_status(&stranger, &s("p"), true), Err(BillingError::Unauthorized));
}

#[test]
fn meter_registration_requires_provider_address_and_activity() {
    let admin = addr("GADMIN");
    let provider_address = addr("GPROVIDER");
    let mut manager = MultiUtilityManager::initialize(admin.clone());
    register(&mut manager, &admin, "p", "n", provider_address.clone(), 3, "Kano", "l", "c").unwrap();

    let meter = |m: &mut MultiUtilityManager, who: &Address, id: &str, pid: &str| {
        m.register_meter(who, s(id), 3, s(pid), addr("GCUST"), s("loc"), s("model"), s("fw"), false, 4)
    };
    assert_eq!(meter(&mut manager, &addr("GOTHER"), "m", "p"), Err(BillingError::Unauthorized));
    assert_eq!(meter(&mut manager, &provider_address, "m", "q"), Err(BillingError::NotFound(Entity::Provider)));
    assert_eq!(meter(&mut manager, &provider_address, "m", "p"), Ok(()));
    assert_eq!(
        meter(&mut manager, &provider_address, "m", "p"),
        Err(BillingError::AlreadyRegistered(Entity::Meter))
    );
    let stored = manager.get_meter(&s("m")).unwrap();
    assert_eq!(stored.installation_date, 4);
    assert_eq!(stored.last_reading, 0);

    manager.update_provider_status(&admin, &s("p"), false).unwrap();
    assert_eq!(meter(&mut manager, &provider_address, "m2", "p"), Err(BillingError::Inactive(Entity::Provider)));
}

#[test]
fn fee_registration_checks_codes_and_provider() {
    let admin = addr("GADMIN");
    let mut manager = MultiUtilityManager::initialize(admin.clone());
    register(&mut manager, &admin, "p", "n", addr("GP"), 4, "PH", "l", "c").unwrap();
    let fee = |m: &mut MultiUtilityManager, id: &str, t: u8, pid: &str, ft: u8| {
        m.add_utility_fee(&admin, s(id), t, s(pid), ft, 10, None, false, s("d"), 0)
    };
    assert_eq!(fee(&mut manager, "f", 4, "p", 0), Err(BillingError::InvalidEnum));
    assert_eq!(fee(&mut manager, "f", 0, "p", 1), Err(BillingError::InvalidEnum));
    assert_eq!(fee(&mut manager, "f", 4, "q", 1), Err(BillingError::NotFound(Entity::Provider)));
    assert_eq!(fee(&mut manager, "f", 4, "p", 8), Ok(()));
    assert_eq!(fee(&mut manager, "f", 4, "p", 8), Err(BillingError::AlreadyRegistered(Entity::Fee)));
    assert_eq!(manager.get_utility_fee(&s("f")).unwrap().fee_type, FeeType::Emergency);
}

#[test]
fn registering_twice_keeps_the_first_provider() {
    let admin = addr("GADMIN");
    let mut manager = MultiUtilityManager::initialize(admin.clone());
    register(&mut manager, &admin, "P1", "First", addr("GFIRST"), 1, "Lagos", "L1", "c1").unwrap();
    let second = register(&mut manager, &admin, "P1", "Second", addr("GSECOND"), 2, "Abuja", "L2", "c2");
    assert_eq!(second, Err(BillingError::AlreadyRegistered(Entity::Provider)));
    let provider = manager.get_provider(&s("P1")).unwrap();
    assert_eq!(provider.name, "First");
    assert_eq!(provider.address, addr("GFIRST"));
    assert_eq!(provider.utility_type, UtilityType::Electricity);
    assert_eq!(provider.region, "Lagos");
    assert_eq!(manager.provider_count(), 1);
}

#[test]
fn each_upgrade_adds_one_version_and_one_record() {
    let admin = addr("GADMIN");
    let mut manager = MultiUtilityManager::initialize(admin.clone());
    register(&mut manager, &admin, "p", "n", addr("GP"), 1, "Lagos", "l", "c").unwrap();
    manager
        .add_utility_config(&admin, s("c"), 1, s("p"), s("Lagos"), 10, s("XLM"), 7, 30, 5, 0, 100, 0)
        .unwrap();
    for n in 1..=3u32 {
        let next = manager.get_utility_config(&s("c")).unwrap().clone();
        manager.upgrade_utility_config(&admin, s("c"), next, 100 + n as u64).unwrap();
        let config = manager.get_utility_config(&s("c")).unwrap();
        assert_eq!(config.version, 1 + n);
        assert_eq!(config.last_updated, 100 + n as u64);
        let history = manager.get_version_history();
        assert_eq!(history.len(), n as usize);
        let last = history.last().unwrap();
        assert_eq!(last.version, 1 + n);
        assert_eq!(last.config_id, "c");
        assert!(last.migration_required);
        assert_eq!(last.description, "Configuration upgrade");
    }
    assert_eq!(
        manager.upgrade_utility_config(&admin, s("missing"), manager.get_utility_config(&s("c")).unwrap().clone(), 0),
        Err(BillingError::NotFound(Entity::Config))
    );
    assert_eq!(manager.get_version_history().len(), 3);
}

#[test]
fn listing_skips_inactive_and_other_regions() {
    let admin = addr("GADMIN");
    let mut manager = MultiUtilityManager::initialize(admin.clone());
    register(&mut manager, &admin, "a", "A", addr("GA"), 1, "Lagos", "l", "c").unwrap();
    register(&mut manager, &admin, "b", "B", addr("GB"), 1, "Kano", "l", "c").unwrap();
    register(&mut manager, &admin, "c", "C", addr("GC"), 1, "Lagos", "l", "c").unwrap();
    manager.update_provider_status(&admin, &s("a"), false).unwrap();
    let listed = manager.list_providers_by_type_and_region(1, &s("Lagos")).unwrap();
    assert_eq!(listed.len(), 1);
    assert_eq!(listed[0].provider_id, "c");
    assert_eq!(manager.list_providers_by_type_and_region(42, &s("Lagos")).unwrap_err(), BillingError::InvalidEnum);
    let names = manager.get_utility_types();
    assert_eq!(names.len(), 8);
    assert_eq!(names[5], (6, s("property_tax")));
    assert_eq!(names[7], (8, s("ev_charging")));
}
