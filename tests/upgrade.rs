use nepa_billing::{Address, BillingError, DataMigration, Entity, UpgradeProxy, VersionManager};

fn create_test_admin() -> Address {
    Address::new("GADMIN".to_string())
}

fn generate(id: &str) -> Address {
    Address::new(id.to_string())
}

#[test]
fn test_upgrade_proxy_initialization() {
    let admin = create_test_admin();
    let proxy = UpgradeProxy::initialize(admin.clone());

    assert_eq!(*proxy.get_admin(), admin);
    assert_eq!(proxy.get_version(), 1);
}

#[test]
fn test_upgrade_proxy_upgrade() {
    let admin = create_test_admin();
    let new_implementation = generate("CNEWIMPL");
    let mut proxy = UpgradeProxy::initialize(admin.clone());

    let result = proxy.upgrade(&admin, new_implementation.clone(), 2);

    assert!(result.is_ok());
    assert_eq!(proxy.get_version(), 2);
    assert_eq!(proxy.get_implementation(), Some(&new_implementation));
}

#[test]
fn test_upgrade_proxy_unauthorized_upgrade() {
    let admin = create_test_admin();
    let unauthorized = generate("GUNAUTHORIZED");
    let new_implementation = generate("CNEWIMPL");
    let mut proxy = UpgradeProxy::initialize(admin);

    let result = proxy.upgrade(&unauthorized, new_implementation, 2);

    assert!(result.is_err());
    assert_eq!(result.unwrap_err(), BillingError::Unauthorized);
}

#[test]
fn test_version_manager_initialization() {
    let admin = create_test_admin();
    let manager = VersionManager::initialize(admin.clone());

    assert_eq!(*manager.get_admin(), admin);
}

#[test]
fn test_version_manager_register_version() {
    let admin = create_test_admin();
    let implementation = generate("CIMPL");
    let mut manager = VersionManager::initialize(admin.clone());

    let result = manager.register_version(&admin, 2, implementation.clone(), true, true, 0);
    assert!(result.is_ok());

    let version_info = manager.get_version_info(2);
    assert!(version_info.is_some());

    let info = version_info.unwrap();
    assert_eq!(info.version, 2);
    assert_eq!(info.implementation_address, implementation);
    assert!(info.migration_required);
    assert!(info.backward_compatible);
}

#[test]
fn test_version_manager_latest_version() {
    let admin = create_test_admin();
    let implementation1 = generate("CIMPL1");
    let implementation2 = generate("CIMPL2");
    let mut manager = VersionManager::initialize(admin.clone());

    manager.register_version(&admin, 1, implementation1, false, true, 0).unwrap();
    manager.register_version(&admin, 3, implementation2, true, false, 0).unwrap();

    assert_eq!(manager.get_latest_version(), Some(3));
}

#[test]
fn test_version_manager_upgrade_safety() {
    let admin = create_test_admin();
    let implementation1 = generate("CIMPL1");
    let implementation2 = generate("CIMPL2");
    let mut manager = VersionManager::initialize(admin.clone());

    manager.register_version(&admin, 1, implementation1, false, true, 0).unwrap();
    manager.register_version(&admin, 2, implementation2, true, false, 0).unwrap();

    let is_safe = manager.is_upgrade_safe(1, 1);
    assert!(is_safe.is_ok());
    assert!(is_safe.unwrap());

    let is_safe = manager.is_upgrade_safe(1, 2);
    assert!(is_safe.is_ok());
    assert!(!is_safe.unwrap());
}

#[test]
fn test_data_migration_initialization() {
    let admin = create_test_admin();
    let migration = DataMigration::initialize(admin.clone());

    assert_eq!(*migration.get_admin(), admin);
}

#[test]
fn test_data_migration_register_script() {
    let admin = create_test_admin();
    let script_hash = [1u8; 32];
    let mut migration = DataMigration::initialize(admin.clone());

    let result = migration.register_migration_script(&admin, 1, 2, script_hash, "TEST_MIGRATION".to_string());
    assert!(result.is_ok());

    let migrations = migration.get_migration_scripts(2);
    assert!(!migrations.is_empty());

    let script = &migrations[0];
    assert_eq!(script.from_version, 1);
    assert_eq!(script.to_version, 2);
    assert_eq!(script.script_hash, script_hash);
    assert_eq!(script.description, "TEST_MIGRATION");
}

#[test]
fn test_data_migration_execute() {
    let admin = create_test_admin();
    let script_hash = [1u8; 32];
    let mut migration = DataMigration::initialize(admin.clone());

    migration
        .register_migration_script(&admin, 1, 2, script_hash, "TEST_MIGRATION".to_string())
        .unwrap();

    let result = migration.execute_migration(&admin, 1, 2);
    assert!(result.is_ok());
}

#[test]
fn test_data_migration_backup() {
    let admin = create_test_admin();
    let mut migration = DataMigration::initialize(admin.clone());

    let result = migration.backup_data(&admin, 0);
    assert!(result.is_ok());
}

#[test]
fn test_data_migration_unauthorized_access() {
    let admin = create_test_admin();
    let unauthorized = generate("GUNAUTHORIZED");
    let mut migration = DataMigration::initialize(admin);

    let result = migration.backup_data(&unauthorized, 0);
    assert!(result.is_err());
    assert_eq!(result.unwrap_err(), BillingError::Unauthorized);
}

#[test]
fn test_integration_upgrade_flow() {
    let admin = create_test_admin();
    let old_implementation = generate("COLDIMPL");
    let new_implementation = generate("CNEWIMPL");
    let script_hash = [1u8; 32];

    let mut proxy = UpgradeProxy::initialize(admin.clone());
    let mut versions = VersionManager::initialize(admin.clone());
    let mut migration = DataMigration::initialize(admin.clone());

    versions.register_version(&admin, 2, new_implementation.clone(), true, true, 0).unwrap();

    migration
        .register_migration_script(&admin, 1, 2, script_hash, "INTEGRATION_TEST".to_string())
        .unwrap();

    proxy.upgrade(&admin, old_implementation.clone(), 1).unwrap();

    migration.backup_data(&admin, 0).unwrap();

    let upgrade_result = proxy.upgrade(&admin, new_implementation.clone(), 2);
    assert!(upgrade_result.is_ok());

    let migration_result = migration.execute_migration(&admin, 1, 2);
    assert!(migration_result.is_ok());

    assert_eq!(proxy.get_version(), 2);
    assert_eq!(proxy.get_implementation(), Some(&new_implementation));
}

#[test]
fn test_error_handling() {
    let admin = create_test_admin();
    let unauthorized = generate("GUNAUTHORIZED");

    let mut proxy = UpgradeProxy::initialize(admin.clone());
    let mut versions = VersionManager::initialize(admin.clone());
    let mut migration = DataMigration::initialize(admin.clone());

    let upgrade_result = proxy.upgrade(&unauthorized, generate("CX"), 2);
    assert!(upgrade_result.is_err());

    let version_result = versions.register_version(&unauthorized, 2, generate("CY"), true, true, 0);
    assert!(version_result.is_err());

    let migration_result = migration.register_migration_script(&unauthorized, 1, 2, [1u8; 32], "TEST".to_string());
    assert!(migration_result.is_err());
}

// ------------------------------------------------------------ further cases

#[test]
fn migration_needs_a_matching_script_and_backup_to_restore() {
    let admin = create_test_admin();
    let mut migration = DataMigration::initialize(admin.clone());
    assert_eq!(
        migration.execute_migration(&admin, 1, 2),
        Err(BillingError::NotFound(Entity::MigrationScript))
    );
    migration.register_migration_script(&admin, 1, 3, [7u8; 32], "A".to_string()).unwrap();
    migration.register_migration_script(&admin, 2, 3, [9u8; 32], "B".to_string()).unwrap();
    assert_eq!(migration.execute_migration(&admin, 2, 3), Ok([9u8; 32]));
    assert_eq!(migration.get_migration_scripts(3).len(), 2);
    assert!(migration.get_migration_scripts(4).is_empty());

    assert_eq!(migration.restore_data(&admin, 55), Err(BillingError::NotFound(Entity::Backup)));
    assert_eq!(migration.backup_data(&admin, 55), Ok(55));
    assert_eq!(migration.restore_data(&admin, 55), Ok(()));
    assert_eq!(migration.restore_data(&generate("GX"), 55), Err(BillingError::Unauthorized));
}

#[test]
fn proxy_keeps_previous_implementation_for_migration() {
    let admin = create_test_admin();
    let mut proxy = UpgradeProxy::initialize(admin.clone());
    assert_eq!(proxy.get_implementation(), None);
    assert_eq!(proxy.migrate_data(&admin), Err(BillingError::NotFound(Entity::Implementation)));
    proxy.upgrade(&admin, generate("C1"), 2).unwrap();
    proxy.upgrade(&admin, generate("C2"), 3).unwrap();
    assert_eq!(proxy.migrate_data(&admin), Ok(()));
    assert_eq!(proxy.migrate_data(&generate("GX")), Err(BillingError::Unauthorized));
}

#[test]
fn version_catalogue_lookups() {
    let admin = create_test_admin();
    let mut versions = VersionManager::initialize(admin.clone());
    assert_eq!(versions.get_latest_version(), None);
    assert_eq!(versions.is_upgrade_safe(1, 2), Err(BillingError::NotFound(Entity::Version)));
    versions.register_version(&admin, 5, generate("C5"), false, false, 10).unwrap();
    versions.register_version(&admin, 2, generate("C2"), false, true, 11).unwrap();
    versions.register_version(&admin, 5, generate("C5B"), true, false, 12).unwrap();
    assert_eq!(versions.list_versions().len(), 2);
    assert_eq!(versions.get_latest_version(), Some(5));
    let five = versions.get_version_info(5).unwrap();
    assert_eq!(five.implementation_address, generate("C5B"));
    assert_eq!(five.deployment_timestamp, 12);
    // moving down to a version that is not backward compatible is allowed
    assert_eq!(versions.is_upgrade_safe(5, 2), Ok(true));
    assert_eq!(versions.is_upgrade_safe(2, 5), Ok(false));
    assert_eq!(versions.is_upgrade_safe(2, 7), Err(BillingError::NotFound(Entity::Version)));
}
