use nepa_billing::{Address, BillingError, Entity, UserManagement, UserRole};

fn generate(id: &str) -> Address {
    Address::new(id.to_string())
}

#[test]
fn test_registration() {
    let admin = generate("GADMIN");
    let user = generate("GUSER");
    let mut users = UserManagement::initialize(admin.clone());

    users.register(&user, "ipfs_hash_example_1".to_string(), 0).unwrap();

    assert_eq!(users.get_role(&user), UserRole::User);
    assert_eq!(users.is_active(&user), true);
    assert_eq!(users.get_reputation(&user), 0);

    let profile = users.get_profile(&user).unwrap();
    assert_eq!(profile.is_verified, false);

    users.verify_user(&admin, &user).unwrap();
    let verified_profile = users.get_profile(&user).unwrap();
    assert_eq!(verified_profile.is_verified, true);
}

#[test]
fn test_rbac_and_suspension() {
    let admin = generate("GADMIN");
    let user = generate("GUSER");
    let mut users = UserManagement::initialize(admin.clone());

    users.register(&user, "hash".to_string(), 0).unwrap();

    users.set_role(&admin, &user, UserRole::UtilityProvider).unwrap();
    assert_eq!(users.get_role(&user), UserRole::UtilityProvider);

    users.suspend_user(&admin, &user).unwrap();
    assert_eq!(users.is_active(&user), false);

    users.unsuspend_user(&admin, &user).unwrap();
    assert_eq!(users.is_active(&user), true);
}

#[test]
fn test_activity_tracking() {
    let admin = generate("GADMIN");
    let user = generate("GUSER");
    let mut users = UserManagement::initialize(admin);
    users.register(&user, "profile".to_string(), 0).unwrap();

    assert_eq!(users.get_activity_count(&user), 0);

    users.log_activity(&user).unwrap();
    users.log_activity(&user).unwrap();

    assert_eq!(users.get_activity_count(&user), 2);
}

#[test]
fn user_rules_refuse_what_they_should() {
    let admin = generate("GADMIN");
    let user = generate("GUSER");
    let other = generate("GOTHER");
    let mut users = UserManagement::initialize(admin.clone());

    assert_eq!(users.get_role(&admin), UserRole::Admin);
    assert!(users.is_active(&admin));
    assert_eq!(users.get_role(&other), UserRole::Unassigned);
    assert!(!users.is_active(&other));

    users.register(&user, "h".to_string(), 3).unwrap();
    assert_eq!(users.register(&user, "h2".to_string(), 4), Err(BillingError::AlreadyRegistered(Entity::User)));
    assert_eq!(users.get_profile(&user).unwrap().created_at, 3);

    assert_eq!(users.set_role(&user, &other, UserRole::Admin), Err(BillingError::Unauthorized));
    assert_eq!(users.verify_user(&admin, &other), Err(BillingError::NotFound(Entity::User)));

    // a user holding the administrator role may administer
    users.set_role(&admin, &user, UserRole::Admin).unwrap();
    assert_eq!(users.set_reputation(&user, &other, 7), Ok(()));
    assert_eq!(users.get_reputation(&other), 7);

    users.suspend_user(&admin, &user).unwrap();
    assert_eq!(users.log_activity(&user), Err(BillingError::Inactive(Entity::User)));
    assert_eq!(users.update_profile(&user, "x".to_string()), Err(BillingError::Inactive(Entity::User)));
    users.unsuspend_user(&admin, &user).unwrap();
    users.update_profile(&user, "x".to_string()).unwrap();
    assert_eq!(users.get_profile(&user).unwrap().profile_hash, "x");
}
