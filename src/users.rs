use vstd::prelude::*;

use crate::error::{BillingError, Entity};
use crate::table::Table;
use crate::types::Address;

verus! {

#[derive(Clone, Copy, Debug, PartialEq, Eq, Structural)]
pub enum UserRole {
    Unassigned,
    User,
    UtilityProvider,
    Admin,
}

#[derive(Clone, Debug)]
pub struct UserProfile {
    pub profile_hash: String,
    pub created_at: u64,
    pub is_verified: bool,
}

/// Users with their profile, role, reputation, status and activity count.
pub struct UserManagement {
    admin: Address,
    profiles: Table<UserProfile>,
    roles: Table<UserRole>,
    reputations: Table<u32>,
    statuses: Table<bool>,
    activity: Table<u64>,
}

impl UserManagement {
    pub closed spec fn admin(&self) -> Address {
        self.admin
    }

    pub closed spec fn profiles(&self) -> Map<Seq<char>, UserProfile> {
        self.profiles@
    }

    pub closed spec fn roles(&self) -> Map<Seq<char>, UserRole> {
        self.roles@
    }

    pub closed spec fn reputations(&self) -> Map<Seq<char>, u32> {
        self.reputations@
    }

    pub closed spec fn statuses(&self) -> Map<Seq<char>, bool> {
        self.statuses@
    }

    pub closed spec fn activity(&self) -> Map<Seq<char>, u64> {
        self.activity@
    }

    pub closed spec fn wf(&self) -> bool {
        &&& self.profiles.wf()
        &&& self.roles.wf()
        &&& self.reputations.wf()
        &&& self.statuses.wf()
        &&& self.activity.wf()
    }

    /// The role on record; `Unassigned` for an unknown user.
    pub open spec fn role_of(&self, user: Seq<char>) -> UserRole {
        if self.roles().contains_key(user) {
            self.roles()[user]
        } else {
            UserRole::Unassigned
        }
    }

    /// Active status on record; unknown users are not active.
    pub open spec fn active(&self, user: Seq<char>) -> bool {
        self.statuses().contains_key(user) && self.statuses()[user]
    }

    /// The instance administrator, or a user holding the administrator role.
    pub open spec fn is_admin(&self, user: Seq<char>) -> bool {
        user == self.admin()@ || self.role_of(user) == UserRole::Admin
    }

    /// A registry whose administrator holds the administrator role and is active.
    pub fn initialize(admin: Address) -> (r: UserManagement)
        ensures
            r.wf(),
            r.admin() == admin,
            r.role_of(admin@) == UserRole::Admin,
            r.active(admin@),
            r.profiles() == Map::<Seq<char>, UserProfile>::empty(),
    {
        let mut roles: Table<UserRole> = Table::new();
        roles.insert_new(admin.id.clone(), UserRole::Admin);
        let mut statuses: Table<bool> = Table::new();
        statuses.insert_new(admin.id.clone(), true);
        UserManagement {
            admin,
            profiles: Table::new(),
            roles,
            reputations: Table::new(),
            statuses,
            activity: Table::new(),
        }
    }

    fn check_admin(&self, admin: &Address) -> (r: bool)
        requires
            self.wf(),
        ensures
            r == self.is_admin(admin@),
    {
        if admin.same_as(&self.admin) {
            return true;
        }
        match self.roles.get(&admin.id) {
            Some(role) => *role == UserRole::Admin,
            None => false,
        }
    }

    fn check_active(&self, user: &Address) -> (r: bool)
        requires
            self.wf(),
        ensures
            r == self.active(user@),
    {
        match self.statuses.get(&user.id) {
            Some(s) => *s,
            None => false,
        }
    }

    /// Registers a user: unverified profile, role `User`, active, no reputation and
    /// no activity.
    pub fn register(&mut self, user: &Address, profile_hash: String, now: u64) -> (r: Result<
        (),
        BillingError,
    >)
        requires
            old(self).wf(),
        ensures
            final(self).wf(),
            r == (if old(self).profiles().contains_key(user@) {
                Err(BillingError::AlreadyRegistered(Entity::User))
            } else {
                Ok(())
            }),
            r is Err ==> *final(self) == *old(self),
            r is Ok ==> final(self).profiles() == old(self).profiles().insert(
                user@,
                UserProfile { profile_hash, created_at: now, is_verified: false },
            ),
            r is Ok ==> final(self).roles() == old(self).roles().insert(user@, UserRole::User),
            r is Ok ==> final(self).statuses() == old(self).statuses().insert(user@, true),
            r is Ok ==> final(self).reputations() == old(self).reputations().insert(user@, 0),
            r is Ok ==> final(self).activity() == old(self).activity().insert(user@, 0),
            final(self).admin() == old(self).admin(),
    {
        if self.profiles.contains_key(&user.id) {
            return Err(BillingError::AlreadyRegistered(Entity::User));
        }
        self.profiles.set(user.id.clone(), UserProfile { profile_hash, created_at: now, is_verified: false });
        self.roles.set(user.id.clone(), UserRole::User);
        self.statuses.set(user.id.clone(), true);
        self.reputations.set(user.id.clone(), 0);
        self.activity.set(user.id.clone(), 0);
        Ok(())
    }

    /// Replaces an active user's profile hash.
    pub fn update_profile(&mut self, user: &Address, new_profile_hash: String) -> (r: Result<
        (),
        BillingError,
    >)
        requires
            old(self).wf(),
        ensures
            final(self).wf(),
            r == (if !old(self).active(user@) {
                Err(BillingError::Inactive(Entity::User))
            } else if !old(self).profiles().contains_key(user@) {
                Err(BillingError::NotFound(Entity::User))
            } else {
                Ok(())
            }),
            r is Err ==> *final(self) == *old(self),
            r is Ok ==> final(self).profiles() == old(self).profiles().insert(
                user@,
                UserProfile { profile_hash: new_profile_hash, ..old(self).profiles()[user@] },
            ),
            final(self).admin() == old(self).admin(),
            final(self).roles() == old(self).roles(),
            final(self).statuses() == old(self).statuses(),
            final(self).reputations() == old(self).reputations(),
            final(self).activity() == old(self).activity(),
    {
        if !self.check_active(user) {
            return Err(BillingError::Inactive(Entity::User));
        }
        let (created_at, is_verified) = match self.profiles.get(&user.id) {
            Some(p) => (p.created_at, p.is_verified),
            None => return Err(BillingError::NotFound(Entity::User)),
        };
        self.profiles.set(
            user.id.clone(),
            UserProfile { profile_hash: new_profile_hash, created_at, is_verified },
        );
        Ok(())
    }

    pub fn get_profile(&self, user: &Address) -> (r: Option<&UserProfile>)
        requires
            self.wf(),
        ensures
            r is Some <==> self.profiles().contains_key(user@),
            r matches Some(p) ==> *p == self.profiles()[user@],
    {
        self.profiles.get(&user.id)
    }

    /// Marks a user's profile as verified; administrators only.
    pub fn verify_user(&mut self, admin: &Address, user: &Address) -> (r: Result<(), BillingError>)
        requires
            old(self).wf(),
        ensures
            final(self).wf(),
            r == (if !old(self).is_admin(admin@) {
                Err(BillingError::Unauthorized)
            } else if !old(self).profiles().contains_key(user@) {
                Err(BillingError::NotFound(Entity::User))
            } else {
                Ok(())
            }),
            r is Err ==> *final(self) == *old(self),
            r is Ok ==> final(self).profiles() == old(self).profiles().insert(
                user@,
                UserProfile { is_verified: true, ..old(self).profiles()[user@] },
            ),
            final(self).admin() == old(self).admin(),
            final(self).roles() == old(self).roles(),
            final(self).statuses() == old(self).statuses(),
            final(self).reputations() == old(self).reputations(),
            final(self).activity() == old(self).activity(),
    {
        if !self.check_admin(admin) {
            return Err(BillingError::Unauthorized);
        }
        let (hash, created_at) = match self.profiles.get(&user.id) {
            Some(p) => (p.profile_hash.clone(), p.created_at),
            None => return Err(BillingError::NotFound(Entity::User)),
        };
        self.profiles.set(
            user.id.clone(),
            UserProfile { profile_hash: hash, created_at, is_verified: true },
        );
        Ok(())
    }

    /// Sets a user's role; administrators only.
    pub fn set_role(&mut self, admin: &Address, user: &Address, role: UserRole) -> (r: Result<
        (),
        BillingError,
    >)
        requires
            old(self).wf(),
        ensures
            final(self).wf(),
            r == (if !old(self).is_admin(admin@) {
                Err(BillingError::Unauthorized)
            } else {
                Ok(())
            }),
            r is Err ==> *final(self) == *old(self),
            r is Ok ==> final(self).roles() == old(self).roles().insert(user@, role),
            final(self).admin() == old(self).admin(),
            final(self).profiles() == old(self).profiles(),
            final(self).statuses() == old(self).statuses(),
            final(self).reputations() == old(self).reputations(),
            final(self).activity() == old(self).activity(),
    {
        if !self.check_admin(admin) {
            return Err(BillingError::Unauthorized);
        }
        self.roles.set(user.id.clone(), role);
        Ok(())
    }

    pub fn get_role(&self, user: &Address) -> (r: UserRole)
        requires
            self.wf(),
        ensures
            r == self.role_of(user@),
    {
        match self.roles.get(&user.id) {
            Some(role) => *role,
            None => UserRole::Unassigned,
        }
    }

    /// Sets a user's reputation score; administrators only.
    pub fn set_reputation(&mut self, admin: &Address, user: &Address, score: u32) -> (r: Result<
        (),
        BillingError,
    >)
        requires
            old(self).wf(),
        ensures
            final(self).wf(),
            r == (if !old(self).is_admin(admin@) {
                Err(BillingError::Unauthorized)
            } else {
                Ok(())
            }),
            r is Err ==> *final(self) == *old(self),
            r is Ok ==> final(self).reputations() == old(self).reputations().insert(user@, score),
            final(self).admin() == old(self).admin(),
            final(self).profiles() == old(self).profiles(),
            final(self).roles() == old(self).roles(),
            final(self).statuses() == old(self).statuses(),
            final(self).activity() == old(self).activity(),
    {
        if !self.check_admin(admin) {
            return Err(BillingError::Unauthorized);
        }
        self.reputations.set(user.id.clone(), score);
        Ok(())
    }

    /// Reputation on record; 0 for an unknown user.
    pub fn get_reputation(&self, user: &Address) -> (r: u32)
        requires
            self.wf(),
        ensures
            r == (if self.reputations().contains_key(user@) {
                self.reputations()[user@]
            } else {
                0
            }),
    {
        match self.reputations.get(&user.id) {
            Some(s) => *s,
            None => 0,
        }
    }

    fn set_status(&mut self, admin: &Address, user: &Address, active: bool) -> (r: Result<
        (),
        BillingError,
    >)
        requires
            old(self).wf(),
        ensures
            final(self).wf(),
            r == (if !old(self).is_admin(admin@) {
                Err(BillingError::Unauthorized)
            } else {
                Ok(())
            }),
            r is Err ==> *final(self) == *old(self),
            r is Ok ==> final(self).statuses() == old(self).statuses().insert(user@, active),
            final(self).admin() == old(self).admin(),
            final(self).profiles() == old(self).profiles(),
            final(self).roles() == old(self).roles(),
            final(self).reputations() == old(self).reputations(),
            final(self).activity() == old(self).activity(),
    {
        if !self.check_admin(admin) {
            return Err(BillingError::Unauthorized);
        }
        self.statuses.set(user.id.clone(), active);
        Ok(())
    }

    /// Suspends a user; administrators only.
    pub fn suspend_user(&mut self, admin: &Address, user: &Address) -> (r: Result<(), BillingError>)
        requires
            old(self).wf(),
        ensures
            final(self).wf(),
            r == (if !old(self).is_admin(admin@) {
                Err(BillingError::Unauthorized)
            } else {
                Ok(())
            }),
            r is Err ==> *final(self) == *old(self),
            r is Ok ==> final(self).statuses() == old(self).statuses().insert(user@, false),
            final(self).admin() == old(self).admin(),
            final(self).profiles() == old(self).profiles(),
            final(self).roles() == old(self).roles(),
            final(self).reputations() == old(self).reputations(),
            final(self).activity() == old(self).activity(),
    {
        self.set_status(admin, user, false)
    }

    /// Lifts a suspension; administrators only.
    pub fn unsuspend_user(&mut self, admin: &Address, user: &Address) -> (r: Result<(), BillingError>)
        requires
            old(self).wf(),
        ensures
            final(self).wf(),
            r == (if !old(self).is_admin(admin@) {
                Err(BillingError::Unauthorized)
            } else {
                Ok(())
            }),
            r is Err ==> *final(self) == *old(self),
            r is Ok ==> final(self).statuses() == old(self).statuses().insert(user@, true),
            final(self).admin() == old(self).admin(),
            final(self).profiles() == old(self).profiles(),
            final(self).roles() == old(self).roles(),
            final(self).reputations() == old(self).reputations(),
            final(self).activity() == old(self).activity(),
    {
        self.set_status(admin, user, true)
    }

    pub fn is_active(&self, user: &Address) -> (r: bool)
        requires
            self.wf(),
        ensures
            r == self.active(user@),
    {
        self.check_active(user)
    }

    /// Counts one more activity of an active user.
    pub fn log_activity(&mut self, user: &Address) -> (r: Result<(), BillingError>)
        requires
            old(self).wf(),
        ensures
            final(self).wf(),
            r == (if !old(self).active(user@) {
                Err(BillingError::Inactive(Entity::User))
            } else if old(self).activity_count(user@) == u64::MAX {
                Err(BillingError::Overflow)
            } else {
                Ok(())
            }),
            r is Err ==> *final(self) == *old(self),
            r is Ok ==> final(self).activity() == old(self).activity().insert(
                user@,
                (old(self).activity_count(user@) + 1) as u64,
            ),
            final(self).admin() == old(self).admin(),
            final(self).profiles() == old(self).profiles(),
            final(self).roles() == old(self).roles(),
            final(self).statuses() == old(self).statuses(),
            final(self).reputations() == old(self).reputations(),
    {
        if !self.check_active(user) {
            return Err(BillingError::Inactive(Entity::User));
        }
        let count = self.get_activity_count(user);
        if count == u64::MAX {
            return Err(BillingError::Overflow);
        }
        self.activity.set(user.id.clone(), count + 1);
        Ok(())
    }

    /// Activity on record; 0 for an unknown user.
    pub open spec fn activity_count(&self, user: Seq<char>) -> u64 {
        if self.activity().contains_key(user) {
            self.activity()[user]
        } else {
            0
        }
    }

    pub fn get_activity_count(&self, user: &Address) -> (r: u64)
        requires
            self.wf(),
        ensures
            r == self.activity_count(user@),
    {
        match self.activity.get(&user.id) {
            Some(c) => *c,
            None => 0,
        }
    }
}

} // verus!
