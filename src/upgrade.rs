use vstd::prelude::*;

use crate::error::{BillingError, Entity};
use crate::types::Address;

verus! {

/// Points at the live implementation and its version; only the administrator
/// may move it.
pub struct UpgradeProxy {
    admin: Address,
    implementation: Option<Address>,
    old_implementation: Option<Address>,
    version: u32,
}

impl UpgradeProxy {
    pub closed spec fn admin(&self) -> Address {
        self.admin
    }

    pub closed spec fn implementation(&self) -> Option<Address> {
        self.implementation
    }

    pub closed spec fn old_implementation(&self) -> Option<Address> {
        self.old_implementation
    }

    pub closed spec fn version(&self) -> u32 {
        self.version
    }

    /// A proxy at version 1 with no implementation yet.
    pub fn initialize(admin: Address) -> (r: UpgradeProxy)
        ensures
            r.admin() == admin,
            r.version() == 1,
            r.implementation() is None,
            r.old_implementation() is None,
    {
        UpgradeProxy { admin, implementation: None, old_implementation: None, version: 1 }
    }

    pub fn get_admin(&self) -> (r: &Address)
        ensures
            *r == self.admin(),
    {
        &self.admin
    }

    pub fn get_implementation(&self) -> (r: Option<&Address>)
        ensures
            r == match self.implementation() {
                Some(a) => Some(&a),
                None => None::<&Address>,
            },
    {
        match &self.implementation {
            Some(a) => Some(a),
            None => None,
        }
    }

    pub fn get_version(&self) -> (r: u32)
        ensures
            r == self.version(),
    {
        self.version
    }

    pub fn is_admin(&self, caller: &Address) -> (r: bool)
        ensures
            r == (caller@ == self.admin()@),
    {
        caller.same_as(&self.admin)
    }

    /// Switches to a new implementation and version, keeping the previous
    /// implementation for data migration.
    pub fn upgrade(&mut self, admin: &Address, new_implementation: Address, new_version: u32) -> (r:
        Result<(), BillingError>)
        ensures
            r == (if admin@ != old(self).admin()@ {
                Err(BillingError::Unauthorized)
            } else {
                Ok(())
            }),
            r is Err ==> *final(self) == *old(self),
            r is Ok ==> final(self).implementation() == Some(new_implementation),
            r is Ok ==> final(self).version() == new_version,
            r is Ok ==> final(self).old_implementation() == old(self).implementation(),
            final(self).admin() == old(self).admin(),
    {
        if !self.is_admin(admin) {
            return Err(BillingError::Unauthorized);
        }
        self.old_implementation = self.implementation.take();
        self.implementation = Some(new_implementation);
        self.version = new_version;
        Ok(())
    }

    /// Admits a data migration from the previous implementation, which must exist.
    pub fn migrate_data(&self, admin: &Address) -> (r: Result<(), BillingError>)
        ensures
            r == (if admin@ != self.admin()@ {
                Err(BillingError::Unauthorized)
            } else if self.old_implementation() is None {
                Err(BillingError::NotFound(Entity::Implementation))
            } else {
                Ok(())
            }),
    {
        if !self.is_admin(admin) {
            return Err(BillingError::Unauthorized);
        }
        if self.old_implementation.is_none() {
            return Err(BillingError::NotFound(Entity::Implementation));
        }
        Ok(())
    }
}

/// A registered contract version.
#[derive(Clone, Debug)]
pub struct ContractVersion {
    pub version: u32,
    pub implementation_address: Address,
    pub deployment_timestamp: u64,
    pub migration_required: bool,
    pub backward_compatible: bool,
}

pub open spec fn has_version(s: Seq<ContractVersion>, v: u32) -> bool {
    exists|i: int| 0 <= i < s.len() && (#[trigger] s[i]).version == v
}

/// The entry registered for version `v`; meaningful when `has_version(s, v)`.
pub open spec fn version_entry(s: Seq<ContractVersion>, v: u32) -> ContractVersion {
    s[choose|i: int| 0 <= i < s.len() && (#[trigger] s[i]).version == v]
}

pub open spec fn versions_unique(s: Seq<ContractVersion>) -> bool {
    forall|i: int, j: int|
        0 <= i < s.len() && 0 <= j < s.len() && i != j ==> (#[trigger] s[i]).version != (
        #[trigger] s[j]).version
}

proof fn lemma_version_entry(s: Seq<ContractVersion>, i: int)
    requires
        versions_unique(s),
        0 <= i < s.len(),
    ensures
        has_version(s, s[i].version),
        version_entry(s, s[i].version) == s[i],
{
    assert(has_version(s, s[i].version));
    let j = choose|j: int| 0 <= j < s.len() && (#[trigger] s[j]).version == s[i].version;
    assert(s[j].version == s[i].version);
}

/// The catalogue of contract versions, one entry per version number.
pub struct VersionManager {
    admin: Address,
    versions: Vec<ContractVersion>,
}

impl VersionManager {
    pub closed spec fn admin(&self) -> Address {
        self.admin
    }

    /// Registered versions, in registration order.
    pub closed spec fn entries(&self) -> Seq<ContractVersion> {
        self.versions@
    }

    pub open spec fn wf(&self) -> bool {
        versions_unique(self.entries())
    }

    pub open spec fn info(&self, v: u32) -> Option<ContractVersion> {
        if has_version(self.entries(), v) {
            Some(version_entry(self.entries(), v))
        } else {
            None
        }
    }

    pub fn initialize(admin: Address) -> (r: VersionManager)
        ensures
            r.wf(),
            r.admin() == admin,
            r.entries().len() == 0,
    {
        VersionManager { admin, versions: Vec::new() }
    }

    pub fn get_admin(&self) -> (r: &Address)
        ensures
            *r == self.admin(),
    {
        &self.admin
    }

    fn find(&self, version: u32) -> (r: Option<usize>)
        requires
            self.wf(),
        ensures
            r is None <==> !has_version(self.entries(), version),
            r matches Some(i) ==> i < self.entries().len() && self.entries()[i as int].version
                == version && version_entry(self.entries(), version) == self.entries()[i as int],
    {
        let mut i: usize = 0;
        while i < self.versions.len()
            invariant
                self.wf(),
                i <= self.versions@.len(),
                forall|j: int| 0 <= j < i ==> (#[trigger] self.versions@[j]).version != version,
            decreases self.versions@.len() - i,
        {
            if self.versions[i].version == version {
                proof {
                    lemma_version_entry(self.entries(), i as int);
                }
                return Some(i);
            }
            i += 1;
        }
        None
    }

    /// Registers a version, replacing an earlier entry with the same number.
    pub fn register_version(
        &mut self,
        admin: &Address,
        version: u32,
        implementation_address: Address,
        migration_required: bool,
        backward_compatible: bool,
        now: u64,
    ) -> (r: Result<(), BillingError>)
        requires
            old(self).wf(),
        ensures
            final(self).wf(),
            r == (if admin@ != old(self).admin()@ {
                Err(BillingError::Unauthorized)
            } else {
                Ok(())
            }),
            r is Err ==> *final(self) == *old(self),
            r is Ok ==> final(self).info(version) == Some(
                ContractVersion {
                    version,
                    implementation_address,
                    deployment_timestamp: now,
                    migration_required,
                    backward_compatible,
                },
            ),
            r is Ok ==> forall|v: u32| v != version ==> #[trigger] final(self).info(v) == old(self).info(v),
            final(self).admin() == old(self).admin(),
    {
        if !admin.same_as(&self.admin) {
            return Err(BillingError::Unauthorized);
        }
        let entry = ContractVersion {
            version,
            implementation_address,
            deployment_timestamp: now,
            migration_required,
            backward_compatible,
        };
        let ghost s = self.entries();
        match self.find(version) {
            Some(i) => {
                self.versions.set(i, entry);
                let ghost t = self.entries();
                assert(versions_unique(t)) by {
                    assert forall|a: int, b: int|
                        0 <= a < t.len() && 0 <= b < t.len() && a != b implies (#[trigger] t[a]).version
                        != (#[trigger] t[b]).version by {
                        assert(t[a].version == s[a].version && t[b].version == s[b].version);
                    }
                }
                proof {
                    lemma_version_entry(t, i as int);
                    assert forall|v: u32| v != version implies #[trigger] self.info(v) == old(
                        self,
                    ).info(v) by {
                        if has_version(s, v) {
                            let j = choose|j: int| 0 <= j < s.len() && (#[trigger] s[j]).version == v;
                            assert(t[j] == s[j]);
                            lemma_version_entry(s, j);
                            lemma_version_entry(t, j);
                        }
                        if has_version(t, v) {
                            let j = choose|j: int| 0 <= j < t.len() && (#[trigger] t[j]).version == v;
                            assert(t[j] == s[j]);
                        }
                    }
                }
            },
            None => {
                self.versions.push(entry);
                let ghost t = self.entries();
                assert(versions_unique(t)) by {
                    assert forall|a: int, b: int|
                        0 <= a < t.len() && 0 <= b < t.len() && a != b implies (#[trigger] t[a]).version
                        != (#[trigger] t[b]).version by {
                        if a < s.len() {
                            assert(t[a] == s[a]);
                        }
                        if b < s.len() {
                            assert(t[b] == s[b]);
                        }
                    }
                }
                proof {
                    lemma_version_entry(t, s.len() as int);
                    assert forall|v: u32| v != version implies #[trigger] self.info(v) == old(
                        self,
                    ).info(v) by {
                        if has_version(s, v) {
                            let j = choose|j: int| 0 <= j < s.len() && (#[trigger] s[j]).version == v;
                            assert(t[j] == s[j]);
                            lemma_version_entry(s, j);
                            lemma_version_entry(t, j);
                        }
                        if has_version(t, v) {
                            let j = choose|j: int| 0 <= j < t.len() && (#[trigger] t[j]).version == v;
                            assert(j < s.len());
                            assert(t[j] == s[j]);
                        }
                    }
                }
            },
        }
        Ok(())
    }

    pub fn get_version_info(&self, version: u32) -> (r: Option<&ContractVersion>)
        requires
            self.wf(),
        ensures
            r is Some <==> self.info(version) is Some,
            r matches Some(c) ==> self.info(version) == Some(*c),
    {
        match self.find(version) {
            Some(i) => Some(&self.versions[i]),
            None => None,
        }
    }

    /// The highest registered version number.
    pub fn get_latest_version(&self) -> (r: Option<u32>)
        ensures
            r is None <==> self.entries().len() == 0,
            r matches Some(v) ==> has_version(self.entries(), v) && forall|i: int|
                0 <= i < self.entries().len() ==> (#[trigger] self.entries()[i]).version <= v,
    {
        if self.versions.len() == 0 {
            return None;
        }
        let mut latest: u32 = self.versions[0].version;
        let mut i: usize = 1;
        while i < self.versions.len()
            invariant
                1 <= i <= self.versions@.len(),
                has_version(self.versions@, latest),
                forall|j: int| 0 <= j < i ==> (#[trigger] self.versions@[j]).version <= latest,
            decreases self.versions@.len() - i,
        {
            if self.versions[i].version > latest {
                latest = self.versions[i].version;
            }
            i += 1;
        }
        Some(latest)
    }

    /// Whether moving from one registered version to another is safe: refused only
    /// when moving up to a version that is not backward compatible.
    pub fn is_upgrade_safe(&self, from_version: u32, to_version: u32) -> (r: Result<bool, BillingError>)
        requires
            self.wf(),
        ensures
            r == (if self.info(from_version) is None || self.info(to_version) is None {
                Err(BillingError::NotFound(Entity::Version))
            } else {
                Ok(
                    !(!self.info(to_version)->Some_0.backward_compatible && from_version
                        < to_version),
                )
            }),
    {
        if self.find(from_version).is_none() {
            return Err(BillingError::NotFound(Entity::Version));
        }
        let to = match self.find(to_version) {
            Some(i) => &self.versions[i],
            None => return Err(BillingError::NotFound(Entity::Version)),
        };
        if !to.backward_compatible && from_version < to_version {
            return Ok(false);
        }
        Ok(true)
    }

    /// All registered versions, in registration order.
    pub fn list_versions(&self) -> (r: &Vec<ContractVersion>)
        ensures
            r@ == self.entries(),
    {
        &self.versions
    }
}

/// A registered data-migration script between two versions.
#[derive(Clone, Debug)]
pub struct MigrationScript {
    pub from_version: u32,
    pub to_version: u32,
    pub script_hash: [u8; 32],
    pub description: String,
}

pub open spec fn script_matches(m: MigrationScript, from_version: u32, to_version: u32) -> bool {
    m.from_version == from_version && m.to_version == to_version
}

/// Migration scripts and backups, administered by one address.
pub struct DataMigration {
    admin: Address,
    scripts: Vec<MigrationScript>,
    backups: Vec<u64>,
}

impl DataMigration {
    pub closed spec fn admin(&self) -> Address {
        self.admin
    }

    /// Registered scripts, in registration order.
    pub closed spec fn scripts(&self) -> Seq<MigrationScript> {
        self.scripts@
    }

    /// Times at which backups were taken, oldest first.
    pub closed spec fn backups(&self) -> Seq<u64> {
        self.backups@
    }

    pub open spec fn has_script(&self, from_version: u32, to_version: u32) -> bool {
        exists|i: int|
            0 <= i < self.scripts().len() && script_matches(
                #[trigger] self.scripts()[i],
                from_version,
                to_version,
            )
    }

    pub fn initialize(admin: Address) -> (r: DataMigration)
        ensures
            r.admin() == admin,
            r.scripts().len() == 0,
            r.backups().len() == 0,
    {
        DataMigration { admin, scripts: Vec::new(), backups: Vec::new() }
    }

    pub fn get_admin(&self) -> (r: &Address)
        ensures
            *r == self.admin(),
    {
        &self.admin
    }

    pub fn is_admin(&self, caller: &Address) -> (r: bool)
        ensures
            r == (caller@ == self.admin()@),
    {
        caller.same_as(&self.admin)
    }

    pub fn register_migration_script(
        &mut self,
        admin: &Address,
        from_version: u32,
        to_version: u32,
        script_hash: [u8; 32],
        description: String,
    ) -> (r: Result<(), BillingError>)
        ensures
            r == (if admin@ != old(self).admin()@ {
                Err(BillingError::Unauthorized)
            } else {
                Ok(())
            }),
            r is Err ==> *final(self) == *old(self),
            r is Ok ==> final(self).scripts() == old(self).scripts().push(
                MigrationScript { from_version, to_version, script_hash, description },
            ),
            final(self).admin() == old(self).admin(),
            final(self).backups() == old(self).backups(),
    {
        if !self.is_admin(admin) {
            return Err(BillingError::Unauthorized);
        }
        self.scripts.push(MigrationScript { from_version, to_version, script_hash, description });
        Ok(())
    }

    /// The scripts that migrate to `to_version`, in registration order.
    pub fn get_migration_scripts(&self, to_version: u32) -> (r: Vec<MigrationScript>)
        ensures
            r@ == self.scripts().filter(|m: MigrationScript| m.to_version == to_version),
    {
        let ghost pred = |m: MigrationScript| m.to_version == to_version;
        let mut result: Vec<MigrationScript> = Vec::new();
        let mut i: usize = 0;
        while i < self.scripts.len()
            invariant
                i <= self.scripts@.len(),
                pred == (|m: MigrationScript| m.to_version == to_version),
                result@ == self.scripts@.take(i as int).filter(pred),
            decreases self.scripts@.len() - i,
        {
            let m = &self.scripts[i];
            proof {
                assert(self.scripts@.take(i + 1) == self.scripts@.take(i as int).push(
                    self.scripts@[i as int],
                ));
                self.scripts@.take(i as int).lemma_filter_push(self.scripts@[i as int], pred);
            }
            if m.to_version == to_version {
                result.push(
                    MigrationScript {
                        from_version: m.from_version,
                        to_version: m.to_version,
                        script_hash: m.script_hash,
                        description: m.description.clone(),
                    },
                );
            }
            i += 1;
        }
        proof {
            assert(self.scripts@.take(i as int) == self.scripts@);
        }
        result
    }

    fn find_script(&self, from_version: u32, to_version: u32) -> (r: Option<usize>)
        ensures
            r is None <==> !self.has_script(from_version, to_version),
            r matches Some(i) ==> i < self.scripts().len() && script_matches(
                self.scripts()[i as int],
                from_version,
                to_version,
            ),
    {
        let mut i: usize = 0;
        while i < self.scripts.len()
            invariant
                i <= self.scripts@.len(),
                forall|j: int|
                    0 <= j < i ==> !script_matches(#[trigger] self.scripts@[j], from_version, to_version),
            decreases self.scripts@.len() - i,
        {
            if self.scripts[i].from_version == from_version && self.scripts[i].to_version == to_version {
                assert(script_matches(self.scripts()[i as int], from_version, to_version));
                return Some(i);
            }
            i += 1;
        }
        None
    }

    /// Runs the migration for an upgrade path, which needs a registered script;
    /// returns that script's hash.
    pub fn execute_migration(&self, admin: &Address, from_version: u32, to_version: u32) -> (r: Result<
        [u8; 32],
        BillingError,
    >)
        ensures
            admin@ != self.admin()@ ==> r == Err::<[u8; 32], BillingError>(BillingError::Unauthorized),
            admin@ == self.admin()@ && !self.has_script(from_version, to_version) ==> r == Err::<
                [u8; 32],
                BillingError,
            >(BillingError::NotFound(Entity::MigrationScript)),
            r is Ok <==> admin@ == self.admin()@ && self.has_script(from_version, to_version),
            r matches Ok(h) ==> exists|i: int|
                0 <= i < self.scripts().len() && script_matches(
                    #[trigger] self.scripts()[i],
                    from_version,
                    to_version,
                ) && self.scripts()[i].script_hash == h,
    {
        if !self.is_admin(admin) {
            return Err(BillingError::Unauthorized);
        }
        match self.find_script(from_version, to_version) {
            Some(i) => Ok(self.scripts[i].script_hash),
            None => Err(BillingError::NotFound(Entity::MigrationScript)),
        }
    }

    /// Takes a backup at `now`; its id is that time.
    pub fn backup_data(&mut self, admin: &Address, now: u64) -> (r: Result<u64, BillingError>)
        ensures
            r == (if admin@ != old(self).admin()@ {
                Err(BillingError::Unauthorized)
            } else {
                Ok(now)
            }),
            r is Err ==> *final(self) == *old(self),
            r is Ok ==> final(self).backups() == old(
                self,
            ).backups().push(now),
            final(self).admin() == old(self).admin(),
            final(self).scripts() == old(self).scripts(),
    {
        if !self.is_admin(admin) {
            return Err(BillingError::Unauthorized);
        }
        self.backups.push(now);
        Ok(now)
    }

    /// Admits a restore from a backup that was taken.
    pub fn restore_data(&self, admin: &Address, backup_id: u64) -> (r: Result<(), BillingError>)
        ensures
            r == (if admin@ != self.admin()@ {
                Err(BillingError::Unauthorized)
            } else if !self.backups().contains(backup_id) {
                Err(BillingError::NotFound(Entity::Backup))
            } else {
                Ok(())
            }),
    {
        if !self.is_admin(admin) {
            return Err(BillingError::Unauthorized);
        }
        let mut i: usize = 0;
        while i < self.backups.len()
            invariant
                admin@ == self.admin()@,
                i <= self.backups@.len(),
                forall|j: int| 0 <= j < i ==> self.backups@[j] != backup_id,
            decreases self.backups@.len() - i,
        {
            if self.backups[i] == backup_id {
                assert(self.backups()[i as int] == backup_id);
                return Ok(());
            }
            i += 1;
        }
        Err(BillingError::NotFound(Entity::Backup))
    }
}

} // verus!
