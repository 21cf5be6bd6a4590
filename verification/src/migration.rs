//! The migrations of the database, by name.

use crate::text::str_equal;
use vstd::prelude::*;
use vstd::string::*;

verus! {

/// A migration of the database.
pub trait DatabaseMigration {
    /// The name by which the migration is asked for.
    spec fn spec_id(&self) -> Seq<char>;

    /// The name by which the migration is asked for.
    fn get_id(&self) -> (r: String)
        ensures
            r@ == self.spec_id(),
    ;
}

/// Gathers the addresses of all players into identities.
#[derive(Clone, Copy, Debug, PartialEq, Eq, Structural)]
pub struct DenormalizeIpIdentitiesMigration {}

/// Empties the statistics of all players.
#[derive(Clone, Copy, Debug, PartialEq, Eq, Structural)]
pub struct ResetStatsMigration {}

impl DatabaseMigration for DenormalizeIpIdentitiesMigration {
    open spec fn spec_id(&self) -> Seq<char> {
        "denormalize_ip_identities"@
    }

    fn get_id(&self) -> (r: String) {
        String::from_str("denormalize_ip_identities")
    }
}

impl DatabaseMigration for ResetStatsMigration {
    open spec fn spec_id(&self) -> Seq<char> {
        "reset_stats"@
    }

    fn get_id(&self) -> (r: String) {
        String::from_str("reset_stats")
    }
}

impl DenormalizeIpIdentitiesMigration {
    /// How many players' addresses are gathered before they are written out.
    pub fn step_size() -> (r: u32)
        ensures
            r == 25_000,
    {
        25_000
    }

    /// Whether the addresses gathered so far have to be written out before
    /// the next player is taken in.
    pub fn should_flush(accumulated: u32) -> (r: bool)
        ensures
            r == (accumulated >= 25_000),
    {
        accumulated >= Self::step_size()
    }
}

/// One of the migrations that the executor knows.
#[derive(Clone, Copy, Debug, PartialEq, Eq, Structural)]
pub enum Migration {
    DenormalizeIpIdentities(DenormalizeIpIdentitiesMigration),
    ResetStats(ResetStatsMigration),
}

impl DatabaseMigration for Migration {
    open spec fn spec_id(&self) -> Seq<char> {
        match self {
            Migration::DenormalizeIpIdentities(m) => m.spec_id(),
            Migration::ResetStats(m) => m.spec_id(),
        }
    }

    fn get_id(&self) -> (r: String) {
        match self {
            Migration::DenormalizeIpIdentities(m) => m.get_id(),
            Migration::ResetStats(m) => m.get_id(),
        }
    }
}

/// Finds migrations by name.
#[derive(Debug)]
pub struct MigrationExecutor {
    /// The migrations known.
    pub migrations: Vec<Migration>,
}

impl MigrationExecutor {
    /// An executor that knows the two migrations.
    pub fn new() -> (r: MigrationExecutor)
        ensures
            r.migrations@ == seq![
                Migration::DenormalizeIpIdentities(DenormalizeIpIdentitiesMigration {  }),
                Migration::ResetStats(ResetStatsMigration {  }),
            ],
    {
        let mut migrations: Vec<Migration> = Vec::new();
        migrations.push(Migration::DenormalizeIpIdentities(DenormalizeIpIdentitiesMigration {  }));
        migrations.push(Migration::ResetStats(ResetStatsMigration {  }));
        assert(migrations@ =~= seq![
            Migration::DenormalizeIpIdentities(DenormalizeIpIdentitiesMigration {  }),
            Migration::ResetStats(ResetStatsMigration {  }),
        ]);
        MigrationExecutor { migrations }
    }

    /// The first migration known under the name `name`, if there is one.
    pub fn find_migration_by_name(&self, name: &String) -> (r: Option<Migration>)
        ensures
            r matches Some(migration) ==> migration.spec_id() == name@ && exists|i: int|
                0 <= i < self.migrations.len() && self.migrations[i] == migration && forall|
                    j: int,
                |
                    0 <= j < i ==> (#[trigger] self.migrations[j]).spec_id() != name@,
            r is None ==> forall|i: int|
                0 <= i < self.migrations.len() ==> (#[trigger] self.migrations[i]).spec_id()
                    != name@,
    {
        let mut i: usize = 0;
        while i < self.migrations.len()
            invariant
                i <= self.migrations.len(),
                forall|j: int| 0 <= j < i ==> (#[trigger] self.migrations[j]).spec_id() != name@,
            decreases self.migrations.len() - i,
        {
            let id: String = self.migrations[i].get_id();
            if str_equal(id.as_str(), name.as_str()) {
                return Some(self.migrations[i]);
            }
            i += 1;
        }
        None
    }
}

} // verus!
