//! The database resource.

use vstd::prelude::*;
use super::{HasPostgresAdminConnection, PostgresAdminConnectionReference, PostgresRoleReference, ResourceMeta};

verus! {

/// A PostgreSQL database to be kept in existence, optionally with an owner.
#[derive(Debug, Clone)]
pub struct PostgresDatabaseSpec {
    pub name: String,
    pub database_owner: Option<PostgresDatabaseOwner>,
    pub connection: PostgresAdminConnectionReference,
}

#[derive(Debug, Clone)]
pub struct PostgresDatabaseStatus {}

/// The owner of a database: a role managed by a role resource, or a role
/// given by its name.
#[derive(Debug, Clone)]
pub enum PostgresDatabaseOwner {
    ManagedRole(PostgresRoleReference),
    Name(String),
}

/// A database resource as the reconciler sees it.
#[derive(Debug, Clone)]
pub struct PostgresDatabase {
    pub metadata: ResourceMeta,
    pub spec: PostgresDatabaseSpec,
    pub status: Option<PostgresDatabaseStatus>,
}

impl HasPostgresAdminConnection for PostgresDatabase {
    fn get_connection(&self) -> (connection: &PostgresAdminConnectionReference)
        ensures
            *connection == self.spec.connection,
    {
        &self.spec.connection
    }
}

} // verus!
