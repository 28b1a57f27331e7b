//! The schema resource.

use vstd::prelude::*;
use super::{HasPostgresAdminConnection, PostgresAdminConnectionReference, PostgresRoleReference, ResourceMeta};

verus! {

/// A PostgreSQL schema to be kept in existence, optionally with an owner.
#[derive(Debug, Clone)]
pub struct PostgresSchemaSpec {
    pub schema: String,
    pub schema_owner: Option<PostgresSchemaOwner>,
    pub connection: PostgresAdminConnectionReference,
}

/// The owner of a schema: a role managed by a role resource, or a role given
/// by its name.
#[derive(Debug, Clone)]
pub enum PostgresSchemaOwner {
    ManagedRole(PostgresRoleReference),
    Name(String),
}

/// A schema resource as the reconciler sees it.
#[derive(Debug, Clone)]
pub struct PostgresSchema {
    pub metadata: ResourceMeta,
    pub spec: PostgresSchemaSpec,
}

impl HasPostgresAdminConnection for PostgresSchema {
    fn get_connection(&self) -> (connection: &PostgresAdminConnectionReference)
        ensures
            *connection == self.spec.connection,
    {
        &self.spec.connection
    }
}

} // verus!
