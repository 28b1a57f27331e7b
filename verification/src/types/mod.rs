//! The custom resources handled by the operator, as plain values.

pub mod postgres_admin_connection;
pub mod postgres_database;
pub mod postgres_role;
pub mod postgres_schema;
pub mod resource;

pub use postgres_admin_connection::{
    ChannelBinding, HasPostgresAdminConnection, PostgresAdminConnectionReference,
    PostgresAdminConnectionSpec,
};
pub use postgres_database::{
    PostgresDatabase, PostgresDatabaseOwner, PostgresDatabaseSpec, PostgresDatabaseStatus,
};
pub use postgres_role::{
    PostgresRole, PostgresRoleReference, PostgresRoleSpec, PostgresRoleStatus,
    StatusEncodedPassword,
};
pub use postgres_schema::{PostgresSchema, PostgresSchemaOwner, PostgresSchemaSpec};
pub use resource::ResourceMeta;

use vstd::prelude::*;

verus! {

/// The `sslmode` setting of a PostgreSQL admin connection.
#[derive(Debug, Clone, Copy, PartialEq, Eq)]
pub enum PostgresSslMode {
    Disable,
    Allow,
    Prefer,
    Require,
    VerifyCa,
    VerifyFull,
}

/// The kebab-case name under which a mode is written in a resource.
pub open spec fn ssl_mode_name(mode: PostgresSslMode) -> Seq<char> {
    match mode {
        PostgresSslMode::Disable => "disable"@,
        PostgresSslMode::Allow => "allow"@,
        PostgresSslMode::Prefer => "prefer"@,
        PostgresSslMode::Require => "require"@,
        PostgresSslMode::VerifyCa => "verify-ca"@,
        PostgresSslMode::VerifyFull => "verify-full"@,
    }
}

impl Default for PostgresSslMode {
    fn default() -> (mode: Self)
        ensures
            mode == PostgresSslMode::Disable,
    {
        PostgresSslMode::Disable
    }
}

impl PostgresSslMode {
    /// The text form of the mode, as it is displayed.
    pub fn to_string(&self) -> (text: String)
        ensures
            text@ == ssl_mode_name(*self),
    {
        match self {
            PostgresSslMode::Disable => String::from_str("disable"),
            PostgresSslMode::Allow => String::from_str("allow"),
            PostgresSslMode::Prefer => String::from_str("prefer"),
            PostgresSslMode::Require => String::from_str("require"),
            PostgresSslMode::VerifyCa => String::from_str("verify-ca"),
            PostgresSslMode::VerifyFull => String::from_str("verify-full"),
        }
    }
}

} // verus!
