//! The admin connection resource: where and how the operator logs in to a
//! PostgreSQL server.

use vstd::prelude::*;
use super::PostgresSslMode;

verus! {

/// Connection parameters of an admin login.  `P` is the type of the stored
/// password.
#[derive(Debug, Clone)]
pub struct PostgresAdminConnectionSpec<P> {
    pub host: String,
    pub port: u16,
    pub username: String,
    pub password: P,
    pub database: String,
    pub ssl_mode: PostgresSslMode,
    pub channel_binding: Option<ChannelBinding>,
    pub custom_root_certificate: Option<String>,
}

/// Channel binding configuration.
#[derive(Debug, Clone, Copy, PartialEq, Eq)]
pub enum ChannelBinding {
    /// Do not use channel binding.
    Disable,
    /// Attempt to use channel binding but allow sessions without.
    Prefer,
    /// Require the use of channel binding.
    Require,
}

/// A reference from a resource to the admin connection it is managed through.
#[derive(Debug, Clone)]
pub struct PostgresAdminConnectionReference {
    pub name: String,
    pub namespace: Option<String>,
}

/// A resource that names the admin connection through which it is managed.
pub trait HasPostgresAdminConnection {
    fn get_connection(&self) -> &PostgresAdminConnectionReference;
}

} // verus!
