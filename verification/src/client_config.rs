//! The PostgreSQL client configuration (`tokio_postgres::Config`) that a
//! connection is opened with, built from the decided connection settings.

use vstd::prelude::*;
use crate::connection::{ClientChannelBinding, ClientSslMode, ConnectionSettings};

verus! {

#[verifier::external_type_specification]
#[verifier::external_body]
pub struct ExPostgresClientConfig(tokio_postgres::Config);

/// The user a configuration authenticates as (`Config::get_user`).
pub uninterp spec fn config_user(config: tokio_postgres::Config) -> Option<Seq<char>>;

/// The password a configuration authenticates with (`Config::get_password`).
pub uninterp spec fn config_password(config: tokio_postgres::Config) -> Option<Seq<u8>>;

/// The database a configuration connects to (`Config::get_dbname`).
pub uninterp spec fn config_dbname(config: tokio_postgres::Config) -> Option<Seq<char>>;

/// The hosts of a configuration, in order, by the text they were added with
/// (`Config::get_hosts`).
pub uninterp spec fn config_hosts(config: tokio_postgres::Config) -> Seq<Seq<char>>;

/// The ports of a configuration, in order (`Config::get_ports`).
pub uninterp spec fn config_ports(config: tokio_postgres::Config) -> Seq<u16>;

/// The TLS mode of a configuration (`Config::get_ssl_mode`).
pub uninterp spec fn config_ssl_mode(config: tokio_postgres::Config) -> ClientSslMode;

/// The channel binding mode of a configuration
/// (`Config::get_channel_binding`).
pub uninterp spec fn config_channel_binding(config: tokio_postgres::Config) -> ClientChannelBinding;

/// `Config::new`: the contract claims that a new configuration has no user,
/// password, database, host or port, prefers TLS and prefers channel
/// binding.
#[verifier::external_body]
fn new_config() -> (config: tokio_postgres::Config)
    ensures
        config_user(config) is None,
        config_password(config) is None,
        config_dbname(config) is None,
        config_hosts(config) == Seq::<Seq<char>>::empty(),
        config_ports(config) == Seq::<u16>::empty(),
        config_ssl_mode(config) == ClientSslMode::Prefer,
        config_channel_binding(config) == ClientChannelBinding::Prefer,
{
    tokio_postgres::Config::new()
}

/// `Config::user`: the contract claims that the user is set and nothing else
/// changes.
#[verifier::external_body]
fn set_user(config: &mut tokio_postgres::Config, user: &str)
    ensures
        config_user(*final(config)) == Some(user@),
        config_password(*final(config)) == config_password(*old(config)),
        config_dbname(*final(config)) == config_dbname(*old(config)),
        config_hosts(*final(config)) == config_hosts(*old(config)),
        config_ports(*final(config)) == config_ports(*old(config)),
        config_ssl_mode(*final(config)) == config_ssl_mode(*old(config)),
        config_channel_binding(*final(config)) == config_channel_binding(*old(config)),
{
    config.user(user);
}

/// `Config::password`: the contract claims that the password bytes are set
/// and nothing else changes.
#[verifier::external_body]
fn set_password(config: &mut tokio_postgres::Config, password: &[u8])
    ensures
        config_password(*final(config)) == Some(password@),
        config_user(*final(config)) == config_user(*old(config)),
        config_dbname(*final(config)) == config_dbname(*old(config)),
        config_hosts(*final(config)) == config_hosts(*old(config)),
        config_ports(*final(config)) == config_ports(*old(config)),
        config_ssl_mode(*final(config)) == config_ssl_mode(*old(config)),
        config_channel_binding(*final(config)) == config_channel_binding(*old(config)),
{
    config.password(password);
}

/// `Config::dbname`: the contract claims that the database is set and
/// nothing else changes.
#[verifier::external_body]
fn set_dbname(config: &mut tokio_postgres::Config, dbname: &str)
    ensures
        config_dbname(*final(config)) == Some(dbname@),
        config_user(*final(config)) == config_user(*old(config)),
        config_password(*final(config)) == config_password(*old(config)),
        config_hosts(*final(config)) == config_hosts(*old(config)),
        config_ports(*final(config)) == config_ports(*old(config)),
        config_ssl_mode(*final(config)) == config_ssl_mode(*old(config)),
        config_channel_binding(*final(config)) == config_channel_binding(*old(config)),
{
    config.dbname(dbname);
}

/// `Config::host`: the contract claims that the host is added after the
/// others (as a TCP host, or on Unix as a socket directory when it starts
/// with `/`; which of the two is not stated) and nothing else changes.
#[verifier::external_body]
fn add_host(config: &mut tokio_postgres::Config, host: &str)
    ensures
        config_hosts(*final(config)) == config_hosts(*old(config)).push(host@),
        config_user(*final(config)) == config_user(*old(config)),
        config_password(*final(config)) == config_password(*old(config)),
        config_dbname(*final(config)) == config_dbname(*old(config)),
        config_ports(*final(config)) == config_ports(*old(config)),
        config_ssl_mode(*final(config)) == config_ssl_mode(*old(config)),
        config_channel_binding(*final(config)) == config_channel_binding(*old(config)),
{
    config.host(host);
}

/// `Config::port`: the contract claims that the port is added after the
/// others and nothing else changes.
#[verifier::external_body]
fn add_port(config: &mut tokio_postgres::Config, port: u16)
    ensures
        config_ports(*final(config)) == config_ports(*old(config)).push(port),
        config_user(*final(config)) == config_user(*old(config)),
        config_password(*final(config)) == config_password(*old(config)),
        config_dbname(*final(config)) == config_dbname(*old(config)),
        config_hosts(*final(config)) == config_hosts(*old(config)),
        config_ssl_mode(*final(config)) == config_ssl_mode(*old(config)),
        config_channel_binding(*final(config)) == config_channel_binding(*old(config)),
{
    config.port(port);
}

/// `Config::ssl_mode`: the contract claims that the TLS mode is set (each
/// mode to the client mode of the same name) and nothing else changes.
#[verifier::external_body]
fn set_ssl_mode(config: &mut tokio_postgres::Config, mode: ClientSslMode)
    ensures
        config_ssl_mode(*final(config)) == mode,
        config_user(*final(config)) == config_user(*old(config)),
        config_password(*final(config)) == config_password(*old(config)),
        config_dbname(*final(config)) == config_dbname(*old(config)),
        config_hosts(*final(config)) == config_hosts(*old(config)),
        config_ports(*final(config)) == config_ports(*old(config)),
        config_channel_binding(*final(config)) == config_channel_binding(*old(config)),
{
    config.ssl_mode(match mode {
        ClientSslMode::Disable => tokio_postgres::config::SslMode::Disable,
        ClientSslMode::Prefer => tokio_postgres::config::SslMode::Prefer,
        ClientSslMode::Require => tokio_postgres::config::SslMode::Require,
    });
}

/// `Config::channel_binding`: the contract claims that the channel binding
/// mode is set (each mode to the client mode of the same name) and nothing
/// else changes.
#[verifier::external_body]
fn set_channel_binding(config: &mut tokio_postgres::Config, binding: ClientChannelBinding)
    ensures
        config_channel_binding(*final(config)) == binding,
        config_user(*final(config)) == config_user(*old(config)),
        config_password(*final(config)) == config_password(*old(config)),
        config_dbname(*final(config)) == config_dbname(*old(config)),
        config_hosts(*final(config)) == config_hosts(*old(config)),
        config_ports(*final(config)) == config_ports(*old(config)),
        config_ssl_mode(*final(config)) == config_ssl_mode(*old(config)),
{
    config.channel_binding(match binding {
        ClientChannelBinding::Disable => tokio_postgres::config::ChannelBinding::Disable,
        ClientChannelBinding::Prefer => tokio_postgres::config::ChannelBinding::Prefer,
        ClientChannelBinding::Require => tokio_postgres::config::ChannelBinding::Require,
    });
}

/// The client configuration of a connection: one host and one port, the
/// admin user with the given password, the admin database, and the decided
/// TLS and channel binding modes.
pub fn client_config(settings: &ConnectionSettings, password: &[u8]) -> (config: tokio_postgres::Config)
    ensures
        config_hosts(config) == seq![settings.host@],
        config_ports(config) == seq![settings.port],
        config_user(config) == Some(settings.user@),
        config_password(config) == Some(password@),
        config_dbname(config) == Some(settings.dbname@),
        config_ssl_mode(config) == settings.ssl_mode,
        config_channel_binding(config) == settings.channel_binding,
{
    let mut config = new_config();
    add_host(&mut config, settings.host.as_str());
    add_port(&mut config, settings.port);
    set_user(&mut config, settings.user.as_str());
    set_channel_binding(&mut config, settings.channel_binding);
    set_dbname(&mut config, settings.dbname.as_str());
    set_ssl_mode(&mut config, settings.ssl_mode);
    set_password(&mut config, password);
    config
}

} // verus!
