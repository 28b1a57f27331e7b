use postgres_topology_operator::connection::{
    admin_connection_target, collect_certificates, parse_custom_root_certificates, prepare_connection,
    resolve_namespace, ClientChannelBinding, ClientSslMode,
};
use postgres_topology_operator::types::{
    ChannelBinding, PostgresAdminConnectionReference, PostgresAdminConnectionSpec, PostgresSslMode,
};

fn admin(cert: Option<&str>, binding: Option<ChannelBinding>) -> PostgresAdminConnectionSpec<String> {
    PostgresAdminConnectionSpec {
        host: "db.example".to_string(),
        port: 26257,
        username: "root".to_string(),
        password: "secret".to_string(),
        database: "defaultdb".to_string(),
        ssl_mode: PostgresSslMode::VerifyCa,
        channel_binding: binding,
        custom_root_certificate: cert.map(|c| c.to_string()),
    }
}

#[test]
fn ssl_modes_display_in_kebab_case() {
    assert_eq!(PostgresSslMode::Disable.to_string(), "disable");
    assert_eq!(PostgresSslMode::Allow.to_string(), "allow");
    assert_eq!(PostgresSslMode::Prefer.to_string(), "prefer");
    assert_eq!(PostgresSslMode::Require.to_string(), "require");
    assert_eq!(PostgresSslMode::VerifyCa.to_string(), "verify-ca");
    assert_eq!(PostgresSslMode::VerifyFull.to_string(), "verify-full");
}

#[test]
fn ssl_mode_defaults_to_disable() {
    assert_eq!(PostgresSslMode::default(), PostgresSslMode::Disable);
}

#[test]
fn ssl_modes_map_to_client_modes() {
    assert_eq!(PostgresSslMode::Disable.to_client_ssl_mode(), ClientSslMode::Disable);
    assert_eq!(PostgresSslMode::Allow.to_client_ssl_mode(), ClientSslMode::Prefer);
    assert_eq!(PostgresSslMode::Prefer.to_client_ssl_mode(), ClientSslMode::Prefer);
    assert_eq!(PostgresSslMode::Require.to_client_ssl_mode(), ClientSslMode::Require);
    assert_eq!(PostgresSslMode::VerifyCa.to_client_ssl_mode(), ClientSslMode::Require);
    assert_eq!(PostgresSslMode::VerifyFull.to_client_ssl_mode(), ClientSslMode::Require);
}

#[test]
fn channel_binding_maps_to_client_binding() {
    assert_eq!(ChannelBinding::Disable.to_postgres_channel_binding(), ClientChannelBinding::Disable);
    assert_eq!(ChannelBinding::Prefer.to_postgres_channel_binding(), ClientChannelBinding::Prefer);
    assert_eq!(ChannelBinding::Require.to_postgres_channel_binding(), ClientChannelBinding::Require);
}

#[test]
fn admin_connection_defaults_to_resource_namespace() {
    let reference = PostgresAdminConnectionReference { name: "admin".to_string(), namespace: None };
    let (ns, name) = admin_connection_target(&"team-a".to_string(), &reference);
    assert_eq!(ns, "team-a");
    assert_eq!(name, "admin");
}

#[test]
fn admin_connection_namespace_can_be_named() {
    let reference = PostgresAdminConnectionReference { name: "admin".to_string(), namespace: Some("shared".to_string()) };
    let (ns, name) = admin_connection_target(&"team-a".to_string(), &reference);
    assert_eq!(ns, "shared");
    assert_eq!(name, "admin");
    assert_eq!(resolve_namespace(&"x".to_string(), &None), "x");
}

#[test]
fn pem_certificates_are_decoded() {
    let pem = "-----BEGIN CERTIFICATE-----\nAQID\n-----END CERTIFICATE-----\nsome text\n-----BEGIN CERTIFICATE-----\nBAUG\n-----END CERTIFICATE-----\n";
    let certs = parse_custom_root_certificates(&pem.to_string()).unwrap();
    assert_eq!(certs, vec![vec![1u8, 2, 3], vec![4u8, 5, 6]]);
}

#[test]
fn pem_without_certificates_gives_none() {
    let certs = parse_custom_root_certificates(&"no pem here".to_string()).unwrap();
    assert!(certs.is_empty());
}

#[test]
fn broken_pem_certificate_is_an_error() {
    let pem = "-----BEGIN CERTIFICATE-----\nAQID\n";
    let err = parse_custom_root_certificates(&pem.to_string()).unwrap_err();
    assert_eq!(err.message, "Failed to parse custom root certificate");
    let pem = "-----BEGIN CERTIFICATE-----\n!!!!\n-----END CERTIFICATE-----\n";
    assert!(parse_custom_root_certificates(&pem.to_string()).is_err());
}

#[test]
fn certificates_are_collected_until_a_failure() {
    let ok = collect_certificates(vec![Some(vec![1u8]), Some(vec![2u8])]).unwrap();
    assert_eq!(ok, vec![vec![1u8], vec![2u8]]);
    let err = collect_certificates(vec![Some(vec![1u8]), None, Some(vec![2u8])]).unwrap_err();
    assert_eq!(err.message, "Failed to parse custom root certificate");
}

#[test]
fn missing_admin_connection_is_an_error() {
    let err = prepare_connection::<String>(None).unwrap_err();
    assert_eq!(err.message, "Could not find postgres admin connection kubernetes object");
}

#[test]
fn admin_connection_gives_client_settings() {
    let (settings, password) = prepare_connection(Some(admin(None, None))).unwrap();
    assert_eq!(settings.host, "db.example");
    assert_eq!(settings.port, 26257);
    assert_eq!(settings.user, "root");
    assert_eq!(settings.dbname, "defaultdb");
    assert_eq!(settings.ssl_mode, ClientSslMode::Require);
    assert_eq!(settings.channel_binding, ClientChannelBinding::Disable);
    assert!(settings.root_certificates.is_empty());
    assert_eq!(password, "secret");

    let pem = "-----BEGIN CERTIFICATE-----\nAQID\n-----END CERTIFICATE-----\n";
    let (settings, _) = prepare_connection(Some(admin(Some(pem), Some(ChannelBinding::Prefer)))).unwrap();
    assert_eq!(settings.channel_binding, ClientChannelBinding::Prefer);
    assert_eq!(settings.root_certificates, vec![vec![1u8, 2, 3]]);
}

#[test]
fn admin_connection_with_broken_certificate_is_an_error() {
    let err = prepare_connection(Some(admin(Some("-----BEGIN CERTIFICATE-----\n"), None))).unwrap_err();
    assert_eq!(err.message, "Failed to parse custom root certificate");
}
