//! Everything that is decided before the operator connects to PostgreSQL:
//! which admin connection resource to read, and the client settings that
//! follow from it.

use vstd::prelude::*;
use rustls_pki_types::pem::PemObject;
use crate::reconcile::Error;
use crate::types::{
    ChannelBinding, PostgresAdminConnectionReference, PostgresAdminConnectionSpec, PostgresSslMode,
};

verus! {

/// The TLS modes that the PostgreSQL client offers.
#[derive(Debug, Clone, Copy, PartialEq, Eq)]
pub enum ClientSslMode {
    Disable,
    Prefer,
    Require,
}

/// The channel binding modes that the PostgreSQL client offers.
#[derive(Debug, Clone, Copy, PartialEq, Eq)]
pub enum ClientChannelBinding {
    Disable,
    Prefer,
    Require,
}

/// The client TLS mode used for a resource's `sslmode`: "allow" and
/// "prefer" try TLS, "require" and both verifying modes insist on it.
pub open spec fn client_ssl_mode(mode: PostgresSslMode) -> ClientSslMode {
    match mode {
        PostgresSslMode::Disable => ClientSslMode::Disable,
        PostgresSslMode::Allow | PostgresSslMode::Prefer => ClientSslMode::Prefer,
        PostgresSslMode::Require | PostgresSslMode::VerifyCa | PostgresSslMode::VerifyFull => ClientSslMode::Require,
    }
}

/// The client channel binding mode for a configured one.
pub open spec fn client_channel_binding(binding: ChannelBinding) -> ClientChannelBinding {
    match binding {
        ChannelBinding::Disable => ClientChannelBinding::Disable,
        ChannelBinding::Prefer => ClientChannelBinding::Prefer,
        ChannelBinding::Require => ClientChannelBinding::Require,
    }
}

impl PostgresSslMode {
    /// The client TLS mode that this `sslmode` is connected with.
    pub fn to_client_ssl_mode(self) -> (mode: ClientSslMode)
        ensures
            mode == client_ssl_mode(self),
            self == PostgresSslMode::Disable <==> mode == ClientSslMode::Disable,
            (self == PostgresSslMode::Allow || self == PostgresSslMode::Prefer) <==> mode == ClientSslMode::Prefer,
            (self == PostgresSslMode::Require || self == PostgresSslMode::VerifyCa || self == PostgresSslMode::VerifyFull)
                <==> mode == ClientSslMode::Require,
    {
        match self {
            PostgresSslMode::Disable => ClientSslMode::Disable,
            PostgresSslMode::Allow | PostgresSslMode::Prefer => ClientSslMode::Prefer,
            PostgresSslMode::Require | PostgresSslMode::VerifyCa | PostgresSslMode::VerifyFull => ClientSslMode::Require,
        }
    }
}

impl ChannelBinding {
    /// The client channel binding mode that this setting is connected with.
    pub fn to_postgres_channel_binding(self) -> (binding: ClientChannelBinding)
        ensures
            binding == client_channel_binding(self),
            self == ChannelBinding::Disable <==> binding == ClientChannelBinding::Disable,
            self == ChannelBinding::Prefer <==> binding == ClientChannelBinding::Prefer,
            self == ChannelBinding::Require <==> binding == ClientChannelBinding::Require,
    {
        match self {
            ChannelBinding::Disable => ClientChannelBinding::Disable,
            ChannelBinding::Prefer => ClientChannelBinding::Prefer,
            ChannelBinding::Require => ClientChannelBinding::Require,
        }
    }
}

/// The namespace in which a referenced resource is looked up: the one the
/// reference names, else the namespace of the referring resource.
pub open spec fn referenced_namespace(resource_namespace: Seq<char>, namespace: Option<String>) -> Seq<char> {
    match namespace {
        Some(ns) => ns@,
        None => resource_namespace,
    }
}

/// The namespace of a referenced resource.
pub fn resolve_namespace(resource_namespace: &String, namespace: &Option<String>) -> (resolved: String)
    ensures
        resolved@ == referenced_namespace(resource_namespace@, *namespace),
{
    match namespace {
        Some(ns) => ns.clone(),
        None => resource_namespace.clone(),
    }
}

/// The namespace and name under which a referenced admin connection
/// resource is looked up.
pub fn admin_connection_target(resource_namespace: &String, reference: &PostgresAdminConnectionReference) -> (target: (String, String))
    ensures
        target.0@ == referenced_namespace(resource_namespace@, reference.namespace),
        target.1@ == reference.name@,
{
    (resolve_namespace(resource_namespace, &reference.namespace), reference.name.clone())
}

/// What the PEM parser of `rustls-pki-types` makes of a text: one entry per
/// certificate section, the DER bytes of a section that decoded, nothing for
/// one that did not.
pub uninterp spec fn pem_certificate_sections(pem: Seq<u8>) -> Seq<Option<Seq<u8>>>;

/// Reads every certificate section of a PEM text with
/// `CertificateDer::pem_slice_iter` (rustls-pki-types); the contract claims
/// that the entries are, in order, the ones that the parser yields, an
/// entry being the DER bytes or nothing for a section that failed.  Which
/// sections fail is not stated: it is named by `pem_certificate_sections`.
#[verifier::external_body]
fn pem_certificates(pem: &[u8]) -> (sections: Vec<Option<Vec<u8>>>)
    ensures
        sections.deep_view() == pem_certificate_sections(pem@),
{
    rustls_pki_types::CertificateDer::pem_slice_iter(pem).map(|item| item.ok().map(|cert| cert.to_vec())).collect()
}

/// Every section decoded.
pub open spec fn all_decoded(sections: Seq<Option<Seq<u8>>>) -> bool {
    forall|i: int| 0 <= i < sections.len() ==> (#[trigger] sections[i]) is Some
}

/// The DER bytes of the sections.
pub open spec fn decoded(sections: Seq<Option<Seq<u8>>>) -> Seq<Seq<u8>> {
    sections.map_values(|s: Option<Seq<u8>>| s->0)
}

/// The message of a custom root certificate that does not parse.
pub open spec fn bad_certificate_message() -> Seq<char> {
    "Failed to parse custom root certificate"@
}

/// The certificates of parsed PEM sections, or the error of the first
/// section that did not decode.
pub fn collect_certificates(sections: Vec<Option<Vec<u8>>>) -> (result: Result<Vec<Vec<u8>>, Error>)
    ensures
        match result {
            Ok(certs) => all_decoded(sections.deep_view()) && certs.deep_view() == decoded(sections.deep_view()),
            Err(e) => !all_decoded(sections.deep_view()) && e.message@ == bad_certificate_message(),
        },
{
    let mut certs: Vec<Vec<u8>> = Vec::new();
    let ghost all = sections.deep_view();
    let mut i: usize = 0;
    while i < sections.len()
        invariant
            i <= sections.len(),
            all == sections.deep_view(),
            all.len() == sections.len(),
            forall|j: int| 0 <= j < i ==> (#[trigger] all[j]) is Some,
            certs.deep_view() == decoded(all.take(i as int)),
        decreases sections.len() - i,
    {
        match &sections[i] {
            Some(cert) => {
                certs.push(cert.clone());
                proof {
                    assert(decoded(all.take(i + 1)) =~= decoded(all.take(i as int)).push(all[i as int]->0));
                }
            },
            None => {
                assert(all[i as int] is None);
                return Err(Error::new("Failed to parse custom root certificate"));
            },
        }
        i = i + 1;
    }
    assert(all.take(i as int) =~= all);
    Ok(certs)
}

/// The certificates of a custom root certificate text, or `None` when one of
/// its sections does not decode.
pub open spec fn custom_certificates(pem: Seq<char>) -> Option<Seq<Seq<u8>>> {
    let sections = pem_certificate_sections(vstd::utf8::encode_utf8(pem));
    if all_decoded(sections) {
        Some(decoded(sections))
    } else {
        None
    }
}

/// The certificates of a custom root certificate text in PEM form.
pub fn parse_custom_root_certificates(pem: &String) -> (result: Result<Vec<Vec<u8>>, Error>)
    ensures
        match result {
            Ok(certs) => custom_certificates(pem@) == Some(certs.deep_view()),
            Err(e) => custom_certificates(pem@) is None && e.message@ == bad_certificate_message(),
        },
{
    let sections = pem_certificates(pem.as_str().as_bytes());
    collect_certificates(sections)
}

/// The settings of a PostgreSQL client connection, the password aside.
#[derive(Debug, Clone)]
pub struct ConnectionSettings {
    pub host: String,
    pub port: u16,
    pub user: String,
    pub dbname: String,
    pub ssl_mode: ClientSslMode,
    pub channel_binding: ClientChannelBinding,
    /// Trusted root certificates (DER) beyond the built-in web roots.
    pub root_certificates: Vec<Vec<u8>>,
}

/// Connection settings with their strings and bytes taken by their views.
pub struct ConnectionSettingsView {
    pub host: Seq<char>,
    pub port: u16,
    pub user: Seq<char>,
    pub dbname: Seq<char>,
    pub ssl_mode: ClientSslMode,
    pub channel_binding: ClientChannelBinding,
    pub root_certificates: Seq<Seq<u8>>,
}

impl View for ConnectionSettings {
    type V = ConnectionSettingsView;

    open spec fn view(&self) -> ConnectionSettingsView {
        ConnectionSettingsView {
            host: self.host@,
            port: self.port,
            user: self.user@,
            dbname: self.dbname@,
            ssl_mode: self.ssl_mode,
            channel_binding: self.channel_binding,
            root_certificates: self.root_certificates.deep_view(),
        }
    }
}

/// The message of an admin connection resource that does not exist.
pub open spec fn admin_connection_missing_message() -> Seq<char> {
    "Could not find postgres admin connection kubernetes object"@
}

/// The client settings of an admin connection, given the certificates of its
/// custom root certificate: channel binding is off unless configured.
pub open spec fn settings_of<P>(admin: PostgresAdminConnectionSpec<P>, certs: Seq<Seq<u8>>) -> ConnectionSettingsView {
    ConnectionSettingsView {
        host: admin.host@,
        port: admin.port,
        user: admin.username@,
        dbname: admin.database@,
        ssl_mode: client_ssl_mode(admin.ssl_mode),
        channel_binding: match admin.channel_binding {
            Some(b) => client_channel_binding(b),
            None => ClientChannelBinding::Disable,
        },
        root_certificates: certs,
    }
}

/// What connecting through a looked-up admin connection comes to: an error
/// when it does not exist or its custom root certificate does not parse,
/// else the settings and the password to connect with.
pub open spec fn prepared_connection<P>(admin: Option<PostgresAdminConnectionSpec<P>>) -> Result<(ConnectionSettingsView, P), Seq<char>> {
    match admin {
        None => Err(admin_connection_missing_message()),
        Some(a) => match a.custom_root_certificate {
            None => Ok((settings_of(a, Seq::empty()), a.password)),
            Some(pem) => match custom_certificates(pem@) {
                None => Err(bad_certificate_message()),
                Some(certs) => Ok((settings_of(a, certs), a.password)),
            },
        },
    }
}

/// The settings and password of a connection through a looked-up admin
/// connection resource.
pub fn prepare_connection<P>(admin: Option<PostgresAdminConnectionSpec<P>>) -> (result: Result<(ConnectionSettings, P), Error>)
    ensures
        match result {
            Ok((settings, password)) => prepared_connection(admin) == Ok::<(ConnectionSettingsView, P), Seq<char>>((settings@, password)),
            Err(e) => prepared_connection(admin) == Err::<(ConnectionSettingsView, P), Seq<char>>(e.message@),
        },
        admin is None ==> (match result {
            Err(e) => e.message@ == "Could not find postgres admin connection kubernetes object"@,
            Ok(_) => false,
        }),
        (match result {
            Ok((settings, password)) => match admin {
                Some(a) => {
                    &&& settings.host@ == a.host@
                    &&& settings.port == a.port
                    &&& settings.user@ == a.username@
                    &&& settings.dbname@ == a.database@
                    &&& password == a.password
                    &&& a.ssl_mode == PostgresSslMode::Disable ==> settings.ssl_mode == ClientSslMode::Disable
                    &&& a.ssl_mode == PostgresSslMode::Allow ==> settings.ssl_mode == ClientSslMode::Prefer
                    &&& a.ssl_mode == PostgresSslMode::Prefer ==> settings.ssl_mode == ClientSslMode::Prefer
                    &&& a.ssl_mode == PostgresSslMode::Require ==> settings.ssl_mode == ClientSslMode::Require
                    &&& a.ssl_mode == PostgresSslMode::VerifyCa ==> settings.ssl_mode == ClientSslMode::Require
                    &&& a.ssl_mode == PostgresSslMode::VerifyFull ==> settings.ssl_mode == ClientSslMode::Require
                    &&& a.channel_binding == Option::<ChannelBinding>::None ==> settings.channel_binding == ClientChannelBinding::Disable
                    &&& a.channel_binding == Some(ChannelBinding::Disable) ==> settings.channel_binding == ClientChannelBinding::Disable
                    &&& a.channel_binding == Some(ChannelBinding::Prefer) ==> settings.channel_binding == ClientChannelBinding::Prefer
                    &&& a.channel_binding == Some(ChannelBinding::Require) ==> settings.channel_binding == ClientChannelBinding::Require
                    &&& a.custom_root_certificate is None ==> settings.root_certificates@.len() == 0
                },
                None => false,
            },
            Err(e) => e.message@ == "Could not find postgres admin connection kubernetes object"@
                || e.message@ == "Failed to parse custom root certificate"@,
        }),
{
    let admin = match admin {
        None => {
            return Err(Error::new("Could not find postgres admin connection kubernetes object"));
        },
        Some(a) => a,
    };
    let root_certificates = match &admin.custom_root_certificate {
        None => Vec::new(),
        Some(pem) => match parse_custom_root_certificates(pem) {
            Ok(certs) => certs,
            Err(e) => {
                return Err(e);
            },
        },
    };
    let ghost certs = root_certificates.deep_view();
    let channel_binding = match admin.channel_binding {
        Some(b) => b.to_postgres_channel_binding(),
        None => ClientChannelBinding::Disable,
    };
    let settings = ConnectionSettings {
        host: admin.host,
        port: admin.port,
        user: admin.username,
        dbname: admin.database,
        ssl_mode: admin.ssl_mode.to_client_ssl_mode(),
        channel_binding,
        root_certificates,
    };
    proof {
        if admin.custom_root_certificate is None {
            assert(certs =~= Seq::<Seq<u8>>::empty());
        }
    }
    Ok((settings, admin.password))
}

} // verus!
