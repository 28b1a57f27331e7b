//! The role resource: a login role, its password, and the grants it receives.

use vstd::prelude::*;
use vstd::std_specs::cmp::PartialEqSpec;
use super::{HasPostgresAdminConnection, PostgresAdminConnectionReference, ResourceMeta};

verus! {

/// A PostgreSQL login role.  `P` is the type of the stored password and `B`
/// the type of the reference to a PgBouncer in which the role is registered.
#[derive(Debug, Clone)]
pub struct PostgresRoleSpec<P, B> {
    pub role: String,
    pub password: P,
    pub register_in_pg_bouncer: Option<B>,
    pub grant_role_to_admin_user: Option<bool>,
    pub connection: PostgresAdminConnectionReference,
    /// Any extra roles to grant this role, e.g. "admin"
    pub extra_roles: Option<Vec<String>>,
}

/// What the operator remembers of a role between reconciles.
#[derive(Debug, Clone)]
pub struct PostgresRoleStatus<P> {
    pub encoded_password: Option<StatusEncodedPassword<P>>,
}

/// A password together with the text it was encoded to.
#[derive(Debug, Clone)]
pub struct StatusEncodedPassword<P> {
    pub original: P,
    pub encoded: String,
}

/// A reference from one resource to a role resource.
#[derive(Debug, Clone)]
pub struct PostgresRoleReference {
    pub name: String,
    pub namespace: Option<String>,
}

/// A role resource, in the form the reconciler reads it.
#[derive(Debug, Clone)]
pub struct PostgresRole<P, B> {
    pub metadata: ResourceMeta,
    pub spec: PostgresRoleSpec<P, B>,
    pub status: Option<PostgresRoleStatus<P>>,
}

impl<P, B> HasPostgresAdminConnection for PostgresRole<P, B> {
    fn get_connection(&self) -> (connection: &PostgresAdminConnectionReference)
        ensures
            *connection == self.spec.connection,
    {
        &self.spec.connection
    }
}

/// The status that records `encoded` as the encoding of `password`.
pub open spec fn recorded_status<P>(password: P, encoded: String) -> PostgresRoleStatus<P> {
    PostgresRoleStatus { encoded_password: Some(StatusEncodedPassword { original: password, encoded }) }
}

/// The equality of passwords of type `P` is the one their `eq_spec` states.
pub open spec fn password_equality_known<P: PartialEq>() -> bool {
    P::obeys_eq_spec()
}

/// The encoded text stored in a status, when it was encoded from a password
/// equal to `password`.
pub open spec fn stored_encoding<P: PartialEq>(status: Option<PostgresRoleStatus<P>>, password: P) -> Option<String> {
    match status {
        Some(s) => match s.encoded_password {
            Some(e) => if e.original.eq_spec(&password) {
                Some(e.encoded)
            } else {
                None
            },
            None => None,
        },
        None => None,
    }
}

/// The encoded password text that a reconcile may reuse: the one stored in the
/// status, if it was encoded from the password the role has now.
pub fn reusable_password_text<P: PartialEq>(status: &Option<PostgresRoleStatus<P>>, password: &P) -> (text: Option<String>)
    ensures
        password_equality_known::<P>() ==> text == stored_encoding(*status, *password),
{
    match status {
        Some(s) => match &s.encoded_password {
            Some(e) => if e.original == *password {
                Some(e.encoded.clone())
            } else {
                None
            },
            None => None,
        },
        None => None,
    }
}

/// The status with its encoded password replaced by `original` and
/// `encoded`; a missing status is created.
pub fn with_encoded_password<P>(status: Option<PostgresRoleStatus<P>>, original: P, encoded: String) -> (result: PostgresRoleStatus<P>)
    ensures
        result == recorded_status(original, encoded),
{
    let recorded = StatusEncodedPassword { original, encoded };
    match status {
        Some(mut s) => {
            s.encoded_password = Some(recorded);
            s
        },
        None => PostgresRoleStatus { encoded_password: Some(recorded) },
    }
}

/// Recording an encoding in a status makes it the stored encoding of that
/// password (for a password equal to itself).
pub proof fn law_recorded_encoding_is_reused<P: PartialEq>(password: P, encoded: String)
    requires
        password.eq_spec(&password),
    ensures
        stored_encoding(Some(recorded_status(password, encoded)), password) == Some(encoded),
{
}

} // verus!
