//! Properties of the reconcilers that hold across their steps.

use vstd::prelude::*;
use crate::owned_object::{object_transition, ObjectPhase, ObjectReconcile, ObjectRequest};
use crate::reconcile::{Action, CommandView, Event};
use crate::role::{extra_roles_of, role_transition, RolePhase, RoleReconcile, RoleReconcileView};
use crate::sql::{drop_object_sql, drop_owned_sql, drop_role_sql, revoke_database_sql};
use crate::types::postgres_role::{recorded_status, stored_encoding};
use crate::types::{PostgresAdminConnectionSpec, PostgresRole, PostgresSslMode};
use crate::connection::ClientSslMode;
use crate::sql::ObjectKind;

verus! {

/// A phase of the deletion of a database or schema.
pub open spec fn object_drop_phase(phase: ObjectPhase) -> bool {
    phase == ObjectPhase::DropAwaitAdmin || phase == ObjectPhase::DropAwaitConnected
        || phase == ObjectPhase::DropAwaitStatement || phase == ObjectPhase::DropAwaitFinalizer
}

/// While a database or schema is being deleted, the reconcile stays in the
/// deletion (or ends), and the only statement it executes is the one that
/// drops the object.
pub proof fn law_object_deletion_only_drops<P>(s: ObjectReconcile, e: Event<P, ObjectRequest>)
    requires
        s.wf(),
        s.accepts(e),
        object_drop_phase(s.phase),
    ensures
        object_drop_phase(object_transition(s, e).0.phase) || object_transition(s, e).0.phase == ObjectPhase::Done,
        (match object_transition(s, e).1 {
            CommandView::Execute { sql } => sql == drop_object_sql(s.request.kind, s.request.object_name@),
            _ => true,
        }),
        object_transition(s, e).1 is EnsureFinalizer ==> false,
{
}

/// The finalizer of a database or schema resource is removed only once the
/// statement that drops its object has succeeded.
pub proof fn law_object_finalizer_removed_after_drop<P>(s: ObjectReconcile, e: Event<P, ObjectRequest>)
    requires
        s.wf(),
        s.accepts(e),
        object_transition(s, e).1 is RemoveFinalizer,
    ensures
        s.phase == ObjectPhase::DropAwaitStatement,
        e is Completed,
{
}

/// A database or schema that exists, and has the desired owner or no owner
/// is desired, is left unchanged: the reconcile ends, waiting for a change,
/// without a statement.
pub proof fn law_object_in_desired_state_is_left_alone<P>(s: ObjectReconcile, current: String)
    requires
        s.phase == ObjectPhase::AwaitOwner,
        (s.desired_owner matches Some(o) ==> o@ == current@),
    ensures
        object_transition::<P>(s, Event::OwnerFetched(Some(current)))
            == (ObjectReconcile { phase: ObjectPhase::Done, ..s }, CommandView::<P>::Finish { result: Ok(Action { requeue_after_secs: None }) }),
{
}

/// While the role that should own a database or schema does not exist, the
/// reconcile ends without touching PostgreSQL and is retried after thirty
/// seconds.
pub proof fn law_object_missing_owner_role_requeues<P>(s: ObjectReconcile)
    requires
        s.phase == ObjectPhase::AwaitRole,
    ensures
        object_transition::<P>(s, Event::RoleFetched(None)).1
            == (CommandView::<P>::Finish { result: Ok(Action { requeue_after_secs: Some(30) }) }),
{
}

/// Before the finalizer is on the resource, a reconcile neither connects to
/// PostgreSQL nor executes a statement: the first command of a reconcile
/// that does not delete is the one that ensures the finalizer.
pub proof fn law_object_finalizer_comes_first<P>(request: ObjectRequest, s: ObjectReconcile, e: Event<P, ObjectRequest>)
    requires
        s.phase == ObjectPhase::AwaitFinalizer,
    ensures
        !request.metadata.deletion_requested ==> crate::owned_object::object_start::<P>(request).1 == CommandView::<P>::EnsureFinalizer,
        !(object_transition(s, e).1 is Connect),
        !(object_transition(s, e).1 is Execute),
        !(object_transition(s, e).1 is QueryOwner),
{
}

/// A failed command ends a database or schema reconcile with the failure.
pub proof fn law_object_failure_ends_reconcile<P>(s: ObjectReconcile, message: String)
    ensures
        object_transition::<P>(s, Event::Failed(message))
            == (ObjectReconcile { phase: ObjectPhase::Done, ..s }, CommandView::<P>::Finish { result: Err(message@) }),
{
}

/// A phase of the deletion of a role.
pub open spec fn role_drop_phase(phase: RolePhase) -> bool {
    match phase {
        RolePhase::DropAwaitAdmin | RolePhase::DropAwaitConnected | RolePhase::DropAwaitExists
        | RolePhase::DropAwaitRevokeCascade | RolePhase::DropAwaitRevoke | RolePhase::DropAwaitDropOwned
        | RolePhase::DropAwaitDropRole | RolePhase::DropAwaitFinalizer => true,
        _ => false,
    }
}

/// While a role is being deleted, the reconcile stays in the deletion (or
/// ends), and the only statements it executes take privileges, owned
/// objects and the role itself away.
pub proof fn law_role_deletion_only_drops<P: PartialEq, B>(s: RoleReconcile<P, B>, e: Event<P, PostgresRole<P, B>>)
    requires
        s.wf(),
        s.accepts(e),
        role_drop_phase(s.phase),
    ensures
        role_drop_phase(role_transition(s@, e).0.phase) || role_transition(s@, e).0.phase == RolePhase::Done,
        (match role_transition(s@, e).1 {
            CommandView::Execute { sql } => {
                let role = s.resource->0.spec.role@;
                ||| sql == revoke_database_sql(s.database@, role, true)
                ||| sql == revoke_database_sql(s.database@, role, false)
                ||| sql == drop_owned_sql(role)
                ||| sql == drop_role_sql(role)
            },
            _ => true,
        }),
{
}

/// The finalizer of a role resource is removed only once the role is known
/// not to exist, or once it has been dropped.
pub proof fn law_role_finalizer_removed_after_drop<P: PartialEq, B>(s: RoleReconcile<P, B>, e: Event<P, PostgresRole<P, B>>)
    requires
        s.wf(),
        s.accepts(e),
        role_transition(s@, e).1 is RemoveFinalizer,
    ensures
        (s.phase == RolePhase::DropAwaitExists && e == Event::<P, PostgresRole<P, B>>::ExistenceChecked(false))
            || (s.phase == RolePhase::DropAwaitDropRole && e is Completed),
{
}

/// Failing to revoke a role's privileges does not stop its deletion: with
/// `CASCADE` the revoke is tried again without it, and without it the
/// deletion goes on with dropping what the role owns.
pub proof fn law_role_revoke_failure_is_tolerated<P: PartialEq, B>(s: RoleReconcile<P, B>, message: String)
    requires
        s.phase == RolePhase::DropAwaitRevokeCascade || s.phase == RolePhase::DropAwaitRevoke,
    ensures
        role_transition(s@, Event::<P, PostgresRole<P, B>>::Failed(message)).1 is Execute,
        s.phase == RolePhase::DropAwaitRevokeCascade ==> role_transition(s@, Event::<P, PostgresRole<P, B>>::Failed(message)).1
            == (CommandView::<P>::Execute { sql: "REVOKE ALL PRIVILEGES ON DATABASE "@ + s.database@ + " FROM "@ + s.resource->0.spec.role@ }),
        s.phase == RolePhase::DropAwaitRevoke ==> role_transition(s@, Event::<P, PostgresRole<P, B>>::Failed(message)).1
            == (CommandView::<P>::Execute { sql: "DROP OWNED BY "@ + s.resource->0.spec.role@ + " CASCADE"@ }),
{
}

/// A role whose status holds an encoding of its current password is not
/// encoded again: the reconcile stores the same encoding and gives the role
/// that text.
pub proof fn law_role_password_encoding_is_stable<P: PartialEq, B>(s: RoleReconcile<P, B>, r: PostgresRole<P, B>, encoded: String)
    requires
        s.phase == RolePhase::AwaitFinalizer,
        stored_encoding(r.status, r.spec.password) == Some(encoded),
    ensures
        role_transition(s@, Event::FinalizerEnsured(r)).1
            == (CommandView::<P>::PatchStatus { status: recorded_status(r.spec.password, encoded) }),
        role_transition(s@, Event::FinalizerEnsured(r)).0.password_text == encoded@,
{
}

/// The password text that a role is created or updated with is the encoding
/// that was stored in its status: once stored, no later step changes it.
pub proof fn law_role_password_text_is_kept<P: PartialEq, B>(s: RoleReconcile<P, B>, e: Event<P, PostgresRole<P, B>>)
    requires
        s.wf(),
        s.accepts(e),
        s.phase != RolePhase::AwaitFinalizer,
        s.phase != RolePhase::AwaitPasswordEncoded,
    ensures
        role_transition(s@, e).0.password_text == s@.password_text,
{
}

/// A failed command that is not a revoke of privileges ends a role
/// reconcile with the failure.
pub proof fn law_role_failure_ends_reconcile<P: PartialEq, B>(s: RoleReconcile<P, B>, message: String)
    requires
        s.phase != RolePhase::DropAwaitRevokeCascade,
        s.phase != RolePhase::DropAwaitRevoke,
    ensures
        role_transition(s@, Event::<P, PostgresRole<P, B>>::Failed(message))
            == (RoleReconcileView { phase: RolePhase::Done, ..s@ }, CommandView::<P>::Finish { result: Err(message@) }),
{
}

/// The extra roles of a role are granted one after another, in their order,
/// and the grant of connecting to the admin database follows the last one.
pub proof fn law_role_extra_roles_granted_in_order<P: PartialEq, B>(s: RoleReconcile<P, B>, i: usize, next: usize)
    requires
        s.wf(),
        s.phase == RolePhase::AwaitExtraGrant(i),
        next == i + 1,
    ensures
        next < extra_roles_of(s@).len() ==> role_transition(s@, Event::<P, PostgresRole<P, B>>::Completed)
            == (RoleReconcileView { phase: RolePhase::AwaitExtraGrant(next), ..s@ },
                CommandView::<P>::Execute { sql: "GRANT "@ + extra_roles_of(s@)[next as int]@ + " TO "@ + s.resource->0.spec.role@ }),
        next == extra_roles_of(s@).len() ==> role_transition(s@, Event::<P, PostgresRole<P, B>>::Completed)
            == (RoleReconcileView { phase: RolePhase::AwaitConnectGrant, ..s@ },
                CommandView::<P>::Execute { sql: "GRANT CONNECT ON DATABASE "@ + s.database@ + " TO "@ + s.resource->0.spec.role@ }),
{
}

/// After the role's password is set (and it is granted to the admin user
/// when asked), the first extra role, if any, is granted next.
pub proof fn law_role_first_extra_role_granted<P: PartialEq, B>(s: RoleReconcile<P, B>)
    requires
        s.wf(),
        s.phase == RolePhase::AwaitAdminGrant
            || (s.phase == RolePhase::AwaitUpsert && s.resource->0.spec.grant_role_to_admin_user != Some(true)),
        extra_roles_of(s@).len() > 0,
    ensures
        role_transition(s@, Event::<P, PostgresRole<P, B>>::Completed).1
            == (CommandView::<P>::Execute { sql: "GRANT "@ + extra_roles_of(s@)[0]@ + " TO "@ + s.resource->0.spec.role@ }),
{
}


/// The namespace in which a resource's reference is looked up: the one the
/// reference names, else the resource's own.
pub open spec fn lookup_namespace(resource_namespace: Option<String>, named: Option<String>) -> Seq<char> {
    match named {
        Some(ns) => ns@,
        None => match resource_namespace {
            Some(ns) => ns@,
            None => Seq::empty(),
        },
    }
}

/// A deletion starts by looking up the admin connection the resource
/// references, in the namespace the reference names, else in the resource's
/// own; any other reconcile starts by ensuring the finalizer.
pub proof fn law_object_start_looks_up_referenced_admin_connection<P>(request: ObjectRequest)
    ensures
        request.metadata.deletion_requested ==> crate::owned_object::object_start::<P>(request).1
            == (CommandView::<P>::FetchAdminConnection {
                namespace: lookup_namespace(request.metadata.namespace, request.connection.namespace),
                name: request.connection.name@,
            }),
        !request.metadata.deletion_requested ==> crate::owned_object::object_start::<P>(request).1
            == CommandView::<P>::EnsureFinalizer,
{
}

/// Once the finalizer is on the re-read resource, the reconcile looks up the
/// owner role it manages (in the namespace the owner reference names, else
/// the resource's), or else the admin connection the resource references.
pub proof fn law_object_lookups_after_finalizer<P>(s: ObjectReconcile, r: ObjectRequest)
    requires
        s.phase == ObjectPhase::AwaitFinalizer,
    ensures
        (match r.owner {
            Some(crate::owned_object::ObjectOwner::ManagedRole(role)) =>
                object_transition::<P>(s, Event::FinalizerEnsured(r)).1 == (CommandView::<P>::FetchRole {
                    namespace: lookup_namespace(r.metadata.namespace, role.namespace),
                    name: role.name@,
                }),
            _ => object_transition::<P>(s, Event::FinalizerEnsured(r)).1 == (CommandView::<P>::FetchAdminConnection {
                namespace: lookup_namespace(r.metadata.namespace, r.connection.namespace),
                name: r.connection.name@,
            }),
        }),
{
}

/// Once connected, a reconcile reads the current owner of its own object:
/// from `pg_database` for a database, from `pg_namespace` for a schema, by
/// the object's name.
pub proof fn law_object_queries_owner_of_its_own_kind<P>(s: ObjectReconcile)
    requires
        s.phase == ObjectPhase::AwaitConnected,
    ensures
        s.request.kind == ObjectKind::Database ==> object_transition::<P>(s, Event::Completed).1 == (CommandView::<P>::QueryOwner {
            sql: "\n        SELECT a.rolname\n        FROM pg_catalog.pg_database d\n        JOIN pg_catalog.pg_roles a ON d.datdba = a.oid\n        WHERE d.datname = $1;\n    "@,
            parameter: s.request.object_name@,
        }),
        s.request.kind == ObjectKind::Schema ==> object_transition::<P>(s, Event::Completed).1 == (CommandView::<P>::QueryOwner {
            sql: "\n        SELECT\n          r.rolname AS schema_owner\n        FROM pg_catalog.pg_namespace AS n\n        JOIN pg_catalog.pg_roles AS r ON n.nspowner = r.oid\n        WHERE n.nspname = $1;\n    "@,
            parameter: s.request.object_name@,
        }),
{
}

/// A deletion, once connected, drops the object of the resource's kind by
/// its name.
pub proof fn law_object_drops_its_own_object<P>(s: ObjectReconcile)
    requires
        s.phase == ObjectPhase::DropAwaitConnected,
    ensures
        s.request.kind == ObjectKind::Database ==> object_transition::<P>(s, Event::Completed).1
            == (CommandView::<P>::Execute { sql: "DROP DATABASE IF EXISTS "@ + s.request.object_name@ + " CASCADE"@ }),
        s.request.kind == ObjectKind::Schema ==> object_transition::<P>(s, Event::Completed).1
            == (CommandView::<P>::Execute { sql: "DROP SCHEMA IF EXISTS "@ + s.request.object_name@ + " CASCADE"@ }),
{
}

/// What the owner query leads to: a missing object is created (owned by the
/// desired owner, if any); an existing object owned by someone else than the
/// desired owner is handed to it.
pub proof fn law_object_owner_statements<P>(s: ObjectReconcile, current: Option<String>)
    requires
        s.phase == ObjectPhase::AwaitOwner,
    ensures
        ({
            let name = s.request.object_name@;
            let cmd = object_transition::<P>(s, Event::OwnerFetched(current)).1;
            match (current, s.desired_owner) {
                (None, None) => cmd == (CommandView::<P>::Execute { sql: if s.request.kind == ObjectKind::Database {
                    "CREATE DATABASE IF NOT EXISTS "@ + name
                } else {
                    "CREATE SCHEMA IF NOT EXISTS "@ + name
                } }),
                (None, Some(o)) => cmd == (CommandView::<P>::Execute { sql: if s.request.kind == ObjectKind::Database {
                    "CREATE DATABASE IF NOT EXISTS "@ + name + " OWNER = "@ + o@
                } else {
                    "CREATE SCHEMA IF NOT EXISTS "@ + name + " AUTHORIZATION "@ + o@
                } }),
                (Some(c), Some(o)) => c@ != o@ ==> cmd == (CommandView::<P>::Execute { sql: if s.request.kind == ObjectKind::Database {
                    "ALTER DATABASE "@ + name + " OWNER TO "@ + o@
                } else {
                    "ALTER SCHEMA "@ + name + " OWNER TO "@ + o@
                } }),
                (Some(_), None) => cmd is Finish,
            }
        }),
{
}

/// A connection is opened with the admin connection's TLS mode: "disable"
/// without TLS, "allow" and "prefer" trying TLS, the others requiring it.
pub proof fn law_object_connects_with_resource_ssl_mode<P>(s: ObjectReconcile, a: PostgresAdminConnectionSpec<P>)
    requires
        s.phase == ObjectPhase::AwaitAdmin || s.phase == ObjectPhase::DropAwaitAdmin,
    ensures
        (match object_transition::<P>(s, Event::AdminConnectionFetched(Some(a))).1 {
            CommandView::Connect { settings, password } => {
                &&& password == a.password
                &&& settings.host == a.host@
                &&& settings.port == a.port
                &&& settings.user == a.username@
                &&& settings.dbname == a.database@
                &&& a.ssl_mode == PostgresSslMode::Disable ==> settings.ssl_mode == ClientSslMode::Disable
                &&& (a.ssl_mode == PostgresSslMode::Allow || a.ssl_mode == PostgresSslMode::Prefer) ==> settings.ssl_mode == ClientSslMode::Prefer
                &&& (a.ssl_mode == PostgresSslMode::Require || a.ssl_mode == PostgresSslMode::VerifyCa
                    || a.ssl_mode == PostgresSslMode::VerifyFull) ==> settings.ssl_mode == ClientSslMode::Require
            },
            CommandView::Finish { result } => result == Err::<Action, Seq<char>>("Failed to parse custom root certificate"@),
            _ => false,
        }),
        object_transition::<P>(s, Event::AdminConnectionFetched(None)).1
            == (CommandView::<P>::Finish { result: Err("Could not find postgres admin connection kubernetes object"@) }),
{
}

/// A role deletion starts by looking up the admin connection the role
/// references, in the namespace the reference names, else in the role's.
pub proof fn law_role_start_looks_up_referenced_admin_connection<P, B>(r: PostgresRole<P, B>)
    ensures
        r.metadata.deletion_requested ==> crate::role::role_start(r).1 == (CommandView::<P>::FetchAdminConnection {
            namespace: lookup_namespace(r.metadata.namespace, r.spec.connection.namespace),
            name: r.spec.connection.name@,
        }),
        !r.metadata.deletion_requested ==> crate::role::role_start(r).1 == CommandView::<P>::EnsureFinalizer,
{
}

/// The existence queries of a role reconcile ask for the role by its role
/// name (`spec.role`), not by the resource's name.
pub proof fn law_role_existence_queried_by_role_name<P: PartialEq, B>(s: RoleReconcile<P, B>)
    requires
        s.wf(),
    ensures
        s.phase == RolePhase::ApplyAwaitConnected ==> role_transition(s@, Event::<P, PostgresRole<P, B>>::Completed).1
            == (CommandView::<P>::QueryExists { sql: "SELECT 1 FROM pg_roles WHERE rolname = $1"@, parameter: s.resource->0.spec.role@ }),
        s.phase == RolePhase::DropAwaitConnected ==> role_transition(s@, Event::<P, PostgresRole<P, B>>::Completed).1
            == (CommandView::<P>::QueryExists { sql: "SELECT FROM pg_roles WHERE rolname = $1"@, parameter: s.resource->0.spec.role@ }),
{
}

/// An existing role gets its password with `ALTER USER`, a missing one is
/// created with `CREATE USER`, both with the settled password text.
pub proof fn law_role_password_statement<P: PartialEq, B>(s: RoleReconcile<P, B>, exists: bool)
    requires
        s.phase == RolePhase::AwaitExists,
    ensures
        exists ==> role_transition(s@, Event::<P, PostgresRole<P, B>>::ExistenceChecked(exists)).1
            == (CommandView::<P>::Execute { sql: "ALTER USER "@ + s.resource->0.spec.role@ + " WITH PASSWORD '"@ + s.password_text@ + "'"@ }),
        !exists ==> role_transition(s@, Event::<P, PostgresRole<P, B>>::ExistenceChecked(exists)).1
            == (CommandView::<P>::Execute { sql: "CREATE USER "@ + s.resource->0.spec.role@ + " WITH PASSWORD '"@ + s.password_text@ + "'"@ }),
{
}

/// A role that exists is dropped only after what it owns: after the revoke
/// of its privileges (whether the revoke succeeded or failed) comes
/// `DROP OWNED BY`, and `DROP ROLE` follows only that.
pub proof fn law_role_drop_owned_before_drop_role<P: PartialEq, B>(s: RoleReconcile<P, B>, e: Event<P, PostgresRole<P, B>>)
    requires
        s.wf(),
        s.accepts(e),
    ensures
        s.phase == RolePhase::DropAwaitExists && e == Event::<P, PostgresRole<P, B>>::ExistenceChecked(true)
            ==> role_transition(s@, e).1 == (CommandView::<P>::Execute {
                sql: "REVOKE ALL PRIVILEGES ON DATABASE "@ + s.database@ + " FROM "@ + s.resource->0.spec.role@ + " CASCADE"@,
            }),
        (s.phase == RolePhase::DropAwaitRevoke || (s.phase == RolePhase::DropAwaitRevokeCascade && e is Completed))
            ==> role_transition(s@, e).1 == (CommandView::<P>::Execute { sql: "DROP OWNED BY "@ + s.resource->0.spec.role@ + " CASCADE"@ }),
        role_transition(s@, e).0.phase == RolePhase::DropAwaitDropRole ==> s.phase == RolePhase::DropAwaitDropOwned,
        s.phase == RolePhase::DropAwaitDropOwned && e is Completed
            ==> role_transition(s@, e).1 == (CommandView::<P>::Execute { sql: "DROP ROLE "@ + s.resource->0.spec.role@ }),
{
}

/// After its password is set, a role is granted to the admin user exactly
/// when the resource asks for it.
pub proof fn law_role_admin_grant_when_asked<P: PartialEq, B>(s: RoleReconcile<P, B>)
    requires
        s.wf(),
        s.phase == RolePhase::AwaitUpsert,
    ensures
        s.resource->0.spec.grant_role_to_admin_user == Some(true) ==> role_transition(s@, Event::<P, PostgresRole<P, B>>::Completed)
            == (RoleReconcileView { phase: RolePhase::AwaitAdminGrant, ..s@ },
                CommandView::<P>::Execute { sql: "GRANT "@ + s.resource->0.spec.role@ + " TO "@ + s.admin_username@ }),
        s.resource->0.spec.grant_role_to_admin_user != Some(true) ==> role_transition(s@, Event::<P, PostgresRole<P, B>>::Completed).0.phase
            != RolePhase::AwaitAdminGrant,
{
}

/// After its grants, a role is allowed to connect to the admin database, and
/// is then registered in PgBouncer under the resource's namespace and name,
/// owned by the resource, when asked.
pub proof fn law_role_connect_grant_and_registration<P: PartialEq, B>(s: RoleReconcile<P, B>)
    requires
        s.wf(),
    ensures
        s.phase == RolePhase::AwaitAdminGrant && extra_roles_of(s@).len() == 0
            ==> role_transition(s@, Event::<P, PostgresRole<P, B>>::Completed).1 == (CommandView::<P>::Execute {
                sql: "GRANT CONNECT ON DATABASE "@ + s.database@ + " TO "@ + s.resource->0.spec.role@,
            }),
        s.phase == RolePhase::AwaitConnectGrant && s.resource->0.spec.register_in_pg_bouncer is Some
            ==> role_transition(s@, Event::<P, PostgresRole<P, B>>::Completed).1 == (CommandView::<P>::RegisterInPgBouncer {
                registration: crate::reconcile::PgBouncerRegistrationView {
                    namespace: s.namespace@,
                    name: s.name@,
                    owner_name: s.resource->0.metadata.name->0@,
                    owner_uid: s.resource->0.metadata.uid->0@,
                    username: s.resource->0.spec.role@,
                    password_text: s.password_text@,
                },
            }),
{
}

} // verus!
