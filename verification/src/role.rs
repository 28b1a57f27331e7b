//! The reconciler of role resources.
//!
//! A role whose deletion was requested loses its privileges on the admin
//! database, everything it owns and then itself, if it exists; then the
//! resource loses its finalizer.  Otherwise the resource gets its finalizer,
//! the password text is settled (the encoding stored in the status is reused
//! while the password is unchanged) and stored in the status, and the role is
//! created or updated with that password, granted to the admin user when
//! asked, granted its extra roles, allowed to connect to the admin database,
//! and registered in PgBouncer when asked.

use vstd::prelude::*;
use crate::connection::{admin_connection_target, prepare_connection, prepared_connection, referenced_namespace};
use crate::owned_object::namespace_of;
use crate::reconcile::{fail, finish_await_change, Action, Command, CommandView, Event, PgBouncerRegistration, PgBouncerRegistrationView};
use crate::sql::{
    drop_owned, drop_owned_sql, drop_role, drop_role_sql, grant, grant_connect, grant_connect_sql,
    grant_sql, revoke_database, revoke_database_sql, role_exists, role_exists_before_drop,
    role_exists_before_drop_sql, role_exists_sql, upsert_user, upsert_user_sql,
};
use crate::types::postgres_role::{password_equality_known, recorded_status, reusable_password_text, stored_encoding, with_encoded_password};
use crate::types::{PostgresAdminConnectionSpec, PostgresRole};

verus! {

/// Where a role reconcile stands: which answer it waits for.
#[derive(Debug, Clone, Copy, PartialEq, Eq)]
pub enum RolePhase {
    DropAwaitAdmin,
    DropAwaitConnected,
    DropAwaitExists,
    DropAwaitRevokeCascade,
    DropAwaitRevoke,
    DropAwaitDropOwned,
    DropAwaitDropRole,
    DropAwaitFinalizer,
    AwaitFinalizer,
    AwaitPasswordEncoded,
    AwaitStatusPatched,
    ApplyAwaitAdmin,
    ApplyAwaitConnected,
    AwaitExists,
    AwaitUpsert,
    AwaitAdminGrant,
    /// Waits for the grant of the extra role at this index.
    AwaitExtraGrant(usize),
    AwaitConnectGrant,
    AwaitRegistration,
    Done,
}

/// The state of a role reconcile.
pub struct RoleReconcile<P, B> {
    pub phase: RolePhase,
    /// The resource, as last read; none while its status is being stored.
    pub resource: Option<PostgresRole<P, B>>,
    /// Namespace and name of the resource when the reconcile started.
    pub namespace: String,
    pub name: String,
    /// The encoded password the role is given.
    pub password_text: String,
    /// The admin user and database of the connection.
    pub admin_username: String,
    pub database: String,
}

/// A role reconcile with its strings taken by their views.
pub struct RoleReconcileView<P, B> {
    pub phase: RolePhase,
    pub resource: Option<PostgresRole<P, B>>,
    pub namespace: Seq<char>,
    pub name: Seq<char>,
    pub password_text: Seq<char>,
    pub admin_username: Seq<char>,
    pub database: Seq<char>,
}

impl<P, B> View for RoleReconcile<P, B> {
    type V = RoleReconcileView<P, B>;

    open spec fn view(&self) -> RoleReconcileView<P, B> {
        RoleReconcileView {
            phase: self.phase,
            resource: self.resource,
            namespace: self.namespace@,
            name: self.name@,
            password_text: self.password_text@,
            admin_username: self.admin_username@,
            database: self.database@,
        }
    }
}

/// The role name of the resource a reconcile holds.
pub open spec fn role_of<P, B>(s: RoleReconcileView<P, B>) -> Seq<char> {
    s.resource->0.spec.role@
}

/// The extra roles of the resource a reconcile holds.
pub open spec fn extra_roles_of<P, B>(s: RoleReconcileView<P, B>) -> Seq<String> {
    match s.resource->0.spec.extra_roles {
        Some(v) => v@,
        None => Seq::empty(),
    }
}

/// The reconcile in another phase.
pub open spec fn with_phase<P, B>(s: RoleReconcileView<P, B>, phase: RolePhase) -> RoleReconcileView<P, B> {
    RoleReconcileView { phase, ..s }
}

/// The end of a reconcile that succeeded and waits for the next change.
pub open spec fn done_ok<P, B>(s: RoleReconcileView<P, B>) -> (RoleReconcileView<P, B>, CommandView<P>) {
    (with_phase(s, RolePhase::Done), CommandView::Finish { result: Ok(Action { requeue_after_secs: None }) })
}

/// The first command of a role reconcile and the state that waits for its
/// answer.
pub open spec fn role_start<P, B>(r: PostgresRole<P, B>) -> (RoleReconcileView<P, B>, CommandView<P>) {
    let s = RoleReconcileView {
        phase: RolePhase::AwaitFinalizer,
        resource: Some(r),
        namespace: namespace_of(r.metadata),
        name: crate::types::resource::name_any_of(r.metadata),
        password_text: Seq::empty(),
        admin_username: Seq::empty(),
        database: Seq::empty(),
    };
    if r.metadata.deletion_requested {
        (
            with_phase(s, RolePhase::DropAwaitAdmin),
            CommandView::FetchAdminConnection {
                namespace: referenced_namespace(namespace_of(r.metadata), r.spec.connection.namespace),
                name: r.spec.connection.name@,
            },
        )
    } else {
        (s, CommandView::EnsureFinalizer)
    }
}

/// The step that a looked-up admin connection leads to: connecting, and
/// remembering its user and database, or the end with the lookup's error.
pub open spec fn role_after_admin<P, B>(s: RoleReconcileView<P, B>, admin: Option<PostgresAdminConnectionSpec<P>>, next: RolePhase) -> (RoleReconcileView<P, B>, CommandView<P>) {
    match prepared_connection(admin) {
        Err(m) => (with_phase(s, RolePhase::Done), CommandView::Finish { result: Err(m) }),
        Ok((settings, password)) => (
            RoleReconcileView { phase: next, admin_username: settings.user, database: settings.dbname, ..s },
            CommandView::Connect { settings, password },
        ),
    }
}

/// The grants from the extra role at index `i` on: that grant, or, when
/// none is left, the grant of connecting to the admin database.
pub open spec fn grants_from<P, B>(s: RoleReconcileView<P, B>, i: int) -> (RoleReconcileView<P, B>, CommandView<P>) {
    let extras = extra_roles_of(s);
    if 0 <= i < extras.len() {
        (with_phase(s, RolePhase::AwaitExtraGrant(i as usize)), CommandView::Execute { sql: grant_sql(extras[i]@, role_of(s)) })
    } else {
        (with_phase(s, RolePhase::AwaitConnectGrant), CommandView::Execute { sql: grant_connect_sql(s.database, role_of(s)) })
    }
}

/// What a role reconcile does with the answer to its last command.  A failed
/// command ends the reconcile with the failure, except a failed revoke of
/// privileges: with `CASCADE` it is tried again without, and without it the
/// drop goes on regardless.
pub open spec fn role_transition<P: PartialEq, B>(s: RoleReconcileView<P, B>, e: Event<P, PostgresRole<P, B>>) -> (RoleReconcileView<P, B>, CommandView<P>) {
    match e {
        Event::Failed(m) => match s.phase {
            RolePhase::DropAwaitRevokeCascade => (
                with_phase(s, RolePhase::DropAwaitRevoke),
                CommandView::Execute { sql: revoke_database_sql(s.database, role_of(s), false) },
            ),
            RolePhase::DropAwaitRevoke => (with_phase(s, RolePhase::DropAwaitDropOwned), CommandView::Execute { sql: drop_owned_sql(role_of(s)) }),
            _ => (with_phase(s, RolePhase::Done), CommandView::Finish { result: Err(m@) }),
        },
        _ => match s.phase {
            RolePhase::DropAwaitAdmin => match e {
                Event::AdminConnectionFetched(a) => role_after_admin(s, a, RolePhase::DropAwaitConnected),
                _ => (s, CommandView::EnsureFinalizer),
            },
            RolePhase::DropAwaitConnected => (
                with_phase(s, RolePhase::DropAwaitExists),
                CommandView::QueryExists { sql: role_exists_before_drop_sql(), parameter: role_of(s) },
            ),
            RolePhase::DropAwaitExists => match e {
                Event::ExistenceChecked(true) => (
                    with_phase(s, RolePhase::DropAwaitRevokeCascade),
                    CommandView::Execute { sql: revoke_database_sql(s.database, role_of(s), true) },
                ),
                _ => (with_phase(s, RolePhase::DropAwaitFinalizer), CommandView::RemoveFinalizer),
            },
            RolePhase::DropAwaitRevokeCascade | RolePhase::DropAwaitRevoke => (
                with_phase(s, RolePhase::DropAwaitDropOwned),
                CommandView::Execute { sql: drop_owned_sql(role_of(s)) },
            ),
            RolePhase::DropAwaitDropOwned => (with_phase(s, RolePhase::DropAwaitDropRole), CommandView::Execute { sql: drop_role_sql(role_of(s)) }),
            RolePhase::DropAwaitDropRole => (with_phase(s, RolePhase::DropAwaitFinalizer), CommandView::RemoveFinalizer),
            RolePhase::DropAwaitFinalizer => done_ok(s),
            RolePhase::AwaitFinalizer => match e {
                Event::FinalizerEnsured(r) => match stored_encoding(r.status, r.spec.password) {
                    Some(t) => (
                        RoleReconcileView { phase: RolePhase::AwaitStatusPatched, resource: None, password_text: t@, ..s },
                        CommandView::PatchStatus { status: recorded_status(r.spec.password, t) },
                    ),
                    None => (
                        RoleReconcileView { phase: RolePhase::AwaitPasswordEncoded, resource: Some(r), ..s },
                        CommandView::EncodePassword { role: r.spec.role@ },
                    ),
                },
                _ => (s, CommandView::EnsureFinalizer),
            },
            RolePhase::AwaitPasswordEncoded => match e {
                Event::PasswordEncoded(t) => (
                    RoleReconcileView { phase: RolePhase::AwaitStatusPatched, resource: None, password_text: t@, ..s },
                    CommandView::PatchStatus { status: recorded_status(s.resource->0.spec.password, t) },
                ),
                _ => (s, CommandView::EnsureFinalizer),
            },
            RolePhase::AwaitStatusPatched => match e {
                Event::StatusPatched(r) => (
                    RoleReconcileView { phase: RolePhase::ApplyAwaitAdmin, resource: Some(r), ..s },
                    CommandView::FetchAdminConnection {
                        namespace: referenced_namespace(namespace_of(r.metadata), r.spec.connection.namespace),
                        name: r.spec.connection.name@,
                    },
                ),
                _ => (s, CommandView::EnsureFinalizer),
            },
            RolePhase::ApplyAwaitAdmin => match e {
                Event::AdminConnectionFetched(a) => role_after_admin(s, a, RolePhase::ApplyAwaitConnected),
                _ => (s, CommandView::EnsureFinalizer),
            },
            RolePhase::ApplyAwaitConnected => (
                with_phase(s, RolePhase::AwaitExists),
                CommandView::QueryExists { sql: role_exists_sql(), parameter: role_of(s) },
            ),
            RolePhase::AwaitExists => match e {
                Event::ExistenceChecked(exists) => (
                    with_phase(s, RolePhase::AwaitUpsert),
                    CommandView::Execute { sql: upsert_user_sql(exists, role_of(s), s.password_text) },
                ),
                _ => (s, CommandView::EnsureFinalizer),
            },
            RolePhase::AwaitUpsert => if s.resource->0.spec.grant_role_to_admin_user == Some(true) {
                (with_phase(s, RolePhase::AwaitAdminGrant), CommandView::Execute { sql: grant_sql(role_of(s), s.admin_username) })
            } else {
                grants_from(s, 0)
            },
            RolePhase::AwaitAdminGrant => grants_from(s, 0),
            RolePhase::AwaitExtraGrant(i) => grants_from(s, i + 1),
            RolePhase::AwaitConnectGrant => match s.resource->0.spec.register_in_pg_bouncer {
                Some(_) => (
                    with_phase(s, RolePhase::AwaitRegistration),
                    CommandView::RegisterInPgBouncer {
                        registration: PgBouncerRegistrationView {
                            namespace: s.namespace,
                            name: s.name,
                            owner_name: s.resource->0.metadata.name->0@,
                            owner_uid: s.resource->0.metadata.uid->0@,
                            username: role_of(s),
                            password_text: s.password_text,
                        },
                    },
                ),
                None => done_ok(s),
            },
            RolePhase::AwaitRegistration => done_ok(s),
            RolePhase::Done => (s, CommandView::EnsureFinalizer),
        },
    }
}

/// The order of the phases: every step goes to a lower one, or stays among
/// the extra grants with fewer of them left.
pub open spec fn role_stage(phase: RolePhase) -> nat {
    match phase {
        RolePhase::Done => 0,
        RolePhase::DropAwaitFinalizer => 1,
        RolePhase::DropAwaitDropRole => 2,
        RolePhase::DropAwaitDropOwned => 3,
        RolePhase::DropAwaitRevoke => 4,
        RolePhase::DropAwaitRevokeCascade => 5,
        RolePhase::DropAwaitExists => 6,
        RolePhase::DropAwaitConnected => 7,
        RolePhase::DropAwaitAdmin => 8,
        RolePhase::AwaitRegistration => 1,
        RolePhase::AwaitConnectGrant => 2,
        RolePhase::AwaitExtraGrant(_) => 3,
        RolePhase::AwaitAdminGrant => 4,
        RolePhase::AwaitUpsert => 5,
        RolePhase::AwaitExists => 6,
        RolePhase::ApplyAwaitConnected => 7,
        RolePhase::ApplyAwaitAdmin => 8,
        RolePhase::AwaitStatusPatched => 9,
        RolePhase::AwaitPasswordEncoded => 10,
        RolePhase::AwaitFinalizer => 11,
    }
}

/// A role resource that the role reconciler can work on after its status is
/// stored: namespaced, and with a name and uid when it is registered in
/// PgBouncer (the registration is owned by it).
pub open spec fn patched_resource_ok<P, B>(r: PostgresRole<P, B>) -> bool {
    &&& r.metadata.namespace is Some
    &&& r.spec.register_in_pg_bouncer is Some ==> r.metadata.name is Some && r.metadata.uid is Some
}

impl<P: PartialEq, B> RoleReconcile<P, B> {
    /// The reconcile has ended.
    pub open spec fn is_done(self) -> bool {
        self.phase == RolePhase::Done
    }

    /// The resource is held in every phase but the wait for the stored
    /// status and the end; from the lookup of the admin connection on it is
    /// a resource the reconciler can work on; an awaited extra grant exists.
    pub open spec fn wf(self) -> bool {
        &&& match self.phase {
            RolePhase::Done | RolePhase::AwaitStatusPatched => true,
            RolePhase::AwaitFinalizer | RolePhase::AwaitPasswordEncoded => self.resource is Some,
            RolePhase::DropAwaitAdmin | RolePhase::DropAwaitConnected | RolePhase::DropAwaitExists
            | RolePhase::DropAwaitRevokeCascade | RolePhase::DropAwaitRevoke | RolePhase::DropAwaitDropOwned
            | RolePhase::DropAwaitDropRole | RolePhase::DropAwaitFinalizer => self.resource is Some,
            _ => self.resource is Some && patched_resource_ok(self.resource->0),
        }
        &&& (self.phase matches RolePhase::AwaitExtraGrant(i) ==> i < extra_roles_of(self@).len())
    }

    /// How many extra grants are left after the awaited one.
    pub open spec fn remaining_grants(self) -> nat {
        match self.phase {
            RolePhase::AwaitExtraGrant(i) => if i < extra_roles_of(self@).len() {
                (extra_roles_of(self@).len() - i) as nat
            } else {
                0
            },
            _ => 0,
        }
    }

    /// The step from `self` to `next` makes progress towards the end.
    pub open spec fn precedes(next: Self, prev: Self) -> bool {
        ||| role_stage(next.phase) < role_stage(prev.phase)
        ||| role_stage(next.phase) == role_stage(prev.phase) && next.remaining_grants() < prev.remaining_grants()
    }

    /// The event answers the command this reconcile waits for, and a
    /// re-read resource is one the reconciler can work on.
    pub open spec fn accepts(self, e: Event<P, PostgresRole<P, B>>) -> bool {
        match e {
            Event::Failed(_) => self.phase != RolePhase::Done,
            Event::Completed => match self.phase {
                RolePhase::DropAwaitConnected | RolePhase::DropAwaitRevokeCascade | RolePhase::DropAwaitRevoke
                | RolePhase::DropAwaitDropOwned | RolePhase::DropAwaitDropRole | RolePhase::DropAwaitFinalizer
                | RolePhase::ApplyAwaitConnected | RolePhase::AwaitUpsert | RolePhase::AwaitAdminGrant
                | RolePhase::AwaitExtraGrant(_) | RolePhase::AwaitConnectGrant | RolePhase::AwaitRegistration => true,
                _ => false,
            },
            Event::FinalizerEnsured(_) => self.phase == RolePhase::AwaitFinalizer,
            Event::AdminConnectionFetched(_) => self.phase == RolePhase::DropAwaitAdmin || self.phase == RolePhase::ApplyAwaitAdmin,
            Event::ExistenceChecked(_) => self.phase == RolePhase::DropAwaitExists || self.phase == RolePhase::AwaitExists,
            Event::PasswordEncoded(_) => self.phase == RolePhase::AwaitPasswordEncoded,
            Event::StatusPatched(r) => self.phase == RolePhase::AwaitStatusPatched && patched_resource_ok(r),
            _ => false,
        }
    }

    /// Starts a reconcile of a (namespaced) role resource: its first command,
    /// and the state that waits for the answer.
    pub fn start(resource: PostgresRole<P, B>) -> (result: (RoleReconcile<P, B>, Command<P>))
        requires
            resource.metadata.namespace is Some,
        ensures
            (result.0@, result.1@) == role_start(resource),
            result.0.wf(),
    {
        let namespace = resource.metadata.namespace.as_ref().unwrap().clone();
        let name = resource.metadata.name_any();
        if resource.metadata.deletion_requested {
            let (ns, n) = admin_connection_target(&namespace, &resource.spec.connection);
            let command = Command::FetchAdminConnection { namespace: ns, name: n };
            let state = RoleReconcile {
                phase: RolePhase::DropAwaitAdmin,
                resource: Some(resource),
                namespace,
                name,
                password_text: String::new(),
                admin_username: String::new(),
                database: String::new(),
            };
            (state, command)
        } else {
            let state = RoleReconcile {
                phase: RolePhase::AwaitFinalizer,
                resource: Some(resource),
                namespace,
                name,
                password_text: String::new(),
                admin_username: String::new(),
                database: String::new(),
            };
            (state, Command::EnsureFinalizer)
        }
    }

    /// The role name of the held resource.
    fn role(&self) -> (role: &String)
        requires
            self.resource is Some,
        ensures
            role@ == role_of(self@),
    {
        &self.resource.as_ref().unwrap().spec.role
    }

    /// Connects through the admin connection that was looked up, or ends the
    /// reconcile with the lookup's error.
    fn connect_or_fail(self, admin: Option<PostgresAdminConnectionSpec<P>>, next: RolePhase) -> (result: (RoleReconcile<P, B>, Command<P>))
        ensures
            (result.0@, result.1@) == role_after_admin(self@, admin, next),
            result.0.resource == self.resource,
    {
        match prepare_connection(admin) {
            Err(e) => (RoleReconcile { phase: RolePhase::Done, ..self }, Command::Finish { result: Err(e) }),
            Ok((settings, password)) => {
                let admin_username = settings.user.clone();
                let database = settings.dbname.clone();
                (RoleReconcile { phase: next, admin_username, database, ..self }, Command::Connect { settings, password })
            },
        }
    }

    /// The grant of the extra role at index `i`, or, when none is left, of
    /// connecting to the admin database.
    fn grants_from(self, i: usize) -> (result: (RoleReconcile<P, B>, Command<P>))
        requires
            self.resource is Some,
        ensures
            (result.0@, result.1@) == grants_from(self@, i as int),
            result.0.resource == self.resource,
    {
        let extras_left = match &self.resource.as_ref().unwrap().spec.extra_roles {
            Some(v) => i < v.len(),
            None => false,
        };
        if extras_left {
            let sql = match &self.resource.as_ref().unwrap().spec.extra_roles {
                Some(v) => grant(&v[i], self.role()),
                None => String::new(),
            };
            (RoleReconcile { phase: RolePhase::AwaitExtraGrant(i), ..self }, Command::Execute { sql })
        } else {
            let sql = grant_connect(&self.database, self.role());
            (RoleReconcile { phase: RolePhase::AwaitConnectGrant, ..self }, Command::Execute { sql })
        }
    }

    /// Takes the answer to the last command: the next state and the next
    /// command.  Where the reuse of a stored password encoding is decided,
    /// the step is as stated when the equality of passwords is the one
    /// their `eq_spec` states.
    pub fn step(self, event: Event<P, PostgresRole<P, B>>) -> (result: (RoleReconcile<P, B>, Command<P>))
        requires
            self.wf(),
            self.accepts(event),
        ensures
            (event is FinalizerEnsured ==> password_equality_known::<P>()) ==> (result.0@, result.1@) == role_transition(self@, event),
            event is FinalizerEnsured ==> (result.1 is PatchStatus || result.1 is EncodePassword),
            result.0.wf(),
            Self::precedes(result.0, self),
            result.0.is_done() <==> result.1 is Finish,
    {
        if let Event::Failed(message) = event {
            return match self.phase {
                RolePhase::DropAwaitRevokeCascade => {
                    let sql = revoke_database(&self.database, self.role(), false);
                    (RoleReconcile { phase: RolePhase::DropAwaitRevoke, ..self }, Command::Execute { sql })
                },
                RolePhase::DropAwaitRevoke => {
                    let sql = drop_owned(self.role());
                    (RoleReconcile { phase: RolePhase::DropAwaitDropOwned, ..self }, Command::Execute { sql })
                },
                _ => (RoleReconcile { phase: RolePhase::Done, ..self }, fail(message)),
            };
        }
        match self.phase {
            RolePhase::DropAwaitAdmin => match event {
                Event::AdminConnectionFetched(a) => self.connect_or_fail(a, RolePhase::DropAwaitConnected),
                _ => (self, Command::EnsureFinalizer),
            },
            RolePhase::DropAwaitConnected => {
                let sql = role_exists_before_drop();
                let parameter = self.role().clone();
                (RoleReconcile { phase: RolePhase::DropAwaitExists, ..self }, Command::QueryExists { sql, parameter })
            },
            RolePhase::DropAwaitExists => match event {
                Event::ExistenceChecked(true) => {
                    let sql = revoke_database(&self.database, self.role(), true);
                    (RoleReconcile { phase: RolePhase::DropAwaitRevokeCascade, ..self }, Command::Execute { sql })
                },
                _ => (RoleReconcile { phase: RolePhase::DropAwaitFinalizer, ..self }, Command::RemoveFinalizer),
            },
            RolePhase::DropAwaitRevokeCascade | RolePhase::DropAwaitRevoke => {
                let sql = drop_owned(self.role());
                (RoleReconcile { phase: RolePhase::DropAwaitDropOwned, ..self }, Command::Execute { sql })
            },
            RolePhase::DropAwaitDropOwned => {
                let sql = drop_role(self.role());
                (RoleReconcile { phase: RolePhase::DropAwaitDropRole, ..self }, Command::Execute { sql })
            },
            RolePhase::DropAwaitDropRole => (RoleReconcile { phase: RolePhase::DropAwaitFinalizer, ..self }, Command::RemoveFinalizer),
            RolePhase::DropAwaitFinalizer => (RoleReconcile { phase: RolePhase::Done, ..self }, finish_await_change()),
            RolePhase::AwaitFinalizer => match event {
                Event::FinalizerEnsured(r) => match reusable_password_text(&r.status, &r.spec.password) {
                    Some(text) => {
                        let status = with_encoded_password(r.status, r.spec.password, text.clone());
                        let state = RoleReconcile { phase: RolePhase::AwaitStatusPatched, resource: None, password_text: text, ..self };
                        (state, Command::PatchStatus { status })
                    },
                    None => {
                        let role = r.spec.role.clone();
                        (RoleReconcile { phase: RolePhase::AwaitPasswordEncoded, resource: Some(r), ..self }, Command::EncodePassword { role })
                    },
                },
                _ => (self, Command::EnsureFinalizer),
            },
            RolePhase::AwaitPasswordEncoded => match event {
                Event::PasswordEncoded(text) => {
                    let r = self.resource.unwrap();
                    let status = with_encoded_password(r.status, r.spec.password, text.clone());
                    let state = RoleReconcile {
                        phase: RolePhase::AwaitStatusPatched,
                        resource: None,
                        namespace: self.namespace,
                        name: self.name,
                        password_text: text,
                        admin_username: self.admin_username,
                        database: self.database,
                    };
                    (state, Command::PatchStatus { status })
                },
                _ => (self, Command::EnsureFinalizer),
            },
            RolePhase::AwaitStatusPatched => match event {
                Event::StatusPatched(r) => {
                    let (namespace, name) = admin_connection_target(r.metadata.namespace.as_ref().unwrap(), &r.spec.connection);
                    let command = Command::FetchAdminConnection { namespace, name };
                    (RoleReconcile { phase: RolePhase::ApplyAwaitAdmin, resource: Some(r), ..self }, command)
                },
                _ => (self, Command::EnsureFinalizer),
            },
            RolePhase::ApplyAwaitAdmin => match event {
                Event::AdminConnectionFetched(a) => self.connect_or_fail(a, RolePhase::ApplyAwaitConnected),
                _ => (self, Command::EnsureFinalizer),
            },
            RolePhase::ApplyAwaitConnected => {
                let sql = role_exists();
                let parameter = self.role().clone();
                (RoleReconcile { phase: RolePhase::AwaitExists, ..self }, Command::QueryExists { sql, parameter })
            },
            RolePhase::AwaitExists => match event {
                Event::ExistenceChecked(exists) => {
                    let sql = upsert_user(exists, self.role(), &self.password_text);
                    (RoleReconcile { phase: RolePhase::AwaitUpsert, ..self }, Command::Execute { sql })
                },
                _ => (self, Command::EnsureFinalizer),
            },
            RolePhase::AwaitUpsert => {
                if self.resource.as_ref().unwrap().spec.grant_role_to_admin_user == Some(true) {
                    let sql = grant(self.role(), &self.admin_username);
                    (RoleReconcile { phase: RolePhase::AwaitAdminGrant, ..self }, Command::Execute { sql })
                } else {
                    self.grants_from(0)
                }
            },
            RolePhase::AwaitAdminGrant => self.grants_from(0),
            RolePhase::AwaitExtraGrant(i) => {
                proof {
                    if let Some(v) = self.resource->0.spec.extra_roles {
                        assert(i < v.len());
                    }
                }
                self.grants_from(i + 1)
            },
            RolePhase::AwaitConnectGrant => {
                let register = self.resource.as_ref().unwrap().spec.register_in_pg_bouncer.is_some();
                if register {
                    let r = self.resource.as_ref().unwrap();
                    let registration = PgBouncerRegistration {
                        namespace: self.namespace.clone(),
                        name: self.name.clone(),
                        owner_name: r.metadata.name.as_ref().unwrap().clone(),
                        owner_uid: r.metadata.uid.as_ref().unwrap().clone(),
                        username: r.spec.role.clone(),
                        password_text: self.password_text.clone(),
                    };
                    (RoleReconcile { phase: RolePhase::AwaitRegistration, ..self }, Command::RegisterInPgBouncer { registration })
                } else {
                    (RoleReconcile { phase: RolePhase::Done, ..self }, finish_await_change())
                }
            },
            RolePhase::AwaitRegistration => (RoleReconcile { phase: RolePhase::Done, ..self }, finish_await_change()),
            RolePhase::Done => (self, Command::EnsureFinalizer),
        }
    }
}

} // verus!
