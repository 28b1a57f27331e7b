//! The reconciler of database and schema resources.
//!
//! A resource whose deletion was requested has its object dropped and then
//! loses its finalizer.  Otherwise the resource first gets its finalizer;
//! then the desired owner is resolved (a managed role is looked up, and the
//! reconcile is retried after thirty seconds while it does not exist); then
//! the current owner is queried, and the object is created, or handed to the
//! desired owner, or left as it is.

use vstd::prelude::*;
use crate::connection::{admin_connection_target, prepare_connection, prepared_connection, referenced_namespace, resolve_namespace};
use crate::reconcile::{fail, finish_await_change, Action, Command, CommandView, Event};
use crate::sql::{
    alter_owner, alter_owner_sql, create_object, create_object_sql, create_owned_object,
    create_owned_object_sql, drop_object, drop_object_sql, owner_query, owner_query_sql,
    ObjectKind,
};
use crate::types::{
    PostgresAdminConnectionReference, PostgresDatabase, PostgresDatabaseOwner,
    PostgresRoleReference, PostgresSchema, PostgresSchemaOwner, ResourceMeta,
};

verus! {

/// The owner wanted for a database or schema.
#[derive(Debug, Clone)]
pub enum ObjectOwner {
    ManagedRole(PostgresRoleReference),
    Name(String),
}

/// What a database or schema reconcile reads from its resource.
#[derive(Debug, Clone)]
pub struct ObjectRequest {
    pub kind: ObjectKind,
    pub metadata: ResourceMeta,
    pub object_name: String,
    pub owner: Option<ObjectOwner>,
    pub connection: PostgresAdminConnectionReference,
}

impl PostgresDatabase {
    /// The reconcile request of a database resource.
    pub fn reconcile_request(self) -> (request: ObjectRequest)
        ensures
            request.kind == ObjectKind::Database,
            request.metadata == self.metadata,
            request.object_name == self.spec.name,
            request.connection == self.spec.connection,
            request.owner == match self.spec.database_owner {
                None => None,
                Some(PostgresDatabaseOwner::ManagedRole(r)) => Some(ObjectOwner::ManagedRole(r)),
                Some(PostgresDatabaseOwner::Name(n)) => Some(ObjectOwner::Name(n)),
            },
    {
        let owner = match self.spec.database_owner {
            None => None,
            Some(PostgresDatabaseOwner::ManagedRole(r)) => Some(ObjectOwner::ManagedRole(r)),
            Some(PostgresDatabaseOwner::Name(n)) => Some(ObjectOwner::Name(n)),
        };
        ObjectRequest {
            kind: ObjectKind::Database,
            metadata: self.metadata,
            object_name: self.spec.name,
            owner,
            connection: self.spec.connection,
        }
    }
}

impl PostgresSchema {
    /// The reconcile request of a schema resource.
    pub fn reconcile_request(self) -> (request: ObjectRequest)
        ensures
            request.kind == ObjectKind::Schema,
            request.metadata == self.metadata,
            request.object_name == self.spec.schema,
            request.connection == self.spec.connection,
            request.owner == match self.spec.schema_owner {
                None => None,
                Some(PostgresSchemaOwner::ManagedRole(r)) => Some(ObjectOwner::ManagedRole(r)),
                Some(PostgresSchemaOwner::Name(n)) => Some(ObjectOwner::Name(n)),
            },
    {
        let owner = match self.spec.schema_owner {
            None => None,
            Some(PostgresSchemaOwner::ManagedRole(r)) => Some(ObjectOwner::ManagedRole(r)),
            Some(PostgresSchemaOwner::Name(n)) => Some(ObjectOwner::Name(n)),
        };
        ObjectRequest {
            kind: ObjectKind::Schema,
            metadata: self.metadata,
            object_name: self.spec.schema,
            owner,
            connection: self.spec.connection,
        }
    }
}

/// Where a database or schema reconcile stands: which answer it waits for.
#[derive(Debug, Clone, Copy, PartialEq, Eq)]
pub enum ObjectPhase {
    DropAwaitAdmin,
    DropAwaitConnected,
    DropAwaitStatement,
    DropAwaitFinalizer,
    AwaitFinalizer,
    AwaitRole,
    AwaitAdmin,
    AwaitConnected,
    AwaitOwner,
    AwaitStatement,
    Done,
}

/// The number of commands that a reconcile in this phase can still issue at
/// most.
pub open spec fn object_phase_rank(phase: ObjectPhase) -> nat {
    match phase {
        ObjectPhase::DropAwaitAdmin => 4,
        ObjectPhase::DropAwaitConnected => 3,
        ObjectPhase::DropAwaitStatement => 2,
        ObjectPhase::DropAwaitFinalizer => 1,
        ObjectPhase::AwaitFinalizer => 6,
        ObjectPhase::AwaitRole => 5,
        ObjectPhase::AwaitAdmin => 4,
        ObjectPhase::AwaitConnected => 3,
        ObjectPhase::AwaitOwner => 2,
        ObjectPhase::AwaitStatement => 1,
        ObjectPhase::Done => 0,
    }
}

/// The state of a database or schema reconcile.
pub struct ObjectReconcile {
    pub phase: ObjectPhase,
    /// The resource, as last read.
    pub request: ObjectRequest,
    /// The role name that should own the object, once resolved.
    pub desired_owner: Option<String>,
}

/// The namespace of a resource; "" for one without (a resource handed to the
/// reconciler is namespaced).
pub open spec fn namespace_of(meta: ResourceMeta) -> Seq<char> {
    match meta.namespace {
        Some(ns) => ns@,
        None => Seq::empty(),
    }
}

/// The command that looks up the admin connection of a request.
pub open spec fn fetch_admin_of<P>(request: ObjectRequest) -> CommandView<P> {
    CommandView::FetchAdminConnection {
        namespace: referenced_namespace(namespace_of(request.metadata), request.connection.namespace),
        name: request.connection.name@,
    }
}

/// The first command of a reconcile, and the state that waits for its
/// answer.
pub open spec fn object_start<P>(request: ObjectRequest) -> (ObjectReconcile, CommandView<P>) {
    if request.metadata.deletion_requested {
        (ObjectReconcile { phase: ObjectPhase::DropAwaitAdmin, request, desired_owner: None }, fetch_admin_of(request))
    } else {
        (ObjectReconcile { phase: ObjectPhase::AwaitFinalizer, request, desired_owner: None }, CommandView::EnsureFinalizer)
    }
}

/// The state with another phase.
pub open spec fn in_phase(s: ObjectReconcile, phase: ObjectPhase) -> ObjectReconcile {
    ObjectReconcile { phase, ..s }
}

/// The step that a looked-up admin connection leads to: connecting, or the
/// end of the reconcile with the error of the lookup.
pub open spec fn after_admin<P>(s: ObjectReconcile, admin: Option<crate::types::PostgresAdminConnectionSpec<P>>, next: ObjectPhase) -> (ObjectReconcile, CommandView<P>) {
    match prepared_connection(admin) {
        Err(m) => (in_phase(s, ObjectPhase::Done), CommandView::Finish { result: Err(m) }),
        Ok((settings, password)) => (in_phase(s, next), CommandView::Connect { settings, password }),
    }
}

/// The step after the current owner of the object was queried.
pub open spec fn after_owner<P>(s: ObjectReconcile, current: Option<String>) -> (ObjectReconcile, CommandView<P>) {
    let kind = s.request.kind;
    let name = s.request.object_name@;
    match (current, s.desired_owner) {
        (Some(_), None) => (in_phase(s, ObjectPhase::Done), CommandView::Finish { result: Ok(Action { requeue_after_secs: None }) }),
        (Some(cur), Some(owner)) => if cur@ == owner@ {
            (in_phase(s, ObjectPhase::Done), CommandView::Finish { result: Ok(Action { requeue_after_secs: None }) })
        } else {
            (in_phase(s, ObjectPhase::AwaitStatement), CommandView::Execute { sql: alter_owner_sql(kind, name, owner@) })
        },
        (None, None) => (in_phase(s, ObjectPhase::AwaitStatement), CommandView::Execute { sql: create_object_sql(kind, name) }),
        (None, Some(owner)) => (in_phase(s, ObjectPhase::AwaitStatement), CommandView::Execute { sql: create_owned_object_sql(kind, name, owner@) }),
    }
}

/// The number of seconds after which a reconcile is retried when the role
/// that should own the object does not exist yet.
pub const MISSING_ROLE_REQUEUE_SECS: u64 = 30;

/// The step after the finalizer was ensured on the (re-read) resource.
pub open spec fn after_finalizer<P>(request: ObjectRequest) -> (ObjectReconcile, CommandView<P>) {
    match request.owner {
        None => (ObjectReconcile { phase: ObjectPhase::AwaitAdmin, request, desired_owner: None }, fetch_admin_of(request)),
        Some(ObjectOwner::Name(n)) => (ObjectReconcile { phase: ObjectPhase::AwaitAdmin, request, desired_owner: Some(n) }, fetch_admin_of(request)),
        Some(ObjectOwner::ManagedRole(r)) => (
            ObjectReconcile { phase: ObjectPhase::AwaitRole, request, desired_owner: None },
            CommandView::FetchRole { namespace: referenced_namespace(namespace_of(request.metadata), r.namespace), name: r.name@ },
        ),
    }
}

/// What a reconcile does with the answer to its last command: its next
/// state and its next command.  A failed command ends the reconcile with the
/// failure.
pub open spec fn object_transition<P>(s: ObjectReconcile, e: Event<P, ObjectRequest>) -> (ObjectReconcile, CommandView<P>) {
    match e {
        Event::Failed(m) => (in_phase(s, ObjectPhase::Done), CommandView::Finish { result: Err(m@) }),
        _ => match s.phase {
            ObjectPhase::DropAwaitAdmin => match e {
                Event::AdminConnectionFetched(a) => after_admin(s, a, ObjectPhase::DropAwaitConnected),
                _ => (s, CommandView::EnsureFinalizer),
            },
            ObjectPhase::DropAwaitConnected => (in_phase(s, ObjectPhase::DropAwaitStatement), CommandView::Execute { sql: drop_object_sql(s.request.kind, s.request.object_name@) }),
            ObjectPhase::DropAwaitStatement => (in_phase(s, ObjectPhase::DropAwaitFinalizer), CommandView::RemoveFinalizer),
            ObjectPhase::DropAwaitFinalizer => (in_phase(s, ObjectPhase::Done), CommandView::Finish { result: Ok(Action { requeue_after_secs: None }) }),
            ObjectPhase::AwaitFinalizer => match e {
                Event::FinalizerEnsured(r) => after_finalizer(r),
                _ => (s, CommandView::EnsureFinalizer),
            },
            ObjectPhase::AwaitRole => match e {
                Event::RoleFetched(Some(role)) => (
                    ObjectReconcile { phase: ObjectPhase::AwaitAdmin, desired_owner: Some(role), ..s },
                    fetch_admin_of(s.request),
                ),
                _ => (in_phase(s, ObjectPhase::Done), CommandView::Finish { result: Ok(Action { requeue_after_secs: Some(MISSING_ROLE_REQUEUE_SECS) }) }),
            },
            ObjectPhase::AwaitAdmin => match e {
                Event::AdminConnectionFetched(a) => after_admin(s, a, ObjectPhase::AwaitConnected),
                _ => (s, CommandView::EnsureFinalizer),
            },
            ObjectPhase::AwaitConnected => (
                in_phase(s, ObjectPhase::AwaitOwner),
                CommandView::QueryOwner { sql: owner_query_sql(s.request.kind), parameter: s.request.object_name@ },
            ),
            ObjectPhase::AwaitOwner => match e {
                Event::OwnerFetched(current) => after_owner(s, current),
                _ => (s, CommandView::EnsureFinalizer),
            },
            ObjectPhase::AwaitStatement => (in_phase(s, ObjectPhase::Done), CommandView::Finish { result: Ok(Action { requeue_after_secs: None }) }),
            ObjectPhase::Done => (s, CommandView::EnsureFinalizer),
        },
    }
}

impl ObjectReconcile {
    /// The reconcile has ended.
    pub open spec fn is_done(self) -> bool {
        self.phase == ObjectPhase::Done
    }

    /// The event answers the command this reconcile waits for, and a
    /// re-read resource is namespaced.
    pub open spec fn accepts<P>(self, e: Event<P, ObjectRequest>) -> bool {
        match e {
            Event::Failed(_) => self.phase != ObjectPhase::Done,
            Event::Completed => self.phase == ObjectPhase::DropAwaitConnected
                || self.phase == ObjectPhase::DropAwaitStatement
                || self.phase == ObjectPhase::DropAwaitFinalizer
                || self.phase == ObjectPhase::AwaitConnected
                || self.phase == ObjectPhase::AwaitStatement,
            Event::FinalizerEnsured(r) => self.phase == ObjectPhase::AwaitFinalizer && r.metadata.namespace is Some,
            Event::RoleFetched(_) => self.phase == ObjectPhase::AwaitRole,
            Event::AdminConnectionFetched(_) => self.phase == ObjectPhase::DropAwaitAdmin || self.phase == ObjectPhase::AwaitAdmin,
            Event::OwnerFetched(_) => self.phase == ObjectPhase::AwaitOwner,
            _ => false,
        }
    }

    /// Once the resource is known to be namespaced (every phase but the wait
    /// for the finalizer and the end), its namespace is present.
    pub open spec fn wf(self) -> bool {
        self.phase != ObjectPhase::AwaitFinalizer && self.phase != ObjectPhase::Done ==> self.request.metadata.namespace is Some
    }

    /// At most how many more commands this reconcile issues.
    pub open spec fn rank(self) -> nat {
        object_phase_rank(self.phase)
    }

    /// Starts a reconcile of the resource: its first command, and the state
    /// that waits for the answer.  A resource whose deletion was requested
    /// must be namespaced.
    pub fn start<P>(request: ObjectRequest) -> (result: (ObjectReconcile, Command<P>))
        requires
            request.metadata.deletion_requested ==> request.metadata.namespace is Some,
        ensures
            (result.0, result.1@) == object_start::<P>(request),
            result.0.wf(),
    {
        if request.metadata.deletion_requested {
            let (namespace, name) = admin_connection_target(request.metadata.namespace.as_ref().unwrap(), &request.connection);
            let command = Command::FetchAdminConnection { namespace, name };
            (ObjectReconcile { phase: ObjectPhase::DropAwaitAdmin, request, desired_owner: None }, command)
        } else {
            (ObjectReconcile { phase: ObjectPhase::AwaitFinalizer, request, desired_owner: None }, Command::EnsureFinalizer)
        }
    }

    /// Connects through the admin connection that was looked up, or ends the
    /// reconcile with the lookup's error.
    fn connect_or_fail<P>(self, admin: Option<crate::types::PostgresAdminConnectionSpec<P>>, next: ObjectPhase) -> (result: (ObjectReconcile, Command<P>))
        requires
            self.request.metadata.namespace is Some,
        ensures
            result.0.wf(),
            (result.0, result.1@) == after_admin(self, admin, next),
    {
        match prepare_connection(admin) {
            Err(e) => (ObjectReconcile { phase: ObjectPhase::Done, ..self }, Command::Finish { result: Err(e) }),
            Ok((settings, password)) => (ObjectReconcile { phase: next, ..self }, Command::Connect { settings, password }),
        }
    }

    /// The command that looks up the admin connection of the resource.
    fn fetch_admin<P>(request: &ObjectRequest) -> (command: Command<P>)
        requires
            request.metadata.namespace is Some,
        ensures
            command@ == fetch_admin_of::<P>(*request),
    {
        let (namespace, name) = admin_connection_target(request.metadata.namespace.as_ref().unwrap(), &request.connection);
        Command::FetchAdminConnection { namespace, name }
    }

    /// Takes the answer to the last command: the next state and the next
    /// command.
    pub fn step<P>(self, event: Event<P, ObjectRequest>) -> (result: (ObjectReconcile, Command<P>))
        requires
            self.wf(),
            self.accepts(event),
        ensures
            (result.0, result.1@) == object_transition(self, event),
            result.0.wf(),
            result.0.rank() < self.rank(),
            result.0.is_done() <==> result.1 is Finish,
    {
        if let Event::Failed(message) = event {
            return (ObjectReconcile { phase: ObjectPhase::Done, ..self }, fail(message));
        }
        match self.phase {
            ObjectPhase::DropAwaitAdmin => match event {
                Event::AdminConnectionFetched(a) => self.connect_or_fail(a, ObjectPhase::DropAwaitConnected),
                _ => (self, Command::EnsureFinalizer),
            },
            ObjectPhase::DropAwaitConnected => {
                let sql = drop_object(self.request.kind, &self.request.object_name);
                (ObjectReconcile { phase: ObjectPhase::DropAwaitStatement, ..self }, Command::Execute { sql })
            },
            ObjectPhase::DropAwaitStatement => (ObjectReconcile { phase: ObjectPhase::DropAwaitFinalizer, ..self }, Command::RemoveFinalizer),
            ObjectPhase::DropAwaitFinalizer => (ObjectReconcile { phase: ObjectPhase::Done, ..self }, finish_await_change()),
            ObjectPhase::AwaitFinalizer => match event {
                Event::FinalizerEnsured(request) => {
                    match &request.owner {
                        None => {
                            let command = Self::fetch_admin(&request);
                            (ObjectReconcile { phase: ObjectPhase::AwaitAdmin, request, desired_owner: None }, command)
                        },
                        Some(ObjectOwner::Name(n)) => {
                            let owner = n.clone();
                            let command = Self::fetch_admin(&request);
                            (ObjectReconcile { phase: ObjectPhase::AwaitAdmin, request, desired_owner: Some(owner) }, command)
                        },
                        Some(ObjectOwner::ManagedRole(r)) => {
                            let namespace = resolve_namespace(request.metadata.namespace.as_ref().unwrap(), &r.namespace);
                            let command = Command::FetchRole { namespace, name: r.name.clone() };
                            (ObjectReconcile { phase: ObjectPhase::AwaitRole, request, desired_owner: None }, command)
                        },
                    }
                },
                _ => (self, Command::EnsureFinalizer),
            },
            ObjectPhase::AwaitRole => match event {
                Event::RoleFetched(Some(role)) => {
                    let command = Self::fetch_admin(&self.request);
                    (ObjectReconcile { phase: ObjectPhase::AwaitAdmin, desired_owner: Some(role), ..self }, command)
                },
                _ => (ObjectReconcile { phase: ObjectPhase::Done, ..self }, Command::Finish { result: Ok(Action::requeue(MISSING_ROLE_REQUEUE_SECS)) }),
            },
            ObjectPhase::AwaitAdmin => match event {
                Event::AdminConnectionFetched(a) => self.connect_or_fail(a, ObjectPhase::AwaitConnected),
                _ => (self, Command::EnsureFinalizer),
            },
            ObjectPhase::AwaitConnected => {
                let sql = owner_query(self.request.kind);
                let parameter = self.request.object_name.clone();
                (ObjectReconcile { phase: ObjectPhase::AwaitOwner, ..self }, Command::QueryOwner { sql, parameter })
            },
            ObjectPhase::AwaitOwner => match event {
                Event::OwnerFetched(current) => self.decide_owner(current),
                _ => (self, Command::EnsureFinalizer),
            },
            ObjectPhase::AwaitStatement => (ObjectReconcile { phase: ObjectPhase::Done, ..self }, finish_await_change()),
            ObjectPhase::Done => (self, Command::EnsureFinalizer),
        }
    }

    /// Decides, from the current owner of the object, what brings it to the
    /// desired state.
    fn decide_owner<P>(self, current: Option<String>) -> (result: (ObjectReconcile, Command<P>))
        requires
            self.request.metadata.namespace is Some,
        ensures
            result.0.wf(),
            (result.0, result.1@) == after_owner::<P>(self, current),
    {
        let kind = self.request.kind;
        match (current, &self.desired_owner) {
            (Some(_), None) => (ObjectReconcile { phase: ObjectPhase::Done, ..self }, finish_await_change()),
            (Some(cur), Some(owner)) => {
                if cur == *owner {
                    (ObjectReconcile { phase: ObjectPhase::Done, ..self }, finish_await_change())
                } else {
                    let sql = alter_owner(kind, &self.request.object_name, owner);
                    (ObjectReconcile { phase: ObjectPhase::AwaitStatement, ..self }, Command::Execute { sql })
                }
            },
            (None, None) => {
                let sql = create_object(kind, &self.request.object_name);
                (ObjectReconcile { phase: ObjectPhase::AwaitStatement, ..self }, Command::Execute { sql })
            },
            (None, Some(owner)) => {
                let sql = create_owned_object(kind, &self.request.object_name, owner);
                (ObjectReconcile { phase: ObjectPhase::AwaitStatement, ..self }, Command::Execute { sql })
            },
        }
    }
}

} // verus!
