use postgres_topology_operator::owned_object::{ObjectPhase, ObjectReconcile, ObjectRequest};
use postgres_topology_operator::reconcile::{error_policy, Command, Error, Event};
use postgres_topology_operator::types::{
    PostgresAdminConnectionReference, PostgresAdminConnectionSpec, PostgresDatabase,
    PostgresDatabaseOwner, PostgresDatabaseSpec, PostgresRoleReference, PostgresSchema,
    PostgresSchemaOwner, PostgresSchemaSpec, PostgresSslMode, ResourceMeta,
};

type Ev = Event<String, ObjectRequest>;

fn meta(deleting: bool) -> ResourceMeta {
    ResourceMeta {
        name: Some("res".to_string()),
        generate_name: None,
        namespace: Some("team".to_string()),
        uid: Some("uid-1".to_string()),
        deletion_requested: deleting,
    }
}

fn database(deleting: bool, owner: Option<PostgresDatabaseOwner>) -> ObjectRequest {
    PostgresDatabase {
        metadata: meta(deleting),
        spec: PostgresDatabaseSpec {
            name: "app".to_string(),
            database_owner: owner,
            connection: PostgresAdminConnectionReference { name: "admin".to_string(), namespace: None },
        },
        status: None,
    }
    .reconcile_request()
}

fn schema(owner: Option<PostgresSchemaOwner>) -> ObjectRequest {
    PostgresSchema {
        metadata: meta(false),
        spec: PostgresSchemaSpec {
            schema: "sales".to_string(),
            schema_owner: owner,
            connection: PostgresAdminConnectionReference { name: "admin".to_string(), namespace: Some("db".to_string()) },
        },
    }
    .reconcile_request()
}

fn admin() -> PostgresAdminConnectionSpec<String> {
    PostgresAdminConnectionSpec {
        host: "db.example".to_string(),
        port: 5432,
        username: "root".to_string(),
        password: "secret".to_string(),
        database: "defaultdb".to_string(),
        ssl_mode: PostgresSslMode::Disable,
        channel_binding: None,
        custom_root_certificate: None,
    }
}

fn step(state: ObjectReconcile, event: Ev) -> (ObjectReconcile, Command<String>) {
    state.step(event)
}

fn expect_execute(command: &Command<String>) -> String {
    match command {
        Command::Execute { sql } => sql.clone(),
        _ => panic!("expected a statement"),
    }
}

fn finished(command: Command<String>) -> Result<Option<u64>, String> {
    match command {
        Command::Finish { result } => result.map(|a| a.requeue_after_secs).map_err(|e: Error| e.message),
        _ => panic!("expected the end of the reconcile"),
    }
}

/// Runs the apply path up to the owner query.
fn to_owner_query(request: ObjectRequest, role: Option<&str>) -> ObjectReconcile {
    let reread = request.clone();
    let (s, c) = ObjectReconcile::start::<String>(request);
    assert!(matches!(c, Command::EnsureFinalizer));
    let (s, c) = step(s, Event::FinalizerEnsured(reread));
    let s = match c {
        Command::FetchRole { .. } => {
            let (s, c) = step(s, Event::RoleFetched(role.map(|r| r.to_string())));
            assert!(matches!(c, Command::FetchAdminConnection { .. }));
            s
        },
        Command::FetchAdminConnection { .. } => s,
        _ => panic!("unexpected command"),
    };
    let (s, c) = step(s, Event::AdminConnectionFetched(Some(admin())));
    assert!(matches!(c, Command::Connect { .. }));
    let (s, c) = step(s, Event::Completed);
    assert!(matches!(c, Command::QueryOwner { .. }));
    s
}

#[test]
fn database_deletion_drops_then_removes_finalizer() {
    let (s, c) = ObjectReconcile::start::<String>(database(true, None));
    match &c {
        Command::FetchAdminConnection { namespace, name } => {
            assert_eq!(namespace, "team");
            assert_eq!(name, "admin");
        },
        _ => panic!("expected the admin connection lookup"),
    }
    let (s, c) = step(s, Event::AdminConnectionFetched(Some(admin())));
    match &c {
        Command::Connect { settings, password } => {
            assert_eq!(settings.host, "db.example");
            assert_eq!(password, "secret");
        },
        _ => panic!("expected a connection"),
    }
    let (s, c) = step(s, Event::Completed);
    assert_eq!(expect_execute(&c), "DROP DATABASE IF EXISTS app CASCADE");
    let (s, c) = step(s, Event::Completed);
    assert!(matches!(c, Command::RemoveFinalizer));
    let (s, c) = step(s, Event::Completed);
    assert_eq!(finished(c), Ok(None));
    assert_eq!(s.phase, ObjectPhase::Done);
}

#[test]
fn database_deletion_failure_keeps_finalizer() {
    let (s, _) = ObjectReconcile::start::<String>(database(true, None));
    let (s, _) = step(s, Event::AdminConnectionFetched(Some(admin())));
    let (s, _) = step(s, Event::Completed);
    let (s, c) = step(s, Event::Failed("permission denied".to_string()));
    assert_eq!(finished(c), Err("permission denied".to_string()));
    assert_eq!(s.phase, ObjectPhase::Done);
}

#[test]
fn missing_admin_connection_ends_with_error() {
    let (s, _) = ObjectReconcile::start::<String>(database(true, None));
    let (_, c) = step(s, Event::AdminConnectionFetched(None));
    assert_eq!(finished(c), Err("Could not find postgres admin connection kubernetes object".to_string()));
}

#[test]
fn database_is_created_without_owner() {
    let s = to_owner_query(database(false, None), None);
    let (s, c) = step(s, Event::OwnerFetched(None));
    assert_eq!(expect_execute(&c), "CREATE DATABASE IF NOT EXISTS app");
    let (_, c) = step(s, Event::Completed);
    assert_eq!(finished(c), Ok(None));
}

#[test]
fn database_is_created_with_named_owner() {
    let s = to_owner_query(database(false, Some(PostgresDatabaseOwner::Name("bob".to_string()))), None);
    let (_, c) = step(s, Event::OwnerFetched(None));
    assert_eq!(expect_execute(&c), "CREATE DATABASE IF NOT EXISTS app OWNER = bob");
}

#[test]
fn database_owner_is_changed() {
    let s = to_owner_query(database(false, Some(PostgresDatabaseOwner::Name("bob".to_string()))), None);
    let (_, c) = step(s, Event::OwnerFetched(Some("alice".to_string())));
    assert_eq!(expect_execute(&c), "ALTER DATABASE app OWNER TO bob");
}

#[test]
fn database_with_right_owner_is_left_alone() {
    let s = to_owner_query(database(false, Some(PostgresDatabaseOwner::Name("bob".to_string()))), None);
    let (s, c) = step(s, Event::OwnerFetched(Some("bob".to_string())));
    assert_eq!(finished(c), Ok(None));
    assert_eq!(s.phase, ObjectPhase::Done);
    let s = to_owner_query(database(false, None), None);
    let (_, c) = step(s, Event::OwnerFetched(Some("anyone".to_string())));
    assert_eq!(finished(c), Ok(None));
}

#[test]
fn managed_role_owner_is_looked_up() {
    let owner = PostgresDatabaseOwner::ManagedRole(PostgresRoleReference { name: "app-role".to_string(), namespace: Some("roles".to_string()) });
    let request = database(false, Some(owner));
    let reread = request.clone();
    let (s, _) = ObjectReconcile::start::<String>(request);
    let (s, c) = step(s, Event::FinalizerEnsured(reread));
    match &c {
        Command::FetchRole { namespace, name } => {
            assert_eq!(namespace, "roles");
            assert_eq!(name, "app-role");
        },
        _ => panic!("expected the role lookup"),
    }
    let (s, _) = step(s, Event::RoleFetched(Some("app_user".to_string())));
    let (s, _) = step(s, Event::AdminConnectionFetched(Some(admin())));
    let (s, _) = step(s, Event::Completed);
    let (_, c) = step(s, Event::OwnerFetched(Some("root".to_string())));
    assert_eq!(expect_execute(&c), "ALTER DATABASE app OWNER TO app_user");
}

#[test]
fn missing_managed_role_requeues_after_thirty_seconds() {
    let owner = PostgresDatabaseOwner::ManagedRole(PostgresRoleReference { name: "app-role".to_string(), namespace: None });
    let request = database(false, Some(owner));
    let reread = request.clone();
    let (s, _) = ObjectReconcile::start::<String>(request);
    let (s, c) = step(s, Event::FinalizerEnsured(reread));
    match &c {
        Command::FetchRole { namespace, .. } => assert_eq!(namespace, "team"),
        _ => panic!("expected the role lookup"),
    }
    let (s, c) = step(s, Event::RoleFetched(None));
    assert_eq!(finished(c), Ok(Some(30)));
    assert_eq!(s.phase, ObjectPhase::Done);
}

#[test]
fn schema_is_created_with_authorization() {
    let s = to_owner_query(schema(Some(PostgresSchemaOwner::Name("bob".to_string()))), None);
    let (_, c) = step(s, Event::OwnerFetched(None));
    assert_eq!(expect_execute(&c), "CREATE SCHEMA IF NOT EXISTS sales AUTHORIZATION bob");
}

#[test]
fn schema_owner_query_uses_schema_name() {
    let s = to_owner_query(schema(None), None);
    assert_eq!(s.request.object_name, "sales");
    let (_, c) = step(s, Event::OwnerFetched(None));
    assert_eq!(expect_execute(&c), "CREATE SCHEMA IF NOT EXISTS sales");
}

#[test]
fn schema_admin_connection_uses_named_namespace() {
    let request = schema(None);
    let reread = request.clone();
    let (s, _) = ObjectReconcile::start::<String>(request);
    let (_, c) = step(s, Event::FinalizerEnsured(reread));
    match &c {
        Command::FetchAdminConnection { namespace, .. } => assert_eq!(namespace, "db"),
        _ => panic!("expected the admin connection lookup"),
    }
}

#[test]
fn finalizer_failure_ends_reconcile() {
    let (s, _) = ObjectReconcile::start::<String>(database(false, None));
    let (s, c) = step(s, Event::Failed("conflict".to_string()));
    assert_eq!(finished(c), Err("conflict".to_string()));
    assert_eq!(s.phase, ObjectPhase::Done);
}

#[test]
fn failed_reconciles_are_retried_after_fifteen_seconds() {
    let action = error_policy(&Error { message: "any".to_string() });
    assert_eq!(action.requeue_after_secs, Some(15));
}
