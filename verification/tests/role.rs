use postgres_topology_operator::reconcile::{Command, Event};
use postgres_topology_operator::role::{RolePhase, RoleReconcile};
use postgres_topology_operator::types::postgres_role::{reusable_password_text, with_encoded_password};
use postgres_topology_operator::types::{
    PostgresAdminConnectionReference, PostgresAdminConnectionSpec, PostgresRole, PostgresRoleSpec,
    PostgresRoleStatus, PostgresSslMode, ResourceMeta, StatusEncodedPassword,
};

type Role = PostgresRole<String, String>;
type State = RoleReconcile<String, String>;

fn role(deleting: bool, status: Option<PostgresRoleStatus<String>>) -> Role {
    PostgresRole {
        metadata: ResourceMeta {
            name: Some("app-role".to_string()),
            generate_name: None,
            namespace: Some("team".to_string()),
            uid: Some("uid-7".to_string()),
            deletion_requested: deleting,
        },
        spec: PostgresRoleSpec {
            role: "app_user".to_string(),
            password: "hunter2".to_string(),
            register_in_pg_bouncer: None,
            grant_role_to_admin_user: None,
            connection: PostgresAdminConnectionReference { name: "admin".to_string(), namespace: None },
            extra_roles: None,
        },
        status,
    }
}

fn admin() -> PostgresAdminConnectionSpec<String> {
    PostgresAdminConnectionSpec {
        host: "db.example".to_string(),
        port: 5432,
        username: "root".to_string(),
        password: "secret".to_string(),
        database: "defaultdb".to_string(),
        ssl_mode: PostgresSslMode::Require,
        channel_binding: None,
        custom_root_certificate: None,
    }
}

fn step(state: State, event: Event<String, Role>) -> (State, Command<String>) {
    state.step(event)
}

fn sql(command: &Command<String>) -> String {
    match command {
        Command::Execute { sql } => sql.clone(),
        _ => panic!("expected a statement"),
    }
}

fn stored(encoded: &str, original: &str) -> Option<PostgresRoleStatus<String>> {
    Some(PostgresRoleStatus {
        encoded_password: Some(StatusEncodedPassword { original: original.to_string(), encoded: encoded.to_string() }),
    })
}

/// Runs the deletion path up to the existence check.
fn deletion_to_exists() -> State {
    let (s, c) = State::start(role(true, None));
    assert!(matches!(c, Command::FetchAdminConnection { .. }));
    let (s, _) = step(s, Event::AdminConnectionFetched(Some(admin())));
    let (s, c) = step(s, Event::Completed);
    match &c {
        Command::QueryExists { sql, parameter } => {
            assert_eq!(sql, "SELECT FROM pg_roles WHERE rolname = $1");
            assert_eq!(parameter, "app_user");
        },
        _ => panic!("expected the existence query"),
    }
    s
}

#[test]
fn role_deletion_revokes_drops_and_removes_finalizer() {
    let s = deletion_to_exists();
    let (s, c) = step(s, Event::ExistenceChecked(true));
    assert_eq!(sql(&c), "REVOKE ALL PRIVILEGES ON DATABASE defaultdb FROM app_user CASCADE");
    let (s, c) = step(s, Event::Completed);
    assert_eq!(sql(&c), "DROP OWNED BY app_user CASCADE");
    let (s, c) = step(s, Event::Completed);
    assert_eq!(sql(&c), "DROP ROLE app_user");
    let (s, c) = step(s, Event::Completed);
    assert!(matches!(c, Command::RemoveFinalizer));
    let (s, c) = step(s, Event::Completed);
    assert!(matches!(c, Command::Finish { result: Ok(_) }));
    assert_eq!(s.phase, RolePhase::Done);
}

#[test]
fn role_deletion_retries_revoke_without_cascade() {
    let s = deletion_to_exists();
    let (s, _) = step(s, Event::ExistenceChecked(true));
    let (s, c) = step(s, Event::Failed("cascade not supported".to_string()));
    assert_eq!(sql(&c), "REVOKE ALL PRIVILEGES ON DATABASE defaultdb FROM app_user");
    let (s, c) = step(s, Event::Failed("still failing".to_string()));
    assert_eq!(sql(&c), "DROP OWNED BY app_user CASCADE");
    let (_, c) = step(s, Event::Failed("cannot drop".to_string()));
    match c {
        Command::Finish { result: Err(e) } => assert_eq!(e.message, "cannot drop"),
        _ => panic!("expected the end with an error"),
    }
}

#[test]
fn absent_role_only_loses_finalizer() {
    let s = deletion_to_exists();
    let (s, c) = step(s, Event::ExistenceChecked(false));
    assert!(matches!(c, Command::RemoveFinalizer));
    let (_, c) = step(s, Event::Completed);
    assert!(matches!(c, Command::Finish { result: Ok(a) } if a.requeue_after_secs.is_none()));
}

/// Runs the apply path from a stored status up to the connection.
fn apply_to_connected(resource: Role, patched: Role) -> State {
    let reread = resource.clone();
    let (s, c) = State::start(resource);
    assert!(matches!(c, Command::EnsureFinalizer));
    let (s, c) = step(s, Event::FinalizerEnsured(reread));
    let s = match c {
        Command::EncodePassword { role } => {
            assert_eq!(role, "app_user");
            let (s, c) = step(s, Event::PasswordEncoded("SCRAM-new".to_string()));
            assert!(matches!(c, Command::PatchStatus { .. }));
            s
        },
        Command::PatchStatus { .. } => s,
        _ => panic!("unexpected command"),
    };
    let (s, c) = step(s, Event::StatusPatched(patched));
    assert!(matches!(c, Command::FetchAdminConnection { .. }));
    let (s, _) = step(s, Event::AdminConnectionFetched(Some(admin())));
    let (s, c) = step(s, Event::Completed);
    match &c {
        Command::QueryExists { sql, .. } => assert_eq!(sql, "SELECT 1 FROM pg_roles WHERE rolname = $1"),
        _ => panic!("expected the existence query"),
    }
    s
}

#[test]
fn stored_encoding_is_reused_for_unchanged_password() {
    let r = role(false, stored("SCRAM-old", "hunter2"));
    let reread = r.clone();
    let (s, _) = State::start(r);
    let (s, c) = step(s, Event::FinalizerEnsured(reread));
    match c {
        Command::PatchStatus { status } => {
            let e = status.encoded_password.unwrap();
            assert_eq!(e.encoded, "SCRAM-old");
            assert_eq!(e.original, "hunter2");
        },
        _ => panic!("expected the status to be stored"),
    }
    assert_eq!(s.password_text, "SCRAM-old");
}

#[test]
fn changed_password_is_encoded_again() {
    let r = role(false, stored("SCRAM-old", "previous"));
    let reread = r.clone();
    let (s, _) = State::start(r);
    let (s, c) = step(s, Event::FinalizerEnsured(reread));
    assert!(matches!(c, Command::EncodePassword { .. }));
    let (s, c) = step(s, Event::PasswordEncoded("SCRAM-new".to_string()));
    match c {
        Command::PatchStatus { status } => {
            let e = status.encoded_password.unwrap();
            assert_eq!(e.encoded, "SCRAM-new");
            assert_eq!(e.original, "hunter2");
        },
        _ => panic!("expected the status to be stored"),
    }
    assert_eq!(s.password_text, "SCRAM-new");
}

#[test]
fn new_role_is_created_and_allowed_to_connect() {
    let s = apply_to_connected(role(false, None), role(false, None));
    let (s, c) = step(s, Event::ExistenceChecked(false));
    assert_eq!(sql(&c), "CREATE USER app_user WITH PASSWORD 'SCRAM-new'");
    let (s, c) = step(s, Event::Completed);
    assert_eq!(sql(&c), "GRANT CONNECT ON DATABASE defaultdb TO app_user");
    let (s, c) = step(s, Event::Completed);
    assert!(matches!(c, Command::Finish { result: Ok(_) }));
    assert_eq!(s.phase, RolePhase::Done);
}

#[test]
fn existing_role_gets_password_grants_and_registration() {
    let mut patched = role(false, stored("SCRAM-old", "hunter2"));
    patched.spec.grant_role_to_admin_user = Some(true);
    patched.spec.extra_roles = Some(vec!["readers".to_string(), "writers".to_string()]);
    patched.spec.register_in_pg_bouncer = Some("bouncer".to_string());
    let s = apply_to_connected(role(false, stored("SCRAM-old", "hunter2")), patched);
    let (s, c) = step(s, Event::ExistenceChecked(true));
    assert_eq!(sql(&c), "ALTER USER app_user WITH PASSWORD 'SCRAM-old'");
    let (s, c) = step(s, Event::Completed);
    assert_eq!(sql(&c), "GRANT app_user TO root");
    let (s, c) = step(s, Event::Completed);
    assert_eq!(sql(&c), "GRANT readers TO app_user");
    let (s, c) = step(s, Event::Completed);
    assert_eq!(sql(&c), "GRANT writers TO app_user");
    let (s, c) = step(s, Event::Completed);
    assert_eq!(sql(&c), "GRANT CONNECT ON DATABASE defaultdb TO app_user");
    let (s, c) = step(s, Event::Completed);
    match &c {
        Command::RegisterInPgBouncer { registration } => {
            assert_eq!(registration.namespace, "team");
            assert_eq!(registration.name, "app-role");
            assert_eq!(registration.owner_name, "app-role");
            assert_eq!(registration.owner_uid, "uid-7");
            assert_eq!(registration.username, "app_user");
            assert_eq!(registration.password_text, "SCRAM-old");
        },
        _ => panic!("expected the PgBouncer registration"),
    }
    let (s, c) = step(s, Event::Completed);
    assert!(matches!(c, Command::Finish { result: Ok(_) }));
    assert_eq!(s.phase, RolePhase::Done);
}

#[test]
fn grant_to_admin_only_when_asked() {
    let mut patched = role(false, None);
    patched.spec.grant_role_to_admin_user = Some(false);
    let s = apply_to_connected(role(false, None), patched);
    let (s, _) = step(s, Event::ExistenceChecked(false));
    let (_, c) = step(s, Event::Completed);
    assert_eq!(sql(&c), "GRANT CONNECT ON DATABASE defaultdb TO app_user");
}

#[test]
fn role_statement_failure_ends_reconcile() {
    let s = apply_to_connected(role(false, None), role(false, None));
    let (s, _) = step(s, Event::ExistenceChecked(false));
    let (s, c) = step(s, Event::Failed("syntax error".to_string()));
    match c {
        Command::Finish { result: Err(e) } => assert_eq!(e.message, "syntax error"),
        _ => panic!("expected the end with an error"),
    }
    assert_eq!(s.phase, RolePhase::Done);
}

#[test]
fn password_reuse_needs_equal_original() {
    let status = stored("SCRAM-old", "hunter2");
    assert_eq!(reusable_password_text(&status, &"hunter2".to_string()), Some("SCRAM-old".to_string()));
    assert_eq!(reusable_password_text(&status, &"other".to_string()), None);
    assert_eq!(reusable_password_text::<String>(&None, &"hunter2".to_string()), None);
    let empty = Some(PostgresRoleStatus::<String> { encoded_password: None });
    assert_eq!(reusable_password_text(&empty, &"hunter2".to_string()), None);
}

#[test]
fn recorded_encoding_is_reused_next_time() {
    let status = with_encoded_password(stored("x", "y"), "hunter2".to_string(), "SCRAM".to_string());
    assert_eq!(reusable_password_text(&Some(status), &"hunter2".to_string()), Some("SCRAM".to_string()));
    let created = with_encoded_password::<String>(None, "p".to_string(), "e".to_string());
    assert_eq!(created.encoded_password.unwrap().encoded, "e");
}
