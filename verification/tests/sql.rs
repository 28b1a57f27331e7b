use postgres_topology_operator::sql::{
    alter_owner, create_object, create_owned_object, drop_object, drop_owned, drop_role, grant,
    grant_connect, owner_query, revoke_database, role_exists, role_exists_before_drop, upsert_user,
    ObjectKind,
};

fn s(text: &str) -> String {
    text.to_string()
}

#[test]
fn database_statements() {
    assert_eq!(drop_object(ObjectKind::Database, &s("app")), "DROP DATABASE IF EXISTS app CASCADE");
    assert_eq!(alter_owner(ObjectKind::Database, &s("app"), &s("bob")), "ALTER DATABASE app OWNER TO bob");
    assert_eq!(create_object(ObjectKind::Database, &s("app")), "CREATE DATABASE IF NOT EXISTS app");
    assert_eq!(create_owned_object(ObjectKind::Database, &s("app"), &s("bob")), "CREATE DATABASE IF NOT EXISTS app OWNER = bob");
    assert!(owner_query(ObjectKind::Database).contains("WHERE d.datname = $1;"));
}

#[test]
fn schema_statements() {
    assert_eq!(drop_object(ObjectKind::Schema, &s("app")), "DROP SCHEMA IF EXISTS app CASCADE");
    assert_eq!(alter_owner(ObjectKind::Schema, &s("app"), &s("bob")), "ALTER SCHEMA app OWNER TO bob");
    assert_eq!(create_object(ObjectKind::Schema, &s("app")), "CREATE SCHEMA IF NOT EXISTS app");
    assert_eq!(create_owned_object(ObjectKind::Schema, &s("app"), &s("bob")), "CREATE SCHEMA IF NOT EXISTS app AUTHORIZATION bob");
    assert!(owner_query(ObjectKind::Schema).contains("WHERE n.nspname = $1;"));
}

#[test]
fn role_statements() {
    assert_eq!(role_exists_before_drop(), "SELECT FROM pg_roles WHERE rolname = $1");
    assert_eq!(role_exists(), "SELECT 1 FROM pg_roles WHERE rolname = $1");
    assert_eq!(revoke_database(&s("main"), &s("bob"), true), "REVOKE ALL PRIVILEGES ON DATABASE main FROM bob CASCADE");
    assert_eq!(revoke_database(&s("main"), &s("bob"), false), "REVOKE ALL PRIVILEGES ON DATABASE main FROM bob");
    assert_eq!(drop_owned(&s("bob")), "DROP OWNED BY bob CASCADE");
    assert_eq!(drop_role(&s("bob")), "DROP ROLE bob");
    assert_eq!(upsert_user(true, &s("bob"), &s("pw")), "ALTER USER bob WITH PASSWORD 'pw'");
    assert_eq!(upsert_user(false, &s("bob"), &s("pw")), "CREATE USER bob WITH PASSWORD 'pw'");
    assert_eq!(grant(&s("admin"), &s("bob")), "GRANT admin TO bob");
    assert_eq!(grant_connect(&s("main"), &s("bob")), "GRANT CONNECT ON DATABASE main TO bob");
}
