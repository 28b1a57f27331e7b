//! The SQL that the reconcilers send to PostgreSQL.
//!
//! Names and passwords are placed into the statements as they are written in
//! the resources, without quoting.

use vstd::prelude::*;

verus! {

/// The kind of object that a database or schema resource manages.
#[derive(Debug, Clone, Copy, PartialEq, Eq)]
pub enum ObjectKind {
    Database,
    Schema,
}

/// `prefix` followed by `a`.
fn join1(prefix: &str, a: &String) -> (s: String)
    ensures
        s@ == prefix@ + a@,
{
    let mut s = String::from_str(prefix);
    s.append(a.as_str());
    s
}

/// `prefix`, `a`, `infix`, `b`, in that order.
fn join2(prefix: &str, a: &String, infix: &str, b: &String) -> (s: String)
    ensures
        s@ == prefix@ + a@ + infix@ + b@,
{
    let mut s = String::from_str(prefix);
    s.append(a.as_str());
    s.append(infix);
    s.append(b.as_str());
    s
}

/// The query for the current owner of an object, with the object's name as
/// its parameter.
pub open spec fn owner_query_sql(kind: ObjectKind) -> Seq<char> {
    match kind {
        ObjectKind::Database => "\n        SELECT a.rolname\n        FROM pg_catalog.pg_database d\n        JOIN pg_catalog.pg_roles a ON d.datdba = a.oid\n        WHERE d.datname = $1;\n    "@,
        ObjectKind::Schema => "\n        SELECT\n          r.rolname AS schema_owner\n        FROM pg_catalog.pg_namespace AS n\n        JOIN pg_catalog.pg_roles AS r ON n.nspowner = r.oid\n        WHERE n.nspname = $1;\n    "@,
    }
}

/// The statement that removes an object, and everything in it.
pub open spec fn drop_object_sql(kind: ObjectKind, name: Seq<char>) -> Seq<char> {
    match kind {
        ObjectKind::Database => "DROP DATABASE IF EXISTS "@ + name + " CASCADE"@,
        ObjectKind::Schema => "DROP SCHEMA IF EXISTS "@ + name + " CASCADE"@,
    }
}

/// The statement that hands an object to a new owner.
pub open spec fn alter_owner_sql(kind: ObjectKind, name: Seq<char>, owner: Seq<char>) -> Seq<char> {
    match kind {
        ObjectKind::Database => "ALTER DATABASE "@ + name + " OWNER TO "@ + owner,
        ObjectKind::Schema => "ALTER SCHEMA "@ + name + " OWNER TO "@ + owner,
    }
}

/// The statement that creates an object, with the admin user as owner.
pub open spec fn create_object_sql(kind: ObjectKind, name: Seq<char>) -> Seq<char> {
    match kind {
        ObjectKind::Database => "CREATE DATABASE IF NOT EXISTS "@ + name,
        ObjectKind::Schema => "CREATE SCHEMA IF NOT EXISTS "@ + name,
    }
}

/// The statement that creates an object with the given owner.
pub open spec fn create_owned_object_sql(kind: ObjectKind, name: Seq<char>, owner: Seq<char>) -> Seq<char> {
    match kind {
        ObjectKind::Database => "CREATE DATABASE IF NOT EXISTS "@ + name + " OWNER = "@ + owner,
        ObjectKind::Schema => "CREATE SCHEMA IF NOT EXISTS "@ + name + " AUTHORIZATION "@ + owner,
    }
}

/// The query for the current owner of an object.
pub fn owner_query(kind: ObjectKind) -> (sql: String)
    ensures
        sql@ == owner_query_sql(kind),
{
    match kind {
        ObjectKind::Database => String::from_str("\n        SELECT a.rolname\n        FROM pg_catalog.pg_database d\n        JOIN pg_catalog.pg_roles a ON d.datdba = a.oid\n        WHERE d.datname = $1;\n    "),
        ObjectKind::Schema => String::from_str("\n        SELECT\n          r.rolname AS schema_owner\n        FROM pg_catalog.pg_namespace AS n\n        JOIN pg_catalog.pg_roles AS r ON n.nspowner = r.oid\n        WHERE n.nspname = $1;\n    "),
    }
}

/// The statement that removes an object.
pub fn drop_object(kind: ObjectKind, name: &String) -> (sql: String)
    ensures
        sql@ == drop_object_sql(kind, name@),
{
    let mut s = match kind {
        ObjectKind::Database => join1("DROP DATABASE IF EXISTS ", name),
        ObjectKind::Schema => join1("DROP SCHEMA IF EXISTS ", name),
    };
    s.append(" CASCADE");
    s
}

/// The statement that hands an object to `owner`.
pub fn alter_owner(kind: ObjectKind, name: &String, owner: &String) -> (sql: String)
    ensures
        sql@ == alter_owner_sql(kind, name@, owner@),
{
    match kind {
        ObjectKind::Database => join2("ALTER DATABASE ", name, " OWNER TO ", owner),
        ObjectKind::Schema => join2("ALTER SCHEMA ", name, " OWNER TO ", owner),
    }
}

/// The statement that creates an object.
pub fn create_object(kind: ObjectKind, name: &String) -> (sql: String)
    ensures
        sql@ == create_object_sql(kind, name@),
{
    match kind {
        ObjectKind::Database => join1("CREATE DATABASE IF NOT EXISTS ", name),
        ObjectKind::Schema => join1("CREATE SCHEMA IF NOT EXISTS ", name),
    }
}

/// The statement that creates an object owned by `owner`.
pub fn create_owned_object(kind: ObjectKind, name: &String, owner: &String) -> (sql: String)
    ensures
        sql@ == create_owned_object_sql(kind, name@, owner@),
{
    match kind {
        ObjectKind::Database => join2("CREATE DATABASE IF NOT EXISTS ", name, " OWNER = ", owner),
        ObjectKind::Schema => join2("CREATE SCHEMA IF NOT EXISTS ", name, " AUTHORIZATION ", owner),
    }
}

/// The query whether a role exists, used before dropping it.
pub open spec fn role_exists_before_drop_sql() -> Seq<char> {
    "SELECT FROM pg_roles WHERE rolname = $1"@
}

/// The query whether a role exists, used before creating or updating it.
pub open spec fn role_exists_sql() -> Seq<char> {
    "SELECT 1 FROM pg_roles WHERE rolname = $1"@
}

/// The statement that revokes all of a role's privileges on a database,
/// with `CASCADE` or without.
pub open spec fn revoke_database_sql(database: Seq<char>, role: Seq<char>, cascade: bool) -> Seq<char> {
    if cascade {
        "REVOKE ALL PRIVILEGES ON DATABASE "@ + database + " FROM "@ + role + " CASCADE"@
    } else {
        "REVOKE ALL PRIVILEGES ON DATABASE "@ + database + " FROM "@ + role
    }
}

/// The statement that drops every object a role owns.
pub open spec fn drop_owned_sql(role: Seq<char>) -> Seq<char> {
    "DROP OWNED BY "@ + role + " CASCADE"@
}

/// The statement that drops a role.
pub open spec fn drop_role_sql(role: Seq<char>) -> Seq<char> {
    "DROP ROLE "@ + role
}

/// The statement that sets the password of a role: `ALTER USER` for a role
/// that exists, `CREATE USER` for one that does not.
pub open spec fn upsert_user_sql(exists: bool, role: Seq<char>, password_text: Seq<char>) -> Seq<char> {
    if exists {
        "ALTER USER "@ + role + " WITH PASSWORD '"@ + password_text + "'"@
    } else {
        "CREATE USER "@ + role + " WITH PASSWORD '"@ + password_text + "'"@
    }
}

/// The statement that grants `granted` to `grantee`.
pub open spec fn grant_sql(granted: Seq<char>, grantee: Seq<char>) -> Seq<char> {
    "GRANT "@ + granted + " TO "@ + grantee
}

/// The statement that lets a role connect to a database.
pub open spec fn grant_connect_sql(database: Seq<char>, role: Seq<char>) -> Seq<char> {
    "GRANT CONNECT ON DATABASE "@ + database + " TO "@ + role
}

/// The query whether a role exists, before dropping it.
pub fn role_exists_before_drop() -> (sql: String)
    ensures
        sql@ == role_exists_before_drop_sql(),
{
    String::from_str("SELECT FROM pg_roles WHERE rolname = $1")
}

/// The query whether a role exists, before setting its password.
pub fn role_exists() -> (sql: String)
    ensures
        sql@ == role_exists_sql(),
{
    String::from_str("SELECT 1 FROM pg_roles WHERE rolname = $1")
}

/// The statement that revokes a role's privileges on a database.
pub fn revoke_database(database: &String, role: &String, cascade: bool) -> (sql: String)
    ensures
        sql@ == revoke_database_sql(database@, role@, cascade),
{
    let mut s = join2("REVOKE ALL PRIVILEGES ON DATABASE ", database, " FROM ", role);
    if cascade {
        s.append(" CASCADE");
    }
    s
}

/// The statement that drops everything a role owns.
pub fn drop_owned(role: &String) -> (sql: String)
    ensures
        sql@ == drop_owned_sql(role@),
{
    let mut s = join1("DROP OWNED BY ", role);
    s.append(" CASCADE");
    s
}

/// The statement that drops a role.
pub fn drop_role(role: &String) -> (sql: String)
    ensures
        sql@ == drop_role_sql(role@),
{
    join1("DROP ROLE ", role)
}

/// The statement that creates a role, or updates it, with a password.
pub fn upsert_user(exists: bool, role: &String, password_text: &String) -> (sql: String)
    ensures
        sql@ == upsert_user_sql(exists, role@, password_text@),
{
    let mut s = if exists {
        join2("ALTER USER ", role, " WITH PASSWORD '", password_text)
    } else {
        join2("CREATE USER ", role, " WITH PASSWORD '", password_text)
    };
    s.append("'");
    s
}

/// The statement that grants `granted` to `grantee`.
pub fn grant(granted: &String, grantee: &String) -> (sql: String)
    ensures
        sql@ == grant_sql(granted@, grantee@),
{
    join2("GRANT ", granted, " TO ", grantee)
}

/// The statement that lets a role connect to a database.
pub fn grant_connect(database: &String, role: &String) -> (sql: String)
    ensures
        sql@ == grant_connect_sql(database@, role@),
{
    join2("GRANT CONNECT ON DATABASE ", database, " TO ", role)
}

} // verus!
