//! Verified decision logic of a Kubernetes operator that manages PostgreSQL
//! databases, schemas and roles.
//!
//! The reconcilers are written as state machines: each step takes the answer
//! to the previous command and decides the next command (a Kubernetes call, a
//! connection, an SQL statement, or the end of the reconcile).  The program
//! around the library performs the commands and feeds their results back.

pub mod types;
pub mod connection;
pub mod client_config;
pub mod sql;
pub mod reconcile;
pub mod owned_object;
pub mod role;
pub mod laws;
