//! Verified core of a PostgreSQL extension that blocks DDL statements while a
//! logical-replication migration is running.
//!
//! The library decides; the extension glue (hook registration, catalog lookups,
//! raising errors) lives outside it and hands the library plain values.
pub mod hook;
pub mod message;
pub mod state;
pub mod statement;
pub mod text;
