//! Persistence and versioning core of a personal mood tracker.
//!
//! The crate holds the rules of a directory-partitioned document store and of
//! the ledger that snapshots it, stated as contracts over plain values. Disk,
//! network and repository access stay with the caller, which hands in what it
//! read and carries out what the library decides.

pub mod auth;
pub mod clock;
pub mod config;
pub mod error;
pub mod ids;
pub mod models;
pub mod routes;
pub mod services;
pub mod state;
pub mod text;
