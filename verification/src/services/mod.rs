//! The document store, the version ledger and the notification service.

pub mod contacts;
pub mod files;
pub mod git;
pub mod layout;
pub mod listing;
pub mod matrix;
pub mod storage;
