//! The records that the store persists and the account data around them.

pub mod checkin;
pub mod session;
pub mod settings;
pub mod trip;
pub mod user;
