//! What the pages of the application compute before anything is rendered.

pub mod admin;
pub mod public;
pub mod user;
