//! Server-side data model: users, configuration and errors.

pub mod config;
pub mod error;
pub mod session;
pub mod user;
