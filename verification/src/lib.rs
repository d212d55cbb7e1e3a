//! Authentication and authorization core for a remote-access daemon.
//!
//! The crate validates presented credentials against one of several
//! interchangeable identity backends and translates backend-specific group
//! information into a normalized permission set.  The central pieces are the
//! provider variants (mock, native OS-group based), the provider factory, the
//! [`auth::manager::AuthManager`] orchestration layer with its
//! fallback-to-internal semantics, and the shared group-to-permission mapping
//! algorithm.  Around that core sit the daemon's plain configuration and
//! status types and the CLI data model.

pub mod api;
pub mod auth;
pub mod cli;
pub mod config;
pub mod error;
pub mod manager;
pub mod platform;
pub mod server;
pub mod strutil;
pub mod user;
