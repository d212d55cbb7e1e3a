//! The CLI data model: configuration, command grammar, output formatting
//! and the service client's connection settings.

pub mod app;
pub mod config;
pub mod confirmation;
pub mod error;
pub mod service;
pub mod types;
pub mod utils;
pub mod utils_backup;
