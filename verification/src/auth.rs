//! The authentication core: providers, factory, manager and the shared
//! group-to-permission mapping.

pub mod factory;
pub mod identity;
pub mod manager;
pub mod improved_native;
pub mod mock_provider;
pub mod native;
pub mod permissions;
