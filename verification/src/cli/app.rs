//! Application management: the application record and its command set.

use vstd::prelude::*;

verus! {

/// A managed application.
#[derive(Debug)]
pub struct Application {
    /// Application identifier.
    pub id: String,
    /// Application name.
    pub name: String,
    /// Absolute path of the executable.
    pub path: String,
    /// Arguments passed at launch, if any.
    pub arguments: Option<Vec<String>>,
    /// Working directory, if any.
    pub working_dir: Option<String>,
    /// Whether the application may be launched.
    pub enabled: bool,
}

/// Application management commands.
#[derive(Debug, Clone)]
pub enum AppCommand {
    /// List available applications.
    List {
        /// Filter applications by name.
        filter: Option<String>,
    },
    /// Show application details.
    Show {
        /// Application ID or name.
        id: String,
    },
    /// Create a new application.
    Create {
        /// Application name.
        name: String,
        /// Application path (absolute path to executable).
        path: String,
        /// Application arguments.
        arguments: Option<Vec<String>>,
        /// Working directory.
        working_dir: Option<String>,
        /// Whether the application starts enabled.
        enabled: bool,
    },
    /// Update an application.
    Update {
        /// Application ID or name.
        id: String,
        /// New application name.
        name: Option<String>,
        /// New application path.
        path: Option<String>,
        /// New application arguments.
        arguments: Option<Vec<String>>,
        /// New working directory.
        working_dir: Option<String>,
        /// Enable or disable the application.
        enabled: Option<bool>,
    },
    /// Delete an application.
    Delete {
        /// Application ID or name.
        id: String,
    },
    /// Enable an application.
    Enable {
        /// Application ID or name.
        id: String,
    },
    /// Disable an application.
    Disable {
        /// Application ID or name.
        id: String,
    },
}

} // verus!
