//! The CLI command grammar.

use vstd::prelude::*;

verus! {

/// Daemon commands.
#[derive(Debug, Clone)]
pub enum DaemonCommand {
    /// Start the daemon.
    Start,
    /// Stop the daemon.
    Stop,
    /// Restart the daemon.
    Restart,
    /// Show daemon status.
    Status,
}

/// Service commands.
#[derive(Debug, Clone)]
pub enum ServiceCommand {
    /// Display service status.
    Status,
    /// Start the service.
    Start,
    /// Stop the service.
    Stop,
    /// Restart the service.
    Restart,
    /// Install the service.
    Install,
    /// Uninstall the service.
    Uninstall,
    /// Display service logs.
    Logs {
        /// Number of lines to display.
        lines: usize,
        /// Follow log output.
        follow: bool,
    },
}

/// Server commands.
#[derive(Debug, Clone)]
pub enum ServerCommand {
    /// Display server status.
    Status,
    /// Restart the server.
    Restart,
    /// Server configuration commands.
    Config {
        /// The configuration action.
        action: ServerConfigAction,
    },
}

/// Server configuration actions.
#[derive(Debug, Clone)]
pub enum ServerConfigAction {
    /// Display server configuration.
    Display,
    /// Update server configuration.
    Update {
        /// Configuration key.
        key: String,
        /// Configuration value.
        value: String,
    },
}

/// Application commands.
#[derive(Debug, Clone)]
pub enum AppCommand {
    /// List available applications.
    List,
    /// Display application information.
    Info {
        /// Application ID.
        app_id: String,
    },
    /// Launch an application.
    Launch {
        /// Application ID.
        app_id: String,
        /// User ID (optional).
        user_id: Option<String>,
        /// Additional arguments to pass to the application.
        args: Vec<String>,
    },
    /// List running application instances.
    Instances,
    /// Stop a running application instance.
    Stop {
        /// Instance ID.
        instance_id: String,
    },
}

/// Session commands.
#[derive(Debug, Clone)]
pub enum SessionCommand {
    /// List active sessions.
    List,
    /// Display session information.
    Info {
        /// Session ID.
        session_id: String,
    },
    /// Close a session.
    Close {
        /// Session ID.
        session_id: String,
    },
}

/// Configuration commands.
#[derive(Debug, Clone)]
pub enum ConfigCommand {
    /// Display configuration.
    Show,
    /// Set a configuration value.
    SetValue {
        /// Configuration key.
        key: String,
        /// Configuration value.
        value: String,
    },
    /// Get a configuration value.
    Get {
        /// Configuration key.
        key: String,
    },
    /// Remove a configuration value.
    Remove {
        /// Configuration key.
        key: String,
    },
}

/// User commands.
#[derive(Debug, Clone)]
pub enum UserCommand {
    /// List users.
    List,
    /// Display user information.
    Info {
        /// User ID.
        user: String,
    },
    /// Create a new user.
    Create {
        /// Username.
        username: String,
        /// Password.
        password: String,
        /// Administrator privileges.
        admin: bool,
    },
    /// Delete a user.
    Delete {
        /// User ID.
        user: String,
    },
    /// Set a user's password.
    SetPassword {
        /// User ID.
        user_id: String,
        /// New password.
        password: String,
    },
}

/// Diagnostic commands.
#[derive(Debug, Clone)]
pub enum DiagCommand {
    /// Display system information.
    System,
    /// Check network connectivity.
    Network,
    /// Display logs.
    Logs {
        /// Number of lines to display.
        lines: usize,
        /// Follow log output.
        follow: bool,
    },
}

} // verus!
