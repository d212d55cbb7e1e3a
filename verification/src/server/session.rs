//! Session-level service creation.

use vstd::prelude::*;

verus! {

/// Factory for the services a session can host.
///
/// No built-in services are registered; the surrounding daemon wires real
/// service implementations into the session layer.
pub struct ServiceFactory;

impl ServiceFactory {
    /// The names of the built-in services; none are registered.
    pub fn service_names() -> (r: Vec<String>)
        ensures
            r@.len() == 0,
    {
        Vec::new()
    }
}

} // verus!
