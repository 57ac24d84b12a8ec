//! The process-wide backend connection: present exactly between `init` and
//! `shutdown`.  Endpoint creation demands a live connection; creating one
//! before `init` or after `shutdown` is a configuration error.

use crate::errors::TeleportError;
use crate::sink;
use vstd::prelude::*;

verus! {

/// Owns the lifecycle of the connection to the telemetry backend.
pub struct Backend {
    engine: Option<rillrate::RillRate>,
}

impl Backend {
    /// Whether the connection is live: true exactly between a successful
    /// `init` and the next `shutdown`.
    pub closed spec fn connected(&self) -> bool {
        self.engine is Some
    }

    /// A backend with no connection yet.
    pub fn new() -> (b: Backend)
        ensures
            !b.connected(),
    {
        Backend { engine: None }
    }

    /// Connects to the backend under the given plugin name.  Called once
    /// when the host activates the plugin.
    pub fn init(&mut self, name: &str) -> (r: Result<(), TeleportError>)
        requires
            !old(self).connected(),
        ensures
            r is Ok <==> final(self).connected(),
            r matches Err(e) ==> e == TeleportError::BackendUnavailable,
    {
        match sink::start_engine(name) {
            Ok(engine) => {
                self.engine = Some(engine);
                Ok(())
            },
            Err(_) => Err(TeleportError::BackendUnavailable),
        }
    }

    /// Tears the connection down.  Called once when the host deactivates
    /// the plugin.
    pub fn shutdown(&mut self)
        ensures
            !final(self).connected(),
    {
        self.engine = None;
    }

    /// Whether the connection is currently live.
    pub fn is_connected(&self) -> (b: bool)
        ensures
            b == self.connected(),
    {
        self.engine.is_some()
    }
}

} // verus!
