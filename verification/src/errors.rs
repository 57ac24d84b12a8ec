use vstd::prelude::*;

verus! {

/// The failures the core distinguishes.
#[derive(Clone, Copy, PartialEq, Eq, Structural, Debug)]
pub enum TeleportError {
    /// A prior holder of the registry's lock terminated abnormally while
    /// holding it: the registry's consistency can no longer be guaranteed,
    /// so the failure propagates instead of being repaired locally.
    LockPoisoned,
    /// Endpoint creation was attempted before the backend connection was
    /// initialized, or after it was shut down.
    BackendUnavailable,
}

impl TeleportError {
    /// A short textual form, for surfacing the failure to the host.
    pub fn describe(&self) -> (s: &'static str)
        ensures
            s@ == self.spec_describe(),
    {
        match self {
            TeleportError::LockPoisoned => "registry lock poisoned",
            TeleportError::BackendUnavailable => "backend connection unavailable",
        }
    }

    /// The text `describe` returns for each failure.
    pub open spec fn spec_describe(&self) -> Seq<char> {
        match self {
            TeleportError::LockPoisoned => "registry lock poisoned"@,
            TeleportError::BackendUnavailable => "backend connection unavailable"@,
        }
    }
}

/// What one write to an endpoint did.
#[derive(Clone, Copy, PartialEq, Eq, Structural, Debug)]
pub enum WriteOutcome {
    /// The endpoint was active: the value went to the sink.
    Logged,
    /// The endpoint exists but is not active: nothing was emitted, and that
    /// is success, not an error.
    Inactive,
    /// The path had not been seen before: an endpoint was created for it.
    /// A fresh endpoint is never active, so nothing was emitted.
    Created,
}

} // verus!
