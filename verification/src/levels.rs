//! Severity-level endpoints: a small, fixed mapping from each severity
//! level to one pre-created endpoint, fully populated before the first log
//! call.  The level set is finite and known in advance, so nothing here is
//! lazy and no lookup can miss.

use crate::backend::Backend;
use crate::endpoint::Endpoint;
use crate::errors::{TeleportError, WriteOutcome};
use crate::path::Path;
use vstd::prelude::*;

verus! {

/// The host's severity levels.
#[derive(Clone, Copy, PartialEq, Eq, Structural, Debug)]
pub enum Level {
    Error,
    Warning,
    Notice,
    Info,
    Debug,
}

/// The textual name of each level.
pub open spec fn spec_level_name(l: Level) -> Seq<char> {
    match l {
        Level::Error => "error"@,
        Level::Warning => "warning"@,
        Level::Notice => "notice"@,
        Level::Info => "info"@,
        Level::Debug => "debug"@,
    }
}

/// The textual name of a level.
pub fn level_name(l: Level) -> (s: &'static str)
    ensures
        s@ == spec_level_name(l),
{
    match l {
        Level::Error => "error",
        Level::Warning => "warning",
        Level::Notice => "notice",
        Level::Info => "info",
        Level::Debug => "debug",
    }
}

/// Every level, in severity order.
pub fn all_levels() -> (v: Vec<Level>)
    ensures
        v@ == seq![Level::Error, Level::Warning, Level::Notice, Level::Info, Level::Debug],
{
    let mut v: Vec<Level> = Vec::new();
    v.push(Level::Error);
    v.push(Level::Warning);
    v.push(Level::Notice);
    v.push(Level::Info);
    v.push(Level::Debug);
    proof {
        assert(v@ =~= seq![
            Level::Error,
            Level::Warning,
            Level::Notice,
            Level::Info,
            Level::Debug,
        ]);
    }
    v
}

/// The path a level's endpoint is bound to.
pub open spec fn spec_level_path(l: Level) -> Seq<Seq<char>> {
    seq!["log"@, spec_level_name(l)]
}

/// One pre-created endpoint with its activity flag.
struct Slot {
    endpoint: Endpoint,
    active: bool,
}

/// Builds the slot for one level: an endpoint bound to the level's path,
/// never active at creation.
fn make_slot(id: usize, l: Level) -> (s: Slot)
    ensures
        s.endpoint.spec_path() == spec_level_path(l),
        !s.active,
{
    let mut segs: Vec<String> = Vec::new();
    segs.push("log".to_owned());
    segs.push(level_name(l).to_owned());
    let path = Path::from_segments(segs);
    proof {
        assert(path@ =~= spec_level_path(l));
    }
    let endpoint = Endpoint::create(id, path);
    Slot { endpoint, active: false }
}

/// The fixed mapping from severity level to endpoint, built once at
/// startup.
pub struct LevelEndpoints {
    error: Slot,
    warning: Slot,
    notice: Slot,
    info: Slot,
    debug: Slot,
}

impl LevelEndpoints {
    spec fn spec_slot(&self, l: Level) -> Slot {
        match l {
            Level::Error => self.error,
            Level::Warning => self.warning,
            Level::Notice => self.notice,
            Level::Info => self.info,
            Level::Debug => self.debug,
        }
    }

    /// Whether the endpoint for `l` currently has an attached observer.
    pub closed spec fn active(&self, l: Level) -> bool {
        self.spec_slot(l).active
    }

    /// Every level's endpoint is bound to that level's path.
    pub closed spec fn wf(&self) -> bool {
        forall|l: Level| (#[trigger] self.spec_slot(l)).endpoint.spec_path() == spec_level_path(l)
    }

    /// Builds one endpoint per level, each bound to the level's path and
    /// not yet active.  Demands a live backend connection, as every
    /// endpoint creation does.
    pub fn new(backend: &Backend) -> (r: Result<LevelEndpoints, TeleportError>)
        ensures
            backend.connected() <==> r is Ok,
            (r matches Ok(le) ==> le.wf() && forall|l: Level| !le.active(l)),
            (r matches Err(e) ==> e == TeleportError::BackendUnavailable),
    {
        if !backend.is_connected() {
            return Err(TeleportError::BackendUnavailable);
        }
        let le = LevelEndpoints {
            error: make_slot(0, Level::Error),
            warning: make_slot(1, Level::Warning),
            notice: make_slot(2, Level::Notice),
            info: make_slot(3, Level::Info),
            debug: make_slot(4, Level::Debug),
        };
        Ok(le)
    }

    fn slot(&self, l: Level) -> (s: &Slot)
        ensures
            *s == self.spec_slot(l),
    {
        match l {
            Level::Error => &self.error,
            Level::Warning => &self.warning,
            Level::Notice => &self.notice,
            Level::Info => &self.info,
            Level::Debug => &self.debug,
        }
    }

    /// Writes `message` to the endpoint for `level` iff that endpoint is
    /// active; an inactive endpoint stays silent.  The lookup itself
    /// cannot miss: an endpoint for every level exists before the first
    /// log call.
    pub fn log(&self, level: Level, message: &str) -> (o: WriteOutcome)
        ensures
            o == if self.active(level) {
                WriteOutcome::Logged
            } else {
                WriteOutcome::Inactive
            },
    {
        let slot = self.slot(level);
        slot.endpoint.write(slot.active, level_name(level), "", message)
    }

    /// Attaches or detaches the observer of the endpoint for `level`,
    /// standing for the backend doing so out-of-band.
    pub fn set_active(&mut self, level: Level, active: bool)
        ensures
            forall|l: Level|
                final(self).active(l) == if l == level {
                    active
                } else {
                    old(self).active(l)
                },
            old(self).wf() ==> final(self).wf(),
    {
        match level {
            Level::Error => self.error.active = active,
            Level::Warning => self.warning.active = active,
            Level::Notice => self.notice.active = active,
            Level::Info => self.info.active = active,
            Level::Debug => self.debug.active = active,
        }
        proof {
            assert forall|l: Level| (#[trigger] self.spec_slot(l)).endpoint == old(
                self,
            ).spec_slot(l).endpoint by {
                assert(self.spec_slot(Level::Error).endpoint == old(self).spec_slot(
                    Level::Error,
                ).endpoint);
            }
        }
    }
}

} // verus!
