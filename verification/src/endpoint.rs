//! Endpoints: reference-counted handles to one telemetry sink each, bound
//! to exactly one path at creation time.

use crate::errors::WriteOutcome;
use crate::path::Path;
use crate::sink;
use vstd::prelude::*;

verus! {

/// A handle to one telemetry sink, bound to exactly one path when it was
/// created.  Handles with the same identifier refer to the same sink.
/// Whether the sink is currently observed (its activity) is not part of the
/// handle: the registry that created the endpoint keeps that flag.
#[derive(Debug)]
pub struct Endpoint {
    /// The creation identifier: the position of this endpoint in the order
    /// of creations of the store that made it.
    pub id: usize,
    pub path: Path,
    pub tracer: rillrate::prime::LiveTail,
}

impl Endpoint {
    /// The path the endpoint was bound to at creation.
    pub closed spec fn spec_path(&self) -> Seq<Seq<char>> {
        self.path@
    }

    /// Creates the sink for `path` and the first handle to it.
    pub(crate) fn create(id: usize, path: Path) -> (e: Endpoint)
        ensures
            e.id == id,
            e.spec_path() == path@,
    {
        let tracer = sink::new_live_tail(path.segments());
        Endpoint { id, path, tracer }
    }

    /// Another handle to the same sink.
    pub fn duplicate(&self) -> (e: Endpoint)
        ensures
            e.id == self.id,
            e.spec_path() == self.spec_path(),
    {
        Endpoint {
            id: self.id,
            path: self.path.duplicate(),
            tracer: sink::clone_live_tail(&self.tracer),
        }
    }

    /// The path the endpoint is bound to.
    pub fn path(&self) -> (p: &Path)
        ensures
            p@ == self.spec_path(),
    {
        &self.path
    }

    /// Writes one record to the sink iff the endpoint is active; an
    /// inactive endpoint stays silent, and that is success.
    pub fn write(&self, active: bool, label: &str, timestamp: &str, content: &str) -> (o:
        WriteOutcome)
        ensures
            o == if active {
                WriteOutcome::Logged
            } else {
                WriteOutcome::Inactive
            },
    {
        if active {
            sink::live_tail_log(&self.tracer, label, label, timestamp, content);
            WriteOutcome::Logged
        } else {
            WriteOutcome::Inactive
        }
    }
}

} // verus!
