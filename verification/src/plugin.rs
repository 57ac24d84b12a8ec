//! The dispatcher and the plugin state it drives: one report in, its
//! path(s) built, each value routed to its endpoint through the registry,
//! per-value failures reduced to at most one reported error.

use crate::backend::Backend;
use crate::errors::{TeleportError, WriteOutcome};
use crate::levels::{Level, LevelEndpoints};
use crate::path::{build_basic, spec_basic_segments, Path};
use crate::registry::{same_store, Registry};
use vstd::prelude::*;

verus! {

broadcast use crate::registry::lemma_actives_len;

/// The capabilities the core declares to its host, fixed at construction:
/// it writes values and it logs messages.
pub struct Capabilities {
    pub write: bool,
    pub log: bool,
}

/// The capability descriptor of this core.
pub fn capabilities() -> (c: Capabilities)
    ensures
        c.write,
        c.log,
{
    Capabilities { write: true, log: true }
}

/// The name under which the core registers with host and backend.
pub fn plugin_name() -> (s: &'static str)
    ensures
        s@ == "teleport-collectd"@,
{
    "teleport-collectd"
}

/// One named value of a report, already rendered to text.
pub struct NamedValue {
    pub name: String,
    pub value: String,
}

/// One delivered report: shared metadata, a timestamp, and one or more
/// named values.
pub struct Report {
    pub host: String,
    pub source: String,
    pub source_instance: Option<String>,
    pub metric_type: String,
    pub type_instance: Option<String>,
    pub timestamp: String,
    pub values: Vec<NamedValue>,
}

/// The canonical basic path of a report's shared metadata.
pub open spec fn spec_report_basic(r: &Report) -> Seq<Seq<char>> {
    spec_basic_segments(
        r.host@,
        r.source@,
        r.source_instance.deep_view(),
        r.metric_type@,
        r.type_instance.deep_view(),
    )
}

/// The paths a report's writes go to: the basic path alone for a
/// single-valued report; for a multi-valued one, one path per value — the
/// basic path plus that value's name.
pub open spec fn spec_report_paths(r: &Report) -> Seq<Seq<Seq<char>>> {
    if r.values@.len() == 1 {
        seq![spec_report_basic(r)]
    } else {
        Seq::new(r.values@.len(), |i: int| spec_report_basic(r).push(r.values@[i].name@))
    }
}

/// Distinct value names give distinct fan-out paths: in a multi-valued
/// report, two values whose names differ are routed to two different
/// endpoints.
pub proof fn lemma_fan_out_paths_distinct(r: &Report, i: int, j: int)
    requires
        r.values@.len() > 1,
        0 <= i < r.values@.len(),
        0 <= j < r.values@.len(),
        r.values@[i].name@ != r.values@[j].name@,
    ensures
        spec_report_paths(r)[i] != spec_report_paths(r)[j],
{
    let basic = spec_report_basic(r);
    assert(spec_report_paths(r)[i][basic.len() as int] == r.values@[i].name@);
    assert(spec_report_paths(r)[j][basic.len() as int] == r.values@[j].name@);
}

/// The plugin state: the lazily populated registry for value endpoints and
/// the fixed endpoints for the host's log levels.
pub struct TeleportPlugin {
    reg: Registry,
    lvl: LevelEndpoints,
}

impl TeleportPlugin {
    /// The value-endpoint registry.
    pub closed spec fn registry(&self) -> Registry {
        self.reg
    }

    /// The level endpoints.
    pub closed spec fn levels(&self) -> LevelEndpoints {
        self.lvl
    }

    /// A fresh plugin: an empty registry, and one endpoint per severity
    /// level.  Demands a live backend connection for the level endpoints.
    pub fn new(backend: &Backend) -> (r: Result<TeleportPlugin, TeleportError>)
        ensures
            backend.connected() <==> r is Ok,
            (r matches Ok(p) ==> p.registry().wf() && !p.registry().is_poisoned()
                && p.registry().count() == 0 && p.registry().paths() == Map::<
                Seq<Seq<char>>,
                nat,
            >::empty() && p.levels().wf() && forall|l: Level| !p.levels().active(l)),
            (r matches Err(e) ==> e == TeleportError::BackendUnavailable),
    {
        match LevelEndpoints::new(backend) {
            Ok(lvl) => Ok(TeleportPlugin { reg: Registry::new(), lvl }),
            Err(e) => Err(e),
        }
    }

    /// How many value endpoints exist.
    pub fn endpoint_count(&self) -> (n: usize)
        ensures
            n == self.registry().count(),
    {
        self.reg.endpoint_count()
    }

    /// Whether the registry is poisoned.
    pub fn is_poisoned(&self) -> (b: bool)
        ensures
            b == self.registry().is_poisoned(),
    {
        self.reg.check_poisoned()
    }

    /// Records that a holder of the registry's lock failed while holding
    /// it.
    pub fn poison(&mut self)
        ensures
            final(self).registry().is_poisoned(),
            old(self).registry().wf() ==> final(self).registry().wf(),
            same_store(final(self).registry(), old(self).registry()),
            final(self).levels() == old(self).levels(),
    {
        self.reg.poison();
    }

    /// Read-only resolution through the registry.
    pub fn resolve(&self, path: &Path) -> (r: Result<
        Option<crate::endpoint::Endpoint>,
        TeleportError,
    >)
        requires
            self.registry().wf(),
        ensures
            self.registry().is_poisoned() ==> r == Result::<
                Option<crate::endpoint::Endpoint>,
                TeleportError,
            >::Err(TeleportError::LockPoisoned),
            !self.registry().is_poisoned() ==> match r {
                Ok(found) => match found {
                    Some(e) => self.registry().paths().contains_key(path@) && e.id
                        == self.registry().paths()[path@] && e.spec_path() == path@,
                    None => !self.registry().paths().contains_key(path@),
                },
                Err(_) => false,
            },
    {
        self.reg.resolve(path)
    }

    /// Flips the activity of the endpoint at `path`, standing for the
    /// backend attaching or detaching an observer out-of-band.
    pub fn set_path_active(&mut self, path: &Path, active: bool) -> (r: Result<
        bool,
        TeleportError,
    >)
        requires
            old(self).registry().wf(),
        ensures
            final(self).registry().wf(),
            final(self).levels() == old(self).levels(),
            final(self).registry().is_poisoned() == old(self).registry().is_poisoned(),
            final(self).registry().paths() == old(self).registry().paths(),
            final(self).registry().count() == old(self).registry().count(),
            old(self).registry().is_poisoned() ==> r == Result::<bool, TeleportError>::Err(
                TeleportError::LockPoisoned,
            ) && final(self).registry().actives() == old(self).registry().actives(),
            !old(self).registry().is_poisoned() && old(self).registry().paths().contains_key(path@)
                ==> r == Result::<bool, TeleportError>::Ok(true) && final(self).registry().actives()
                == old(self).registry().actives().update(
                old(self).registry().paths()[path@] as int,
                active,
            ),
            !old(self).registry().is_poisoned() && !old(self).registry().paths().contains_key(
                path@,
            ) ==> r == Result::<bool, TeleportError>::Ok(false) && final(self).registry().actives()
                == old(self).registry().actives(),
    {
        self.reg.set_active(path, active)
    }

    /// Attaches or detaches the observer of the endpoint for `level`.
    pub fn set_level_active(&mut self, level: Level, active: bool)
        ensures
            forall|l: Level|
                final(self).levels().active(l) == if l == level {
                    active
                } else {
                    old(self).levels().active(l)
                },
            old(self).levels().wf() ==> final(self).levels().wf(),
            final(self).registry() == old(self).registry(),
    {
        self.lvl.set_active(level, active);
    }

    /// Writes one host log message through the level endpoints, bypassing
    /// the registry.
    pub fn log(&self, level: Level, message: &str) -> (o: WriteOutcome)
        ensures
            o == if self.levels().active(level) {
                WriteOutcome::Logged
            } else {
                WriteOutcome::Inactive
            },
    {
        self.lvl.log(level, message)
    }

    /// Routes one rendered value to the endpoint at `path`: the existing
    /// endpoint if the path is known — written iff it is active — and a
    /// freshly created, inactive endpoint otherwise.
    pub fn write_value(&mut self, backend: &Backend, path: &Path, timestamp: &str, value: &str) -> (r:
        Result<WriteOutcome, TeleportError>)
        requires
            old(self).registry().wf(),
            path.wf(),
        ensures
            final(self).registry().wf(),
            final(self).levels() == old(self).levels(),
            final(self).registry().is_poisoned() == old(self).registry().is_poisoned(),
            old(self).registry().is_poisoned() ==> (r matches Err(e) && e
                == TeleportError::LockPoisoned && same_store(
                final(self).registry(),
                old(self).registry(),
            )),
            !old(self).registry().is_poisoned() && old(self).registry().paths().contains_key(path@)
                ==> (match r {
                Ok(o) => o == (if old(self).registry().actives()[old(self).registry().paths()[path@] as int] {
                    WriteOutcome::Logged
                } else {
                    WriteOutcome::Inactive
                }) && same_store(final(self).registry(), old(self).registry()),
                Err(_) => false,
            }),
            !old(self).registry().is_poisoned() && !old(self).registry().paths().contains_key(
                path@,
            ) && backend.connected() ==> (match r {
                Ok(o) => o == WriteOutcome::Created && final(self).registry().paths() == old(self).registry().paths().insert(path@, old(self).registry().count()) && final(self).registry().actives() == old(self).registry().actives().push(false) && final(self).registry().count() == old(self).registry().count() + 1,
                Err(_) => false,
            }),
            !old(self).registry().is_poisoned() && !old(self).registry().paths().contains_key(
                path@,
            ) && !backend.connected() ==> (r matches Err(e) && e
                == TeleportError::BackendUnavailable && same_store(
                final(self).registry(),
                old(self).registry(),
            )),
    {
        match self.reg.resolve(path) {
            Err(e) => Err(e),
            Ok(Some(found)) => {
                match self.reg.is_active(found.id) {
                    Err(e) => Err(e),
                    Ok(active) => Ok(found.write(active, "value", timestamp, value)),
                }
            },
            Ok(None) => {
                match self.reg.resolve_or_create(backend, path) {
                    Err(e) => Err(e),
                    Ok(_created) => Ok(WriteOutcome::Created),
                }
            },
        }
    }

    /// Dispatches one report.  The basic path is built from the shared
    /// metadata; a single-valued report is written directly through it,
    /// while a multi-valued one fans out into one independent write per
    /// value, each through the basic path extended by that value's name.
    /// Per-value failures are caught and reduced to at most one reported
    /// error for the whole batch; every other value is still attempted.  A
    /// poisoned registry is fatal and aborts the batch at once.
    pub fn write_values(&mut self, backend: &Backend, report: &Report) -> (r: Result<
        (),
        TeleportError,
    >)
        requires
            old(self).registry().wf(),
            report.values@.len() >= 1,
        ensures
            final(self).registry().wf(),
            final(self).levels() == old(self).levels(),
            final(self).registry().is_poisoned() == old(self).registry().is_poisoned(),
            old(self).registry().is_poisoned() ==> (r matches Err(e) && e
                == TeleportError::LockPoisoned && same_store(
                final(self).registry(),
                old(self).registry(),
            )),
            !old(self).registry().is_poisoned() && backend.connected() ==> (r is Ok && (forall|
                k: Seq<Seq<char>>,
            |
                #[trigger] final(self).registry().paths().contains_key(k) <==> (old(self).registry().paths().contains_key(k) || spec_report_paths(report).contains(k)))
                && (forall|k: Seq<Seq<char>>|
                old(self).registry().paths().contains_key(k) ==> #[trigger] final(self).registry().paths()[k] == old(self).registry().paths()[k]) && (forall|id: int|
                0 <= id < old(self).registry().count() ==> #[trigger] final(self).registry().actives()[id] == old(self).registry().actives()[id]) && (forall|
                id: int,
            |
                old(self).registry().count() <= id < final(self).registry().count() ==> !(
                #[trigger] final(self).registry().actives()[id])) && old(self).registry().count()
                <= final(self).registry().count() && (forall|k: Seq<Seq<char>>|
                final(self).registry().paths().contains_key(k) && !old(self).registry().paths().contains_key(k) ==> #[trigger] final(self).registry().paths()[k]
                    >= old(self).registry().count())),
            !old(self).registry().is_poisoned() && !backend.connected() ==> (same_store(
                final(self).registry(),
                old(self).registry(),
            ) && (r is Ok <==> (forall|i: int|
                0 <= i < spec_report_paths(report).len() ==> old(self).registry().paths().contains_key(#[trigger] spec_report_paths(report)[i]))) && (
            r matches Err(e) ==> e == TeleportError::BackendUnavailable)),
    {
        if self.reg.check_poisoned() {
            return Err(TeleportError::LockPoisoned);
        }
        let basic = build_basic(
            &report.host,
            &report.source,
            &report.source_instance,
            &report.metric_type,
            &report.type_instance,
        );
        if report.values.len() == 1 {
            let nv = &report.values[0];
            proof {
                assert(spec_report_paths(report) =~= seq![basic@]);
            }
            let r = self.write_value(
                backend,
                &basic,
                report.timestamp.as_str(),
                nv.value.as_str(),
            );
            proof {
                assert(spec_report_paths(report)[0] == basic@);
                assert(spec_report_paths(report).contains(basic@));
                assert forall|k: Seq<Seq<char>>|
                    #[trigger] spec_report_paths(report).contains(k) implies k == basic@ by {
                    let j = choose|j: int|
                        0 <= j < spec_report_paths(report).len() && spec_report_paths(report)[j]
                            == k;
                    assert(j == 0);
                }
            }
            match r {
                Ok(_) => Ok(()),
                Err(e) => Err(e),
            }
        } else {
            let ghost pre = *self;
            let mut err: Option<TeleportError> = None;
            let mut i: usize = 0;
            while i < report.values.len()
                invariant
                    self.registry().wf(),
                    !self.registry().is_poisoned(),
                    self.levels() == pre.levels(),
                    pre.registry().wf(),
                    !pre.registry().is_poisoned(),
                    report.values@.len() > 1,
                    i <= report.values@.len(),
                    basic@ == spec_report_basic(report),
                    backend.connected() ==> err is None,
                    backend.connected() ==> (forall|k: Seq<Seq<char>>|
                        #[trigger] self.registry().paths().contains_key(k) <==> (pre.registry().paths().contains_key(k) || exists|j: int|
                            0 <= j < i && spec_report_paths(report)[j] == k)),
                    backend.connected() ==> (forall|k: Seq<Seq<char>>|
                        pre.registry().paths().contains_key(k) ==> #[trigger] self.registry().paths()[k] == pre.registry().paths()[k]),
                    backend.connected() ==> (forall|id: int|
                        0 <= id < pre.registry().count() ==> #[trigger] self.registry().actives()[id] == pre.registry().actives()[id]),
                    backend.connected() ==> (forall|id: int|
                        pre.registry().count() <= id < self.registry().count() ==> !(
                        #[trigger] self.registry().actives()[id])),
                    pre.registry().count() <= self.registry().count(),
                    backend.connected() ==> (forall|k: Seq<Seq<char>>|
                        self.registry().paths().contains_key(k) && !pre.registry().paths().contains_key(k) ==> #[trigger] self.registry().paths()[k] >= pre.registry().count()),
                    !backend.connected() ==> same_store(self.registry(), pre.registry()),
                    !backend.connected() ==> ((err is Some) <==> exists|j: int|
                        0 <= j < i && !pre.registry().paths().contains_key(
                            #[trigger] spec_report_paths(report)[j],
                        )),
                    (err matches Some(e) ==> e == TeleportError::BackendUnavailable),
                decreases report.values@.len() - i,
            {
                let nv = &report.values[i];
                let vpath = basic.child(&nv.name);
                proof {
                    assert(vpath@ == spec_report_paths(report)[i as int]);
                }
                match self.write_value(
                    backend,
                    &vpath,
                    report.timestamp.as_str(),
                    nv.value.as_str(),
                ) {
                    Ok(_) => {},
                    Err(e) => {
                        err = Some(e);
                    },
                }
                i = i + 1;
            }
            match err {
                None => Ok(()),
                Some(e) => Err(e),
            }
        }
    }
}

} // verus!
