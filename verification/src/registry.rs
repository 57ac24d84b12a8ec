//! The path-indexed endpoint registry: a lazily populated, path-keyed store
//! with set-once semantics.  For any path, at most one endpoint is ever
//! created and attached; every resolution of that path yields a handle to
//! that same endpoint.  Acquisition is double-checked: a read-only pass
//! first, and a second check under exclusive access before anything is
//! created, so a racer that got there first is honoured.

use crate::backend::Backend;
use crate::endpoint::Endpoint;
use crate::errors::TeleportError;
use crate::path::Path;
use vstd::prelude::*;

verus! {

/// One attached endpoint: the path it answers to, the handle, and whether
/// an external observer currently watches it.
struct Entry {
    path: Path,
    endpoint: Endpoint,
    active: bool,
}

/// The path-keyed mathematical content of a store: each attached path,
/// bound to the creation index of its endpoint.
spec fn path_map(s: Seq<Entry>) -> Map<Seq<Seq<char>>, nat>
    decreases s.len(),
{
    if s.len() == 0 {
        Map::empty()
    } else {
        path_map(s.drop_last()).insert(s.last().path@, (s.len() - 1) as nat)
    }
}

/// The activity flags of a store, by endpoint identifier.
spec fn active_map(s: Seq<Entry>) -> Seq<bool> {
    s.map_values(|e: Entry| e.active)
}

proof fn lemma_path_map_contains(s: Seq<Entry>, k: Seq<Seq<char>>)
    ensures
        path_map(s).contains_key(k) <==> exists|i: int| 0 <= i < s.len() && s[i].path@ == k,
    decreases s.len(),
{
    if s.len() > 0 {
        lemma_path_map_contains(s.drop_last(), k);
        if s.last().path@ == k {
            assert(s[s.len() - 1].path@ == k);
        } else if path_map(s).contains_key(k) {
            let i = choose|i: int| 0 <= i < s.drop_last().len() && s.drop_last()[i].path@ == k;
            assert(s[i].path@ == k);
        } else if exists|i: int| 0 <= i < s.len() && s[i].path@ == k {
            let i = choose|i: int| 0 <= i < s.len() && s[i].path@ == k;
            assert(s.drop_last()[i].path@ == k);
        }
    }
}

/// In a store with pairwise distinct paths, each attached path is bound to
/// the index of its entry.
proof fn lemma_path_map_index(s: Seq<Entry>, i: int)
    requires
        0 <= i < s.len(),
        forall|a: int, b: int| 0 <= a < b < s.len() ==> s[a].path@ != s[b].path@,
    ensures
        path_map(s).contains_key(s[i].path@),
        path_map(s)[s[i].path@] == i,
    decreases s.len(),
{
    if i == s.len() - 1 {
    } else {
        lemma_path_map_index(s.drop_last(), i);
        assert(s.drop_last()[i].path@ == s[i].path@);
        assert(s[i].path@ != s.last().path@);
    }
}

/// Re-binding an entry's position with an entry for the same path leaves
/// the path map as it was.
proof fn lemma_path_map_update(s: Seq<Entry>, i: int, e: Entry)
    requires
        0 <= i < s.len(),
        e.path@ == s[i].path@,
    ensures
        path_map(s.update(i, e)) == path_map(s),
    decreases s.len(),
{
    let t = s.update(i, e);
    if i == s.len() - 1 {
        assert(t.drop_last() =~= s.drop_last());
        assert(t.last() == e);
        assert(path_map(t) =~= path_map(s));
    } else {
        lemma_path_map_update(s.drop_last(), i, e);
        assert(t.drop_last() =~= s.drop_last().update(i, e));
        assert(t.last() == s.last());
        assert(path_map(t) =~= path_map(s));
    }
}

/// Every bound value of the path map is an index into the store.
proof fn lemma_path_map_values(s: Seq<Entry>, k: Seq<Seq<char>>)
    requires
        path_map(s).contains_key(k),
    ensures
        path_map(s)[k] < s.len(),
    decreases s.len(),
{
    if s.len() > 0 {
        if s.last().path@ == k && path_map(s)[k] == s.len() - 1 {
        } else {
            lemma_path_map_values(s.drop_last(), k);
        }
    }
}

/// The concurrent, lazily populated registry of endpoints, keyed by path.
///
/// A poisoned registry is one whose lock was held by a caller that failed:
/// its consistency can no longer be guaranteed, every operation refuses to
/// touch it, and the failure propagates.
pub struct Registry {
    entries: Vec<Entry>,
    poisoned: bool,
}

impl Registry {
    /// Whether a prior lock holder failed while holding the lock.
    pub closed spec fn is_poisoned(&self) -> bool {
        self.poisoned
    }

    /// How many endpoints have been created, ever.
    pub closed spec fn count(&self) -> nat {
        self.entries@.len()
    }

    /// The attached paths, each bound to its endpoint's identifier.
    pub closed spec fn paths(&self) -> Map<Seq<Seq<char>>, nat> {
        path_map(self.entries@)
    }

    /// The activity flags, by endpoint identifier.
    pub closed spec fn actives(&self) -> Seq<bool> {
        active_map(self.entries@)
    }

    /// Internal consistency: flags and entries line up, identifiers are
    /// creation positions, endpoints keep the path they were bound to, and
    /// no path is attached twice.
    pub closed spec fn wf(&self) -> bool {
        &&& forall|i: int|
            0 <= i < self.entries@.len() ==> (#[trigger] self.entries@[i]).endpoint.id == i
        &&& forall|i: int|
            0 <= i < self.entries@.len() ==> (#[trigger] self.entries@[i]).endpoint.spec_path()
                == self.entries@[i].path@
        &&& forall|a: int, b: int|
            0 <= a < b < self.entries@.len() ==> self.entries@[a].path@ != self.entries@[b].path@
    }

    /// An empty, healthy registry.
    pub fn new() -> (r: Registry)
        ensures
            r.wf(),
            !r.is_poisoned(),
            r.count() == 0,
            r.paths() == Map::<Seq<Seq<char>>, nat>::empty(),
            r.actives() == Seq::<bool>::empty(),
    {
        let r = Registry { entries: Vec::new(), poisoned: false };
        proof {
            assert(r.actives() =~= Seq::<bool>::empty());
        }
        r
    }

    /// Records that a holder of the registry's lock terminated abnormally
    /// while holding it.  From here on every operation fails.
    pub fn poison(&mut self)
        ensures
            final(self).is_poisoned(),
            old(self).wf() ==> final(self).wf(),
            final(self).paths() == old(self).paths(),
            final(self).actives() == old(self).actives(),
            final(self).count() == old(self).count(),
    {
        self.poisoned = true;
    }

    /// Whether the registry is poisoned.
    pub fn check_poisoned(&self) -> (b: bool)
        ensures
            b == self.is_poisoned(),
    {
        self.poisoned
    }

    /// How many endpoints exist.
    pub fn endpoint_count(&self) -> (n: usize)
        ensures
            n == self.count(),
    {
        self.entries.len()
    }

    /// The position of the entry for `path`, if one is attached.
    fn find_index(&self, path: &Path) -> (r: Option<usize>)
        ensures
            match r {
                Some(i) => i < self.entries@.len() && self.entries@[i as int].path@ == path@,
                None => forall|i: int|
                    0 <= i < self.entries@.len() ==> (#[trigger] self.entries@[i]).path@ != path@,
            },
    {
        let mut i: usize = 0;
        while i < self.entries.len()
            invariant
                i <= self.entries@.len(),
                forall|j: int| 0 <= j < i ==> (#[trigger] self.entries@[j]).path@ != path@,
            decreases self.entries@.len() - i,
        {
            if self.entries[i].path.equals(path) {
                return Some(i);
            }
            i = i + 1;
        }
        None
    }

    /// Read-only resolution: the endpoint attached at the exact node for
    /// `path`, or nothing if the path was never attached.  This is the hot
    /// path under steady state.
    pub fn resolve(&self, path: &Path) -> (r: Result<Option<Endpoint>, TeleportError>)
        requires
            self.wf(),
        ensures
            self.is_poisoned() ==> r == Result::<Option<Endpoint>, TeleportError>::Err(
                TeleportError::LockPoisoned,
            ),
            !self.is_poisoned() ==> match r {
                Ok(found) => match found {
                    Some(e) => self.paths().contains_key(path@) && e.id == self.paths()[path@]
                        && e.id < self.count() && e.spec_path() == path@,
                    None => !self.paths().contains_key(path@),
                },
                Err(_) => false,
            },
    {
        if self.poisoned {
            return Err(TeleportError::LockPoisoned);
        }
        proof {
            lemma_path_map_contains(self.entries@, path@);
        }
        match self.find_index(path) {
            Some(i) => {
                proof {
                    lemma_path_map_index(self.entries@, i as int);
                }
                Ok(Some(self.entries[i].endpoint.duplicate()))
            },
            None => Ok(None),
        }
    }

    /// Whether the endpoint with the given identifier currently has an
    /// attached observer.
    pub fn is_active(&self, id: usize) -> (r: Result<bool, TeleportError>)
        requires
            self.wf(),
            id < self.count(),
        ensures
            self.is_poisoned() ==> r == Result::<bool, TeleportError>::Err(
                TeleportError::LockPoisoned,
            ),
            !self.is_poisoned() ==> r == Result::<bool, TeleportError>::Ok(
                self.actives()[id as int],
            ),
    {
        if self.poisoned {
            return Err(TeleportError::LockPoisoned);
        }
        Ok(self.entries[id].active)
    }

    /// Flips the activity of the endpoint attached at `path`, standing for
    /// the backend attaching or detaching an observer.  Returns whether the
    /// path was attached at all.
    pub fn set_active(&mut self, path: &Path, active: bool) -> (r: Result<bool, TeleportError>)
        requires
            old(self).wf(),
        ensures
            final(self).wf(),
            final(self).is_poisoned() == old(self).is_poisoned(),
            final(self).paths() == old(self).paths(),
            final(self).count() == old(self).count(),
            old(self).is_poisoned() ==> r == Result::<bool, TeleportError>::Err(
                TeleportError::LockPoisoned,
            ) && final(self).actives() == old(self).actives(),
            !old(self).is_poisoned() && old(self).paths().contains_key(path@) ==> r
                == Result::<bool, TeleportError>::Ok(true) && final(self).actives() == old(self).actives().update(old(self).paths()[path@] as int, active),
            !old(self).is_poisoned() && !old(self).paths().contains_key(path@) ==> r
                == Result::<bool, TeleportError>::Ok(false) && final(self).actives() == old(self).actives(),
    {
        if self.poisoned {
            return Err(TeleportError::LockPoisoned);
        }
        proof {
            lemma_path_map_contains(self.entries@, path@);
        }
        match self.find_index(path) {
            Some(i) => {
                proof {
                    lemma_path_map_index(self.entries@, i as int);
                }
                let endpoint = self.entries[i].endpoint.duplicate();
                let path_copy = self.entries[i].path.duplicate();
                self.entries.set(i, Entry { path: path_copy, endpoint, active });
                proof {
                    lemma_path_map_update(old(self).entries@, i as int, self.entries@[i as int]);
                    assert(self.actives() =~= old(self).actives().update(i as int, active));
                }
                Ok(true)
            },
            None => Ok(false),
        }
    }

    /// Returns the endpoint for `path`, creating it if the path was never
    /// attached.  Resolution is double-checked: a read-only pass first and,
    /// only if that found nothing, a second check under exclusive access
    /// before a fresh endpoint is attached, so across any interleaving at
    /// most one endpoint is ever created per path.  A fresh endpoint is
    /// never active.
    pub fn resolve_or_create(&mut self, backend: &Backend, path: &Path) -> (r: Result<
        Endpoint,
        TeleportError,
    >)
        requires
            old(self).wf(),
            path.wf(),
        ensures
            final(self).wf(),
            final(self).is_poisoned() == old(self).is_poisoned(),
            old(self).is_poisoned() ==> (r matches Err(e) && e == TeleportError::LockPoisoned
                && final(self).paths() == old(self).paths() && final(self).actives() == old(self).actives() && final(self).count() == old(self).count()),
            !old(self).is_poisoned() && old(self).paths().contains_key(path@) ==> (match r {
                Ok(e) => e.id == old(self).paths()[path@] && e.spec_path() == path@ && final(self).paths()
                    == old(self).paths() && final(self).actives() == old(self).actives() && final(self).count() == old(self).count(),
                Err(_) => false,
            }),
            !old(self).is_poisoned() && !old(self).paths().contains_key(path@)
                && backend.connected() ==> (match r {
                Ok(e) => e.id == old(self).count() && e.spec_path() == path@ && final(self).paths()
                    == old(self).paths().insert(path@, old(self).count()) && final(self).actives()
                    == old(self).actives().push(false) && final(self).count() == old(self).count()
                    + 1,
                Err(_) => false,
            }),
            !old(self).is_poisoned() && !old(self).paths().contains_key(path@)
                && !backend.connected() ==> (r matches Err(e) && e
                == TeleportError::BackendUnavailable && final(self).paths() == old(self).paths()
                && final(self).actives() == old(self).actives() && final(self).count() == old(self).count()),
            !old(self).is_poisoned() ==> (r matches Ok(e) ==> resolution_step(
                old(self).paths(),
                final(self).paths(),
                path@,
                e.id as nat,
            )),
    {
        // Read-only pass over the store: the hot path.
        match self.resolve(path) {
            Err(e) => Err(e),
            Ok(Some(found)) => Ok(found),
            Ok(None) => self.create_locked(backend, path),
        }
    }

    /// The slow branch of `resolve_or_create`, entered under exclusive
    /// access: re-checks for the path — a racer may have attached an
    /// endpoint while the read access was given up — and only if the path
    /// is still absent digs a fresh endpoint in.
    fn create_locked(&mut self, backend: &Backend, path: &Path) -> (r: Result<
        Endpoint,
        TeleportError,
    >)
        requires
            old(self).wf(),
            path.wf(),
            !old(self).is_poisoned(),
        ensures
            final(self).wf(),
            final(self).is_poisoned() == old(self).is_poisoned(),
            old(self).paths().contains_key(path@) ==> (match r {
                Ok(e) => e.id == old(self).paths()[path@] && e.spec_path() == path@ && final(self).paths()
                    == old(self).paths() && final(self).actives() == old(self).actives() && final(self).count() == old(self).count(),
                Err(_) => false,
            }),
            !old(self).paths().contains_key(path@) && backend.connected() ==> (match r {
                Ok(e) => e.id == old(self).count() && e.spec_path() == path@ && final(self).paths()
                    == old(self).paths().insert(path@, old(self).count()) && final(self).actives()
                    == old(self).actives().push(false) && final(self).count() == old(self).count()
                    + 1,
                Err(_) => false,
            }),
            !old(self).paths().contains_key(path@) && !backend.connected() ==> (r matches Err(e)
                && e == TeleportError::BackendUnavailable && final(self).paths() == old(self).paths() && final(self).actives() == old(self).actives() && final(self).count() == old(self).count()),
    {
        proof {
            lemma_path_map_contains(self.entries@, path@);
        }
        // Re-check: another caller may have raced ahead while the lock was
        // being upgraded.
        match self.find_index(path) {
            Some(i) => {
                proof {
                    lemma_path_map_index(self.entries@, i as int);
                }
                Ok(self.entries[i].endpoint.duplicate())
            },
            None => {
                if !backend.is_connected() {
                    return Err(TeleportError::BackendUnavailable);
                }
                let id = self.entries.len();
                let endpoint = Endpoint::create(id, path.duplicate());
                let handle = endpoint.duplicate();
                self.entries.push(Entry { path: path.duplicate(), endpoint, active: false });
                proof {
                    assert(self.entries@.drop_last() =~= old(self).entries@);
                    assert(self.actives() =~= old(self).actives().push(false));
                }
                Ok(handle)
            },
        }
    }
}

/// There is one activity flag per endpoint identifier.
pub broadcast proof fn lemma_actives_len(r: Registry)
    ensures
        #[trigger] r.actives().len() == r.count(),
{
}

/// Two registries whose observable store content is the same.
pub open spec fn same_store(a: Registry, b: Registry) -> bool {
    &&& a.paths() == b.paths()
    &&& a.actives() == b.actives()
    &&& a.count() == b.count()
}

/// One resolution of path `p` as the registry exposes it: the endpoint
/// identity `id` the caller received, over the bound paths before and
/// after.  If `p` was bound already, the caller received that binding and
/// nothing changed; otherwise exactly the one binding for `p` was added.
pub open spec fn resolution_step(
    pre: Map<Seq<Seq<char>>, nat>,
    post: Map<Seq<Seq<char>>, nat>,
    p: Seq<Seq<char>>,
    id: nat,
) -> bool {
    &&& post.contains_key(p)
    &&& post[p] == id
    &&& if pre.contains_key(p) {
        id == pre[p] && post == pre
    } else {
        post == pre.insert(p, id)
    }
}

/// Idempotent resolution: resolving the same path twice in a row yields
/// the same endpoint identity both times, and the second resolution
/// changes nothing.
pub proof fn lemma_idempotent_resolution(
    m0: Map<Seq<Seq<char>>, nat>,
    m1: Map<Seq<Seq<char>>, nat>,
    m2: Map<Seq<Seq<char>>, nat>,
    p: Seq<Seq<char>>,
    id1: nat,
    id2: nat,
)
    requires
        resolution_step(m0, m1, p, id1),
        resolution_step(m1, m2, p, id2),
    ensures
        id2 == id1,
        m2 == m1,
{
}

/// Single creation: once a path is bound to an endpoint, any later
/// resolution — of this or of any other path — keeps that binding, and a
/// caller resolving the path receives exactly that endpoint.  However many
/// callers race, all observe the one endpoint that was attached first.
pub proof fn lemma_single_creation(
    m0: Map<Seq<Seq<char>>, nat>,
    m1: Map<Seq<Seq<char>>, nat>,
    q: Seq<Seq<char>>,
    idq: nat,
    p: Seq<Seq<char>>,
    id: nat,
)
    requires
        m0.contains_key(p),
        m0[p] == id,
        resolution_step(m0, m1, q, idq),
    ensures
        m1.contains_key(p),
        m1[p] == id,
        q == p ==> idq == id,
{
}

} // verus!
