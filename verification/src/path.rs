//! Canonical hierarchical identifiers: a path is an ordered, non-empty
//! sequence of string segments, and the sole lookup key into the registry.

use vstd::prelude::*;

verus! {

/// An ordered, non-empty sequence of string segments identifying one metric
/// or log stream.  Two paths are equal iff their segment sequences are equal
/// element-wise; segments are used verbatim, with no normalization.
#[derive(Debug)]
pub struct Path {
    segs: Vec<String>,
}

impl View for Path {
    type V = Seq<Seq<char>>;

    closed spec fn view(&self) -> Seq<Seq<char>> {
        self.segs.deep_view()
    }
}

impl Path {
    /// Every path carries at least one segment.
    pub open spec fn wf(&self) -> bool {
        self@.len() >= 1
    }

    /// Builds a path from explicit segments.
    pub fn from_segments(segs: Vec<String>) -> (p: Path)
        requires
            segs@.len() >= 1,
        ensures
            p@ == segs.deep_view(),
            p.wf(),
    {
        Path { segs }
    }

    /// The segments, in order.
    pub fn segments(&self) -> (r: &Vec<String>)
        ensures
            r.deep_view() == self@,
    {
        &self.segs
    }

    /// Number of segments.
    pub fn len(&self) -> (n: usize)
        ensures
            n == self@.len(),
    {
        self.segs.len()
    }

    /// The path extended by one final segment.
    pub fn child(&self, name: &String) -> (r: Path)
        ensures
            r@ == self@.push(name@),
    {
        let mut segs = clone_segments(&self.segs);
        segs.push(name.clone());
        let r = Path { segs };
        proof {
            assert(r@ =~~= self@.push(name@));
        }
        r
    }

    /// A copy of the path.
    pub fn duplicate(&self) -> (r: Path)
        ensures
            r@ == self@,
    {
        Path { segs: clone_segments(&self.segs) }
    }

    /// Value comparison of two paths.
    pub fn equals(&self, other: &Path) -> (r: bool)
        ensures
            r == (self@ == other@),
    {
        if self.segs.len() != other.segs.len() {
            proof {
                assert(self@.len() == self.segs@.len());
                assert(other@.len() == other.segs@.len());
            }
            return false;
        }
        let mut i: usize = 0;
        while i < self.segs.len()
            invariant
                i <= self.segs.len(),
                self.segs.len() == other.segs.len(),
                forall|j: int| 0 <= j < i ==> self@[j] == other@[j],
            decreases self.segs.len() - i,
        {
            if !(self.segs[i] == other.segs[i]) {
                proof {
                    assert(self@[i as int] == self.segs@[i as int]@);
                    assert(other@[i as int] == other.segs@[i as int]@);
                }
                return false;
            }
            i = i + 1;
        }
        proof {
            assert(self@ =~= other@);
        }
        true
    }
}

/// Copies a vector of segments.
fn clone_segments(v: &Vec<String>) -> (r: Vec<String>)
    ensures
        r@ == v@,
{
    let mut r: Vec<String> = Vec::new();
    let mut i: usize = 0;
    while i < v.len()
        invariant
            i <= v.len(),
            r@ == v@.subrange(0, i as int),
        decreases v.len() - i,
    {
        r.push(v[i].clone());
        proof {
            assert(r@ =~= v@.subrange(0, i + 1 as int));
        }
        i = i + 1;
    }
    proof {
        assert(v@.subrange(0, v@.len() as int) =~= v@);
    }
    r
}

/// Whether an optional segment takes part in a path: it must be present and
/// non-empty.
pub open spec fn spec_included(o: Option<Seq<char>>) -> bool {
    o is Some && o->0.len() > 0
}

/// The canonical ordered segments for a report's shared metadata.  Rules,
/// applied in order: the host and the source always come first; the source
/// instance follows iff present and non-empty; the metric type follows
/// unless it is textually identical to the source; the type instance
/// follows iff present and non-empty.
pub open spec fn spec_basic_segments(
    host: Seq<char>,
    source: Seq<char>,
    source_instance: Option<Seq<char>>,
    metric_type: Seq<char>,
    type_instance: Option<Seq<char>>,
) -> Seq<Seq<char>> {
    let a = seq![host, source];
    let b = if spec_included(source_instance) {
        a.push(source_instance->0)
    } else {
        a
    };
    let c = if metric_type == source {
        b
    } else {
        b.push(metric_type)
    };
    if spec_included(type_instance) {
        c.push(type_instance->0)
    } else {
        c
    }
}

/// Deterministically builds the canonical path for a report's shared
/// metadata.  Pure: equal inputs give equal paths.
pub fn build_basic(
    host: &String,
    source: &String,
    source_instance: &Option<String>,
    metric_type: &String,
    type_instance: &Option<String>,
) -> (p: Path)
    ensures
        p@ == spec_basic_segments(
            host@,
            source@,
            source_instance.deep_view(),
            metric_type@,
            type_instance.deep_view(),
        ),
        p.wf(),
{
    let mut segs: Vec<String> = Vec::new();
    segs.push(host.clone());
    segs.push(source.clone());
    if let Some(si) = source_instance {
        if !si.as_str().is_empty() {
            segs.push(si.clone());
        }
    }
    if !(*metric_type == *source) {
        segs.push(metric_type.clone());
    }
    if let Some(ti) = type_instance {
        if !ti.as_str().is_empty() {
            segs.push(ti.clone());
        }
    }
    let p = Path { segs };
    proof {
        let expect = spec_basic_segments(
            host@,
            source@,
            source_instance.deep_view(),
            metric_type@,
            type_instance.deep_view(),
        );
        assert(p@.len() == expect.len());
        assert forall|j: int| 0 <= j < p@.len() implies p@[j] == expect[j] by {
            assert(p@[j] == segs@[j]@);
        }
        assert(p@ =~= expect);
    }
    p
}

/// When the metric type mirrors the source name, the basic path omits the
/// metric-type segment: the result is exactly the host and source segments,
/// followed by whichever of the two instance segments take part.
pub proof fn lemma_metric_type_dedup(
    host: Seq<char>,
    source: Seq<char>,
    source_instance: Option<Seq<char>>,
    type_instance: Option<Seq<char>>,
)
    ensures
        spec_basic_segments(host, source, source_instance, source, type_instance) == {
            let a = seq![host, source];
            let b = if spec_included(source_instance) {
                a.push(source_instance->0)
            } else {
                a
            };
            if spec_included(type_instance) {
                b.push(type_instance->0)
            } else {
                b
            }
        },
        !spec_included(source_instance) && !spec_included(type_instance)
            ==> spec_basic_segments(host, source, source_instance, source, type_instance)
                == seq![host, source],
{
}

} // verus!
