use vstd::prelude::*;
use crate::error::IndexError;
use crate::metric::{Metric, metric_of, resolve_metric};
use crate::record::{VectorRecord, all_present, marshal, marshal_outcome};

verus! {

/// The backend algorithms that an adapter can stand in front of.
#[derive(Debug, Clone, Copy, PartialEq, Eq, Structural)]
pub enum BackendKind {
    /// Exact scan over every stored vector.
    BruteForce,
    /// Forest of random binary projection trees.
    BPForest,
    /// Hierarchical navigable small-world graph.
    Hnsw,
    /// Product quantization.
    PQ,
    /// Satellite-system graph.
    SatelliteSystemGraph,
}

impl BackendKind {
    /// Exact-scan backends answer searches without a build phase.
    pub open spec fn needs_build(self) -> bool {
        !(self is BruteForce)
    }

    pub fn requires_build(&self) -> (r: bool)
        ensures
            r == self.needs_build(),
    {
        match self {
            BackendKind::BruteForce => false,
            _ => true,
        }
    }

    /// The backend's name, for introspection and logging.
    pub open spec fn name_spec(self) -> Seq<char> {
        match self {
            BackendKind::BruteForce => "BruteForceIndex"@,
            BackendKind::BPForest => "BPForestIndex"@,
            BackendKind::Hnsw => "HNSWIndex"@,
            BackendKind::PQ => "PQIndex"@,
            BackendKind::SatelliteSystemGraph => "SatelliteSystemGraphIndex"@,
        }
    }

    pub fn name(&self) -> (r: String)
        ensures
            r@ == self.name_spec(),
    {
        match self {
            BackendKind::BruteForce => "BruteForceIndex".to_owned(),
            BackendKind::BPForest => "BPForestIndex".to_owned(),
            BackendKind::Hnsw => "HNSWIndex".to_owned(),
            BackendKind::PQ => "PQIndex".to_owned(),
            BackendKind::SatelliteSystemGraph => "SatelliteSystemGraphIndex".to_owned(),
        }
    }
}

/// Where an index stands in its life: nothing added, vectors added, built.
#[derive(Debug, Clone, Copy, PartialEq, Eq, Structural)]
pub enum Lifecycle {
    Empty,
    Populated,
    Constructed,
}

/// The state that the adapter layer keeps beside one backend instance: which
/// backend it is, the dimension fixed at creation, the lifecycle, the metric
/// of the last build, and how many vectors the backend holds.
#[derive(Debug, Clone, Copy, PartialEq, Eq, Structural)]
pub struct IndexAdapter {
    pub kind: BackendKind,
    pub dimension: usize,
    pub lifecycle: Lifecycle,
    pub metric: Option<Metric>,
    pub len: usize,
}

/// What adding a host sequence does to an adapter: the next state, or the error.
pub open spec fn add_outcome(a: IndexAdapter, values: Seq<Option<u32>>) -> Result<IndexAdapter, IndexError> {
    match marshal_outcome(values, a.dimension as nat) {
        Err(e) => Err(e),
        Ok(_) => if a.len == usize::MAX {
            Err(IndexError::CapacityExceeded)
        } else {
            Ok(IndexAdapter { lifecycle: Lifecycle::Populated, len: (a.len + 1) as usize, ..a })
        },
    }
}

/// What a build under the named metric does to an adapter.
pub open spec fn construct_outcome(a: IndexAdapter, name: Seq<char>) -> Result<IndexAdapter, IndexError> {
    match metric_of(name) {
        None => Err(IndexError::UnknownMetric),
        Some(m) => Ok(IndexAdapter { lifecycle: Lifecycle::Constructed, metric: Some(m), ..a }),
    }
}

/// How a search is answered: `Ok(None)` with no hits and no call to the
/// backend, `Ok(Some(q))` by asking the backend for the neighbours of `q`.
pub open spec fn search_outcome(a: IndexAdapter, values: Seq<Option<u32>>, k: nat) -> Result<Option<Seq<u32>>, IndexError> {
    if k == 0 || a.len == 0 {
        Ok(None)
    } else if a.kind.needs_build() && !(a.lifecycle is Constructed) {
        Err(IndexError::NotReadyForSearch)
    } else {
        match marshal_outcome(values, a.dimension as nat) {
            Ok(q) => Ok(Some(q)),
            Err(e) => Err(e),
        }
    }
}

impl IndexAdapter {
    pub open spec fn wf(self) -> bool {
        &&& self.lifecycle is Empty ==> self.len == 0 && self.metric is None
        &&& self.lifecycle is Populated ==> self.len > 0
        &&& self.lifecycle is Constructed ==> self.metric is Some
    }

    /// A new, empty adapter for a backend of the given kind and dimension.
    pub fn new(kind: BackendKind, dimension: usize) -> (r: IndexAdapter)
        ensures
            r.wf(),
            r == (IndexAdapter { kind, dimension, lifecycle: Lifecycle::Empty, metric: None, len: 0 }),
    {
        IndexAdapter { kind, dimension, lifecycle: Lifecycle::Empty, metric: None, len: 0 }
    }

    /// Marshals a vector for the backend and counts it in. On an error nothing
    /// changes. The record returned is what the backend is to store.
    pub fn add(&mut self, values: &Vec<Option<u32>>, identifier: Option<String>) -> (r: Result<VectorRecord, IndexError>)
        requires
            old(self).wf(),
        ensures
            final(self).wf(),
            match add_outcome(*old(self), values@) {
                Ok(next) => {
                    &&& *final(self) == next
                    &&& r matches Ok(rec) && marshal_outcome(values@, old(self).dimension as nat)
                        == Ok::<Seq<u32>, IndexError>(rec.vector@) && rec.identifier == identifier
                },
                Err(e) => *final(self) == *old(self) && r == Err::<VectorRecord, IndexError>(e),
            },
    {
        let rec = marshal(values, identifier, self.dimension);
        match rec {
            Err(e) => Err(e),
            Ok(rec) => {
                if self.len == usize::MAX {
                    return Err(IndexError::CapacityExceeded);
                }
                self.len = self.len + 1;
                self.lifecycle = Lifecycle::Populated;
                Ok(rec)
            },
        }
    }

    /// `add` with no identifier.
    pub fn add_without_identifier(&mut self, values: &Vec<Option<u32>>) -> (r: Result<VectorRecord, IndexError>)
        requires
            old(self).wf(),
        ensures
            final(self).wf(),
            match add_outcome(*old(self), values@) {
                Ok(next) => {
                    &&& *final(self) == next
                    &&& r matches Ok(rec) && marshal_outcome(values@, old(self).dimension as nat)
                        == Ok::<Seq<u32>, IndexError>(rec.vector@) && rec.identifier is None
                },
                Err(e) => *final(self) == *old(self) && r == Err::<VectorRecord, IndexError>(e),
            },
    {
        self.add(values, None)
    }

    /// Resolves the metric and marks the index as built for it; the caller
    /// runs the backend's build phase under the metric returned. An unknown
    /// name changes nothing.
    pub fn construct(&mut self, name: &str) -> (r: Result<Metric, IndexError>)
        requires
            old(self).wf(),
        ensures
            final(self).wf(),
            match construct_outcome(*old(self), name@) {
                Ok(next) => *final(self) == next && r == Ok::<Metric, IndexError>(next.metric->0),
                Err(e) => *final(self) == *old(self) && r == Err::<Metric, IndexError>(e),
            },
    {
        let m = resolve_metric(name);
        match m {
            Ok(m) => {
                self.lifecycle = Lifecycle::Constructed;
                self.metric = Some(m);
                Ok(m)
            },
            Err(e) => Err(e),
        }
    }

    /// Decides how a search for the `k` nearest neighbours of a host sequence
    /// is answered: with no hits at once, or by asking the backend for the
    /// neighbours of the marshalled query.
    pub fn plan_search(&self, values: &Vec<Option<u32>>, k: usize) -> (r: Result<Option<Vec<u32>>, IndexError>)
        requires
            self.wf(),
        ensures
            match search_outcome(*self, values@, k as nat) {
                Ok(None) => r matches Ok(None),
                Ok(Some(q)) => r matches Ok(Some(v)) && v@ == q,
                Err(e) => r == Err::<Option<Vec<u32>>, IndexError>(e),
            },
    {
        if k == 0 || self.len == 0 {
            return Ok(None);
        }
        if self.kind.requires_build() {
            match self.lifecycle {
                Lifecycle::Constructed => {},
                _ => {
                    return Err(IndexError::NotReadyForSearch);
                },
            }
        }
        match marshal(values, None, self.dimension) {
            Ok(rec) => Ok(Some(rec.vector)),
            Err(e) => Err(e),
        }
    }

    /// The name of the backend behind this adapter.
    pub fn name(&self) -> (r: String)
        ensures
            r@ == self.kind.name_spec(),
    {
        self.kind.name()
    }
}

/// A vector of the index's dimension whose elements are all floats is
/// accepted; one of another length is refused with `DimensionMismatch`, and
/// `add` then leaves the adapter as it was.
pub proof fn lemma_add_by_dimension(a: IndexAdapter, values: Seq<Option<u32>>)
    requires
        a.wf(),
        a.len < usize::MAX,
    ensures
        values.len() == a.dimension && all_present(values) ==> add_outcome(a, values)
            == Ok::<IndexAdapter, IndexError>(
            IndexAdapter { lifecycle: Lifecycle::Populated, len: (a.len + 1) as usize, ..a },
        ),
        values.len() != a.dimension ==> add_outcome(a, values) == Err::<IndexAdapter, IndexError>(
            IndexError::DimensionMismatch,
        ),
{
}

/// A build under an unknown metric name fails with `UnknownMetric` and keeps
/// every added vector; a later build under a known name succeeds, still over
/// the same vectors.
pub proof fn lemma_unknown_metric_then_known(a: IndexAdapter, bad: Seq<char>, good: Seq<char>)
    requires
        a.wf(),
        metric_of(bad) is None,
        metric_of(good) is Some,
    ensures
        construct_outcome(a, bad) == Err::<IndexAdapter, IndexError>(IndexError::UnknownMetric),
        construct_outcome(a, good) matches Ok(b) && b.wf() && b.lifecycle is Constructed && b.len
            == a.len && b.dimension == a.dimension && b.kind == a.kind,
{
}

/// A search for no neighbours, or in an index that holds no vectors, is
/// answered with no hits for every query.
pub proof fn lemma_empty_searches(a: IndexAdapter, values: Seq<Option<u32>>, k: nat)
    requires
        a.wf(),
    ensures
        search_outcome(a, values, 0) == Ok::<Option<Seq<u32>>, IndexError>(None),
        a.len == 0 ==> search_outcome(a, values, k) == Ok::<Option<Seq<u32>>, IndexError>(None),
        a.lifecycle is Empty ==> search_outcome(a, values, k) == Ok::<Option<Seq<u32>>, IndexError>(
            None,
        ),
{
}

} // verus!
