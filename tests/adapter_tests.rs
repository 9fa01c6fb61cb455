use fastann::adapter::{BackendKind, IndexAdapter, Lifecycle};
use fastann::error::IndexError;
use fastann::metric::{resolve_metric, Metric};
use fastann::record::{marshal, project_results, Neighbor, VectorRecord};

fn host(v: &[f32]) -> Vec<Option<u32>> {
    v.iter().map(|x| Some(x.to_bits())).collect()
}

fn bits(v: &[f32]) -> Vec<u32> {
    v.iter().map(|x| x.to_bits()).collect()
}

fn hit(id: &str, v: &[f32], d: f32) -> Neighbor {
    Neighbor {
        record: VectorRecord { vector: bits(v), identifier: Some(id.to_string()) },
        distance: d.to_bits(),
    }
}

#[test]
fn resolve_known_metrics() {
    assert_eq!(resolve_metric("angular"), Ok(Metric::Angular));
    assert_eq!(resolve_metric("manhattan"), Ok(Metric::Manhattan));
    assert_eq!(resolve_metric("dot_product"), Ok(Metric::DotProduct));
    assert_eq!(resolve_metric("euclidean"), Ok(Metric::Euclidean));
    assert_eq!(resolve_metric("cosine_similarity"), Ok(Metric::CosineSimilarity));
}

#[test]
fn resolve_unknown_metric() {
    assert_eq!(resolve_metric("Euclidean"), Err(IndexError::UnknownMetric));
    assert_eq!(resolve_metric(""), Err(IndexError::UnknownMetric));
    assert_eq!(resolve_metric("euclidean "), Err(IndexError::UnknownMetric));
    assert_eq!(resolve_metric("cosine"), Err(IndexError::UnknownMetric));
}

#[test]
fn marshal_accepts_matching_length() {
    let r = marshal(&host(&[1.0, -2.5, 0.0]), Some("x".to_string()), 3).unwrap();
    assert_eq!(r.vector, bits(&[1.0, -2.5, 0.0]));
    assert_eq!(r.identifier, Some("x".to_string()));
}

#[test]
fn marshal_rejects_wrong_length() {
    let r = marshal(&host(&[1.0, 2.0]), None, 3);
    assert_eq!(r.unwrap_err(), IndexError::DimensionMismatch);
    let r = marshal(&host(&[1.0, 2.0, 3.0, 4.0]), None, 3);
    assert_eq!(r.unwrap_err(), IndexError::DimensionMismatch);
}

#[test]
fn marshal_rejects_invalid_element() {
    let v = vec![Some(1.0f32.to_bits()), None, Some(3.0f32.to_bits())];
    assert_eq!(marshal(&v, None, 3).unwrap_err(), IndexError::InvalidElement);
}

#[test]
fn marshal_length_is_checked_first() {
    let v = vec![None, None];
    assert_eq!(marshal(&v, None, 3).unwrap_err(), IndexError::DimensionMismatch);
}

#[test]
fn marshal_empty_dimension() {
    let r = marshal(&Vec::new(), None, 0).unwrap();
    assert!(r.vector.is_empty());
    assert!(r.identifier.is_none());
}

#[test]
fn add_of_matching_length_populates() {
    let mut a = IndexAdapter::new(BackendKind::BruteForce, 3);
    assert_eq!(a.lifecycle, Lifecycle::Empty);
    let rec = a.add(&host(&[1.0, 0.0, 0.0]), Some("a".to_string())).unwrap();
    assert_eq!(rec.vector, bits(&[1.0, 0.0, 0.0]));
    assert_eq!(rec.identifier, Some("a".to_string()));
    assert_eq!(a.len, 1);
    assert_eq!(a.lifecycle, Lifecycle::Populated);
    let rec = a.add_without_identifier(&host(&[0.0, 1.0, 0.0])).unwrap();
    assert!(rec.identifier.is_none());
    assert_eq!(a.len, 2);
}

#[test]
fn add_of_wrong_length_changes_nothing() {
    let mut a = IndexAdapter::new(BackendKind::Hnsw, 3);
    a.add(&host(&[1.0, 0.0, 0.0]), None).unwrap();
    let before = a;
    let r = a.add(&host(&[1.0, 0.0]), Some("b".to_string()));
    assert_eq!(r.unwrap_err(), IndexError::DimensionMismatch);
    assert_eq!(a, before);
    let r = a.add_without_identifier(&vec![Some(0), None, Some(0)]);
    assert_eq!(r.unwrap_err(), IndexError::InvalidElement);
    assert_eq!(a, before);
}

#[test]
fn add_on_empty_with_wrong_length_stays_empty() {
    let mut a = IndexAdapter::new(BackendKind::PQ, 4);
    assert_eq!(a.add(&host(&[1.0]), None).unwrap_err(), IndexError::DimensionMismatch);
    assert_eq!(a, IndexAdapter::new(BackendKind::PQ, 4));
}

#[test]
fn add_at_full_count_is_capacity_exceeded() {
    let mut a = IndexAdapter::new(BackendKind::BruteForce, 1);
    a.lifecycle = Lifecycle::Populated;
    a.len = usize::MAX;
    let before = a;
    assert_eq!(a.add(&host(&[1.0]), None).unwrap_err(), IndexError::CapacityExceeded);
    assert_eq!(a, before);
}

#[test]
fn construct_unknown_then_known() {
    let mut a = IndexAdapter::new(BackendKind::BPForest, 2);
    a.add(&host(&[1.0, 2.0]), None).unwrap();
    a.add(&host(&[3.0, 4.0]), None).unwrap();
    let before = a;
    assert_eq!(a.construct("euclid"), Err(IndexError::UnknownMetric));
    assert_eq!(a, before);
    assert_eq!(a.lifecycle, Lifecycle::Populated);
    assert_eq!(a.construct("manhattan"), Ok(Metric::Manhattan));
    assert_eq!(a.lifecycle, Lifecycle::Constructed);
    assert_eq!(a.metric, Some(Metric::Manhattan));
    assert_eq!(a.len, 2);
}

#[test]
fn construct_again_rebuilds() {
    let mut a = IndexAdapter::new(BackendKind::SatelliteSystemGraph, 2);
    a.add(&host(&[1.0, 2.0]), None).unwrap();
    a.construct("euclidean").unwrap();
    assert_eq!(a.construct("dot_product"), Ok(Metric::DotProduct));
    assert_eq!(a.metric, Some(Metric::DotProduct));
    assert_eq!(a.construct("nope"), Err(IndexError::UnknownMetric));
    assert_eq!(a.metric, Some(Metric::DotProduct));
    assert_eq!(a.lifecycle, Lifecycle::Constructed);
}

#[test]
fn search_with_k_zero_is_empty() {
    let mut a = IndexAdapter::new(BackendKind::BruteForce, 3);
    a.add(&host(&[1.0, 0.0, 0.0]), None).unwrap();
    assert!(a.plan_search(&host(&[1.0, 0.0, 0.0]), 0).unwrap().is_none());
    assert!(a.plan_search(&host(&[1.0]), 0).unwrap().is_none());
}

#[test]
fn search_on_empty_index_is_empty() {
    for kind in [
        BackendKind::BruteForce,
        BackendKind::BPForest,
        BackendKind::Hnsw,
        BackendKind::PQ,
        BackendKind::SatelliteSystemGraph,
    ] {
        let a = IndexAdapter::new(kind, 3);
        assert!(a.plan_search(&host(&[1.0, 2.0, 3.0]), 5).unwrap().is_none());
        assert!(a.plan_search(&host(&[1.0]), 5).unwrap().is_none());
        assert!(a.plan_search(&vec![None, None, None], 5).unwrap().is_none());
    }
}

#[test]
fn search_before_build_needs_construct() {
    let mut a = IndexAdapter::new(BackendKind::Hnsw, 2);
    a.add(&host(&[1.0, 2.0]), None).unwrap();
    assert_eq!(a.plan_search(&host(&[1.0, 2.0]), 3).unwrap_err(), IndexError::NotReadyForSearch);
    a.construct("angular").unwrap();
    assert_eq!(a.plan_search(&host(&[1.0, 2.0]), 3).unwrap(), Some(bits(&[1.0, 2.0])));
    a.add(&host(&[5.0, 6.0]), None).unwrap();
    assert_eq!(a.lifecycle, Lifecycle::Populated);
    assert_eq!(a.plan_search(&host(&[1.0, 2.0]), 3).unwrap_err(), IndexError::NotReadyForSearch);
}

#[test]
fn exact_scan_searches_while_populated() {
    let mut a = IndexAdapter::new(BackendKind::BruteForce, 2);
    a.add(&host(&[1.0, 2.0]), None).unwrap();
    assert_eq!(a.plan_search(&host(&[0.5, -1.0]), 1).unwrap(), Some(bits(&[0.5, -1.0])));
}

#[test]
fn search_query_is_marshalled() {
    let mut a = IndexAdapter::new(BackendKind::BruteForce, 2);
    a.add(&host(&[1.0, 2.0]), None).unwrap();
    assert_eq!(a.plan_search(&host(&[1.0]), 1).unwrap_err(), IndexError::DimensionMismatch);
    assert_eq!(a.plan_search(&vec![Some(0), None], 1).unwrap_err(), IndexError::InvalidElement);
}

#[test]
fn projection_keeps_first_k_in_order() {
    let native = vec![hit("a", &[1.0], 0.0), hit("b", &[2.0], 1.0), hit("c", &[3.0], 2.0)];
    let r = project_results(native, 2);
    assert_eq!(r.len(), 2);
    assert_eq!(r[0].record.identifier, Some("a".to_string()));
    assert_eq!(r[1].record.identifier, Some("b".to_string()));
    assert_eq!(r[1].record.vector, bits(&[2.0]));
    assert_eq!(f32::from_bits(r[1].distance), 1.0);
}

#[test]
fn projection_with_large_k_keeps_all() {
    let native = vec![hit("b", &[2.0], 1.0), hit("a", &[1.0], 1.0)];
    let r = project_results(native, 10);
    assert_eq!(r.len(), 2);
    assert_eq!(r[0].record.identifier, Some("b".to_string()));
    assert_eq!(r[1].record.identifier, Some("a".to_string()));
}

#[test]
fn projection_with_k_zero_is_empty() {
    let native = vec![hit("a", &[1.0], 0.0)];
    assert!(project_results(native, 0).is_empty());
    assert!(project_results(Vec::new(), 5).is_empty());
}

#[test]
fn backend_names() {
    assert_eq!(IndexAdapter::new(BackendKind::BruteForce, 1).name(), "BruteForceIndex");
    assert_eq!(IndexAdapter::new(BackendKind::BPForest, 1).name(), "BPForestIndex");
    assert_eq!(IndexAdapter::new(BackendKind::Hnsw, 1).name(), "HNSWIndex");
    assert_eq!(IndexAdapter::new(BackendKind::PQ, 1).name(), "PQIndex");
    assert_eq!(
        IndexAdapter::new(BackendKind::SatelliteSystemGraph, 1).name(),
        "SatelliteSystemGraphIndex"
    );
    assert!(!BackendKind::BruteForce.requires_build());
    assert!(BackendKind::PQ.requires_build());
}
