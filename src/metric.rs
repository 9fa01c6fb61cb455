use vstd::prelude::*;
use crate::error::IndexError;

verus! {

/// The distance functions that an index can be built for.
#[derive(Debug, Clone, Copy, PartialEq, Eq, Structural)]
pub enum Metric {
    Angular,
    Manhattan,
    DotProduct,
    Euclidean,
    CosineSimilarity,
}

/// The metric that a name stands for, if the registry knows it.
pub open spec fn metric_of(name: Seq<char>) -> Option<Metric> {
    if name == "angular"@ {
        Some(Metric::Angular)
    } else if name == "manhattan"@ {
        Some(Metric::Manhattan)
    } else if name == "dot_product"@ {
        Some(Metric::DotProduct)
    } else if name == "euclidean"@ {
        Some(Metric::Euclidean)
    } else if name == "cosine_similarity"@ {
        Some(Metric::CosineSimilarity)
    } else {
        None
    }
}

fn same_text(a: &String, b: &str) -> (r: bool)
    ensures
        r == (a@ == b@),
{
    let owned = b.to_owned();
    *a == owned
}

/// Looks a metric up by its name; an unknown name is an error, never a default.
pub fn resolve_metric(name: &str) -> (r: Result<Metric, IndexError>)
    ensures
        match metric_of(name@) {
            Some(m) => r == Ok::<Metric, IndexError>(m),
            None => r == Err::<Metric, IndexError>(IndexError::UnknownMetric),
        },
{
    let n = name.to_owned();
    if same_text(&n, "angular") {
        Ok(Metric::Angular)
    } else if same_text(&n, "manhattan") {
        Ok(Metric::Manhattan)
    } else if same_text(&n, "dot_product") {
        Ok(Metric::DotProduct)
    } else if same_text(&n, "euclidean") {
        Ok(Metric::Euclidean)
    } else if same_text(&n, "cosine_similarity") {
        Ok(Metric::CosineSimilarity)
    } else {
        Err(IndexError::UnknownMetric)
    }
}

} // verus!
