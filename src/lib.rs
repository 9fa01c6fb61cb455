//! A uniform adapter layer over approximate-nearest-neighbour index backends:
//! input marshalling, metric lookup, the index lifecycle, result projection and
//! the header that frames a persisted index.

pub mod error;
pub mod metric;
pub mod record;
pub mod adapter;
pub mod persist;
