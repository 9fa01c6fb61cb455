use vstd::prelude::*;
use crate::error::IndexError;

verus! {

/// A vector of 32-bit floats, each held as its IEEE-754 bit pattern, and an
/// optional identifier that the index carries along without reading it.
#[derive(Debug)]
pub struct VectorRecord {
    pub vector: Vec<u32>,
    pub identifier: Option<String>,
}

/// One search hit: the stored record and its distance to the query (a 32-bit
/// float held as its bit pattern).
#[derive(Debug)]
pub struct Neighbor {
    pub record: VectorRecord,
    pub distance: u32,
}

/// Every element of a host sequence could be read as a 32-bit float.
pub open spec fn all_present(values: Seq<Option<u32>>) -> bool {
    forall|i: int| 0 <= i < values.len() ==> (#[trigger] values[i]) is Some
}

/// The elements of a host sequence, each read as a float.
pub open spec fn present_values(values: Seq<Option<u32>>) -> Seq<u32> {
    values.map_values(|v: Option<u32>| v->0)
}

/// What marshalling a host sequence into a record of the given dimension gives.
pub open spec fn marshal_outcome(values: Seq<Option<u32>>, dimension: nat) -> Result<Seq<u32>, IndexError> {
    if values.len() != dimension {
        Err(IndexError::DimensionMismatch)
    } else if !all_present(values) {
        Err(IndexError::InvalidElement)
    } else {
        Ok(present_values(values))
    }
}

/// Turns a host sequence (`None` where an element is not a 32-bit float) into a
/// record of the given dimension. A failure hands back no part of a record.
pub fn marshal(values: &Vec<Option<u32>>, identifier: Option<String>, dimension: usize) -> (r: Result<VectorRecord, IndexError>)
    ensures
        match marshal_outcome(values@, dimension as nat) {
            Ok(v) => r matches Ok(rec) && rec.vector@ == v && rec.identifier == identifier,
            Err(e) => r == Err::<VectorRecord, IndexError>(e),
        },
{
    if values.len() != dimension {
        return Err(IndexError::DimensionMismatch);
    }
    let mut vector: Vec<u32> = Vec::new();
    let mut i: usize = 0;
    while i < values.len()
        invariant
            i <= values@.len(),
            values@.len() == dimension,
            vector@ == present_values(values@.subrange(0, i as int)),
            all_present(values@.subrange(0, i as int)),
        decreases values@.len() - i,
    {
        match values[i] {
            Some(x) => {
                vector.push(x);
            },
            None => {
                assert(!all_present(values@)) by {
                    assert(values@[i as int] is None);
                }
                return Err(IndexError::InvalidElement);
            },
        }
        assert(values@.subrange(0, i + 1) == values@.subrange(0, i as int).push(values@[i as int]));
        i = i + 1;
    }
    assert(values@.subrange(0, i as int) == values@);
    Ok(VectorRecord { vector, identifier })
}

/// The order of 32-bit floats, read off their bit patterns: the sign bit makes
/// the magnitude negative, and the two zeros compare equal.
pub open spec fn distance_key(bits: u32) -> int {
    if bits < 0x8000_0000 {
        bits as int
    } else {
        0x8000_0000 - bits as int
    }
}

/// The hits stand in ascending order of distance.
pub open spec fn sorted_by_distance(hits: Seq<Neighbor>) -> bool {
    forall|i: int, j: int|
        0 <= i < j < hits.len() ==> distance_key(#[trigger] hits[i].distance) <= distance_key(
            #[trigger] hits[j].distance,
        )
}

/// The first `k` hits of a list, or all of them where there are fewer.
pub open spec fn first_k(hits: Seq<Neighbor>, k: nat) -> Seq<Neighbor> {
    if k < hits.len() {
        hits.take(k as int)
    } else {
        hits
    }
}

/// Turns a backend's neighbour list into the host-facing result: its first `k`
/// entries, in the backend's own order.
pub fn project_results(native: Vec<Neighbor>, k: usize) -> (r: Vec<Neighbor>)
    ensures
        r@ == first_k(native@, k as nat),
{
    let mut hits = native;
    hits.truncate(k);
    hits
}

/// A projected result never holds more than `k` hits, none at all for `k == 0`,
/// and keeps the ascending order of distance in which the backend hands its
/// hits over.
pub proof fn lemma_projection_bounded_and_sorted(hits: Seq<Neighbor>, k: nat)
    ensures
        first_k(hits, k).len() <= k,
        k == 0 ==> first_k(hits, k).len() == 0,
        sorted_by_distance(hits) ==> sorted_by_distance(first_k(hits, k)),
{
}

} // verus!
