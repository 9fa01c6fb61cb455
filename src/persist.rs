use vstd::prelude::*;
use crate::adapter::{BackendKind, IndexAdapter, Lifecycle, search_outcome};
use crate::error::IndexError;
use crate::metric::Metric;

verus! {

/// Length of the header that opens a persisted index; the backend's own bytes
/// follow it.
pub const HEADER_LEN: usize = 24;

/// Version of the header layout.
pub const FORMAT_VERSION: u8 = 1;

/// The four bytes that open every header.
pub open spec fn magic() -> Seq<u8> {
    seq![0x46u8, 0x41u8, 0x4Eu8, 0x4Eu8]
}

pub open spec fn kind_tag(k: BackendKind) -> u8 {
    match k {
        BackendKind::BruteForce => 0,
        BackendKind::BPForest => 1,
        BackendKind::Hnsw => 2,
        BackendKind::PQ => 3,
        BackendKind::SatelliteSystemGraph => 4,
    }
}

pub open spec fn kind_of_tag(t: u8) -> Option<BackendKind> {
    if t == 0 {
        Some(BackendKind::BruteForce)
    } else if t == 1 {
        Some(BackendKind::BPForest)
    } else if t == 2 {
        Some(BackendKind::Hnsw)
    } else if t == 3 {
        Some(BackendKind::PQ)
    } else if t == 4 {
        Some(BackendKind::SatelliteSystemGraph)
    } else {
        None
    }
}

pub open spec fn lifecycle_tag(l: Lifecycle) -> u8 {
    match l {
        Lifecycle::Empty => 0,
        Lifecycle::Populated => 1,
        Lifecycle::Constructed => 2,
    }
}

pub open spec fn lifecycle_of_tag(t: u8) -> Option<Lifecycle> {
    if t == 0 {
        Some(Lifecycle::Empty)
    } else if t == 1 {
        Some(Lifecycle::Populated)
    } else if t == 2 {
        Some(Lifecycle::Constructed)
    } else {
        None
    }
}

/// `0` stands for no metric.
pub open spec fn metric_tag(m: Option<Metric>) -> u8 {
    match m {
        None => 0,
        Some(Metric::Angular) => 1,
        Some(Metric::Manhattan) => 2,
        Some(Metric::DotProduct) => 3,
        Some(Metric::Euclidean) => 4,
        Some(Metric::CosineSimilarity) => 5,
    }
}

pub open spec fn metric_of_tag(t: u8) -> Option<Option<Metric>> {
    if t == 0 {
        Some(None)
    } else if t == 1 {
        Some(Some(Metric::Angular))
    } else if t == 2 {
        Some(Some(Metric::Manhattan))
    } else if t == 3 {
        Some(Some(Metric::DotProduct))
    } else if t == 4 {
        Some(Some(Metric::Euclidean))
    } else if t == 5 {
        Some(Some(Metric::CosineSimilarity))
    } else {
        None
    }
}

/// The eight bytes of a `u64`, least significant first.
pub open spec fn le_bytes(v: u64) -> Seq<u8> {
    seq![
        v as u8,
        (v >> 8u64) as u8,
        (v >> 16u64) as u8,
        (v >> 24u64) as u8,
        (v >> 32u64) as u8,
        (v >> 40u64) as u8,
        (v >> 48u64) as u8,
        (v >> 56u64) as u8,
    ]
}

/// The `u64` whose eight bytes, least significant first, start at `at`.
pub open spec fn le_value(s: Seq<u8>, at: int) -> u64 {
    (s[at] as u64) | ((s[at + 1] as u64) << 8u64) | ((s[at + 2] as u64) << 16u64) | ((s[at + 3] as u64)
        << 24u64) | ((s[at + 4] as u64) << 32u64) | ((s[at + 5] as u64) << 40u64) | ((s[at + 6] as u64)
        << 48u64) | ((s[at + 7] as u64) << 56u64)
}

/// The header that records an adapter's state.
pub open spec fn header_bytes(a: IndexAdapter) -> Seq<u8> {
    magic() + seq![FORMAT_VERSION, kind_tag(a.kind), lifecycle_tag(a.lifecycle), metric_tag(a.metric)]
        + le_bytes(a.dimension as u64) + le_bytes(a.len as u64)
}

/// The adapter state that a byte sequence opens with, if it holds a header of
/// a well-formed state.
pub open spec fn parse_header(s: Seq<u8>) -> Option<IndexAdapter> {
    if s.len() < HEADER_LEN || s.subrange(0, 4) != magic() || s[4] != FORMAT_VERSION {
        None
    } else {
        let dimension = le_value(s.subrange(8, 16), 0);
        let len = le_value(s.subrange(16, 24), 0);
        match (kind_of_tag(s[5]), lifecycle_of_tag(s[6]), metric_of_tag(s[7])) {
            (Some(kind), Some(lifecycle), Some(metric)) => {
                if dimension > usize::MAX || len > usize::MAX {
                    None
                } else {
                    let a = IndexAdapter {
                        kind,
                        dimension: dimension as usize,
                        lifecycle,
                        metric,
                        len: len as usize,
                    };
                    if a.wf() {
                        Some(a)
                    } else {
                        None
                    }
                }
            },
            _ => None,
        }
    }
}

proof fn lemma_le_round_trip(v: u64)
    ensures
        le_value(le_bytes(v), 0) == v,
{
    let b0 = v as u8;
    let b1 = (v >> 8u64) as u8;
    let b2 = (v >> 16u64) as u8;
    let b3 = (v >> 24u64) as u8;
    let b4 = (v >> 32u64) as u8;
    let b5 = (v >> 40u64) as u8;
    let b6 = (v >> 48u64) as u8;
    let b7 = (v >> 56u64) as u8;
    assert((b0 as u64) | ((b1 as u64) << 8u64) | ((b2 as u64) << 16u64) | ((b3 as u64) << 24u64) | ((
    b4 as u64) << 32u64) | ((b5 as u64) << 40u64) | ((b6 as u64) << 48u64) | ((b7 as u64) << 56u64)
        == v) by (bit_vector)
        requires
            b0 == v as u8,
            b1 == (v >> 8u64) as u8,
            b2 == (v >> 16u64) as u8,
            b3 == (v >> 24u64) as u8,
            b4 == (v >> 32u64) as u8,
            b5 == (v >> 40u64) as u8,
            b6 == (v >> 48u64) as u8,
            b7 == (v >> 56u64) as u8,
    ;
}

fn kind_to_tag(k: BackendKind) -> (r: u8)
    ensures
        r == kind_tag(k),
{
    match k {
        BackendKind::BruteForce => 0,
        BackendKind::BPForest => 1,
        BackendKind::Hnsw => 2,
        BackendKind::PQ => 3,
        BackendKind::SatelliteSystemGraph => 4,
    }
}

fn tag_to_kind(t: u8) -> (r: Option<BackendKind>)
    ensures
        r == kind_of_tag(t),
{
    match t {
        0 => Some(BackendKind::BruteForce),
        1 => Some(BackendKind::BPForest),
        2 => Some(BackendKind::Hnsw),
        3 => Some(BackendKind::PQ),
        4 => Some(BackendKind::SatelliteSystemGraph),
        _ => None,
    }
}

fn lifecycle_to_tag(l: Lifecycle) -> (r: u8)
    ensures
        r == lifecycle_tag(l),
{
    match l {
        Lifecycle::Empty => 0,
        Lifecycle::Populated => 1,
        Lifecycle::Constructed => 2,
    }
}

fn tag_to_lifecycle(t: u8) -> (r: Option<Lifecycle>)
    ensures
        r == lifecycle_of_tag(t),
{
    match t {
        0 => Some(Lifecycle::Empty),
        1 => Some(Lifecycle::Populated),
        2 => Some(Lifecycle::Constructed),
        _ => None,
    }
}

fn metric_to_tag(m: Option<Metric>) -> (r: u8)
    ensures
        r == metric_tag(m),
{
    match m {
        None => 0,
        Some(Metric::Angular) => 1,
        Some(Metric::Manhattan) => 2,
        Some(Metric::DotProduct) => 3,
        Some(Metric::Euclidean) => 4,
        Some(Metric::CosineSimilarity) => 5,
    }
}

fn tag_to_metric(t: u8) -> (r: Option<Option<Metric>>)
    ensures
        r == metric_of_tag(t),
{
    match t {
        0 => Some(None),
        1 => Some(Some(Metric::Angular)),
        2 => Some(Some(Metric::Manhattan)),
        3 => Some(Some(Metric::DotProduct)),
        4 => Some(Some(Metric::Euclidean)),
        5 => Some(Some(Metric::CosineSimilarity)),
        _ => None,
    }
}

fn push_le(out: &mut Vec<u8>, v: u64)
    ensures
        final(out)@ == old(out)@ + le_bytes(v),
{
    out.push(v as u8);
    out.push((v >> 8u64) as u8);
    out.push((v >> 16u64) as u8);
    out.push((v >> 24u64) as u8);
    out.push((v >> 32u64) as u8);
    out.push((v >> 40u64) as u8);
    out.push((v >> 48u64) as u8);
    out.push((v >> 56u64) as u8);
    assert(out@ =~= old(out)@ + le_bytes(v));
}

fn read_le(bytes: &[u8], at: usize) -> (r: u64)
    requires
        at + 8 <= bytes@.len(),
    ensures
        r == le_value(bytes@.subrange(at as int, at + 8), 0),
{
    let s = Ghost(bytes@.subrange(at as int, at + 8));
    assert(s@[0] == bytes@[at as int] && s@[1] == bytes@[at + 1] && s@[2] == bytes@[at + 2] && s@[3]
        == bytes@[at + 3] && s@[4] == bytes@[at + 4] && s@[5] == bytes@[at + 5] && s@[6] == bytes@[at
        + 6] && s@[7] == bytes@[at + 7]);
    (bytes[at] as u64) | ((bytes[at + 1] as u64) << 8u64) | ((bytes[at + 2] as u64) << 16u64) | ((
    bytes[at + 3] as u64) << 24u64) | ((bytes[at + 4] as u64) << 32u64) | ((bytes[at + 5] as u64)
        << 40u64) | ((bytes[at + 6] as u64) << 48u64) | ((bytes[at + 7] as u64) << 56u64)
}

impl IndexAdapter {
    /// The header that records this adapter's state; a persisted index is this
    /// header followed by the backend's own bytes.
    pub fn dump_header(&self) -> (r: Vec<u8>)
        ensures
            r@ == header_bytes(*self),
    {
        let mut out: Vec<u8> = Vec::new();
        out.push(0x46u8);
        out.push(0x41u8);
        out.push(0x4Eu8);
        out.push(0x4Eu8);
        out.push(FORMAT_VERSION);
        out.push(kind_to_tag(self.kind));
        out.push(lifecycle_to_tag(self.lifecycle));
        out.push(metric_to_tag(self.metric));
        push_le(&mut out, self.dimension as u64);
        push_le(&mut out, self.len as u64);
        assert(out@ =~= header_bytes(*self));
        out
    }

    /// Reads back the adapter state that a persisted index opens with; bytes
    /// that hold no header of a well-formed state are a `SerializationFailure`.
    pub fn load_header(bytes: &[u8]) -> (r: Result<IndexAdapter, IndexError>)
        ensures
            match parse_header(bytes@) {
                Some(a) => r == Ok::<IndexAdapter, IndexError>(a) && a.wf(),
                None => r == Err::<IndexAdapter, IndexError>(IndexError::SerializationFailure),
            },
    {
        if bytes.len() < HEADER_LEN {
            return Err(IndexError::SerializationFailure);
        }
        if !(bytes[0] == 0x46u8 && bytes[1] == 0x41u8 && bytes[2] == 0x4Eu8 && bytes[3] == 0x4Eu8) {
            assert(bytes@.subrange(0, 4) != magic()) by {
                let m = bytes@.subrange(0, 4);
                if m == magic() {
                    assert(m[0] == magic()[0] && m[1] == magic()[1] && m[2] == magic()[2] && m[3]
                        == magic()[3]);
                }
            }
            return Err(IndexError::SerializationFailure);
        }
        assert(bytes@.subrange(0, 4) =~= magic());
        if bytes[4] != FORMAT_VERSION {
            return Err(IndexError::SerializationFailure);
        }
        let dimension = read_le(bytes, 8);
        let len = read_le(bytes, 16);
        let kind = tag_to_kind(bytes[5]);
        let lifecycle = tag_to_lifecycle(bytes[6]);
        let metric = tag_to_metric(bytes[7]);
        match (kind, lifecycle, metric) {
            (Some(kind), Some(lifecycle), Some(metric)) => {
                if dimension > usize::MAX as u64 || len > usize::MAX as u64 {
                    return Err(IndexError::SerializationFailure);
                }
                let a = IndexAdapter {
                    kind,
                    dimension: dimension as usize,
                    lifecycle,
                    metric,
                    len: len as usize,
                };
                let ok = match a.lifecycle {
                    Lifecycle::Empty => a.len == 0 && a.metric.is_none(),
                    Lifecycle::Populated => a.len > 0,
                    Lifecycle::Constructed => a.metric.is_some(),
                };
                if ok {
                    Ok(a)
                } else {
                    Err(IndexError::SerializationFailure)
                }
            },
            _ => Err(IndexError::SerializationFailure),
        }
    }
}

impl IndexAdapter {
    /// The bytes of a persisted index: this adapter's header, then the
    /// backend's own bytes.
    pub fn frame_dump(&self, backend: &[u8]) -> (r: Vec<u8>)
        ensures
            r@ == header_bytes(*self) + backend@,
    {
        let mut out = self.dump_header();
        let mut i: usize = 0;
        while i < backend.len()
            invariant
                i <= backend@.len(),
                out@ == header_bytes(*self) + backend@.subrange(0, i as int),
            decreases backend@.len() - i,
        {
            out.push(backend[i]);
            assert(backend@.subrange(0, i + 1) == backend@.subrange(0, i as int).push(backend@[i as int]));
            i = i + 1;
        }
        assert(backend@.subrange(0, i as int) == backend@);
        out
    }

    /// Splits a persisted index into the adapter state its header records and
    /// the backend's bytes that follow the header.
    pub fn split_dump(bytes: &[u8]) -> (r: Result<(IndexAdapter, Vec<u8>), IndexError>)
        ensures
            match parse_header(bytes@) {
                Some(a) => r matches Ok((b, rest)) && b == a && a.wf() && rest@ == bytes@.subrange(
                    HEADER_LEN as int,
                    bytes@.len() as int,
                ),
                None => r == Err::<(IndexAdapter, Vec<u8>), IndexError>(IndexError::SerializationFailure),
            },
    {
        let a = match IndexAdapter::load_header(bytes) {
            Ok(a) => a,
            Err(e) => {
                return Err(e);
            },
        };
        let mut rest: Vec<u8> = Vec::new();
        let mut i: usize = HEADER_LEN;
        while i < bytes.len()
            invariant
                HEADER_LEN <= i <= bytes@.len(),
                rest@ == bytes@.subrange(HEADER_LEN as int, i as int),
            decreases bytes@.len() - i,
        {
            rest.push(bytes[i]);
            assert(bytes@.subrange(HEADER_LEN as int, i + 1) == bytes@.subrange(HEADER_LEN as int, i as int).push(
                bytes@[i as int],
            ));
            i = i + 1;
        }
        Ok((a, rest))
    }
}

/// Reading back the header that an adapter dumps gives that same adapter,
/// whatever backend bytes follow it, and those bytes come back unchanged; so a
/// loaded index plans every search exactly as the dumped one did.
pub proof fn lemma_header_round_trip(a: IndexAdapter, backend: Seq<u8>)
    requires
        a.wf(),
    ensures
        parse_header(header_bytes(a)) == Some(a),
        parse_header(header_bytes(a) + backend) == Some(a),
        (header_bytes(a) + backend).subrange(HEADER_LEN as int, HEADER_LEN + backend.len()) == backend,
        forall|values: Seq<Option<u32>>, k: nat|
            search_outcome(parse_header(header_bytes(a))->0, values, k) == #[trigger] search_outcome(
                a,
                values,
                k,
            ),
{
    let s = header_bytes(a);
    assert(s.subrange(0, 4) =~= magic());
    assert(s.subrange(8, 16) =~= le_bytes(a.dimension as u64));
    assert(s.subrange(16, 24) =~= le_bytes(a.len as u64));
    lemma_le_round_trip(a.dimension as u64);
    lemma_le_round_trip(a.len as u64);
    assert(s[4] == FORMAT_VERSION && s[5] == kind_tag(a.kind) && s[6] == lifecycle_tag(a.lifecycle)
        && s[7] == metric_tag(a.metric));
    assert(kind_of_tag(kind_tag(a.kind)) == Some(a.kind));
    assert(lifecycle_of_tag(lifecycle_tag(a.lifecycle)) == Some(a.lifecycle));
    assert(metric_of_tag(metric_tag(a.metric)) == Some(a.metric));
    let f = header_bytes(a) + backend;
    assert(f.subrange(0, 4) =~= magic());
    assert(f.subrange(8, 16) =~= s.subrange(8, 16));
    assert(f.subrange(16, 24) =~= s.subrange(16, 24));
    assert(f[4] == s[4] && f[5] == s[5] && f[6] == s[6] && f[7] == s[7]);
    assert(f.subrange(HEADER_LEN as int, HEADER_LEN + backend.len()) =~= backend);
}

} // verus!
