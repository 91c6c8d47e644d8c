//! An instance as bytes, together with the bytes of its engine's structure.
//!
//! The layout, with every number as eight bytes, least significant first:
//! one byte for the family, one for the lifecycle state, one for the
//! metric, the dimension, the number of ids, the ids, the length of the
//! parameter document, the document, the length of the structure, the
//! structure. A failed instance has no snapshot.

use crate::family::Family;
use crate::instance::{IndexInstance, InstanceView, Lifecycle, PhaseView};
use crate::metric::Metric;
use vstd::bytes::*;
use vstd::prelude::*;
use vstd::slice::{slice_subrange, slice_to_vec};

verus! {

pub open spec fn family_code(family: Family) -> u8 {
    match family {
        Family::Hnsw => 0,
        Family::Ssg => 1,
        Family::BruteForce => 2,
        Family::Pq => 3,
        Family::IvfPq => 4,
    }
}

pub open spec fn family_of_code(code: u8) -> Option<Family> {
    if code == 0 {
        Some(Family::Hnsw)
    } else if code == 1 {
        Some(Family::Ssg)
    } else if code == 2 {
        Some(Family::BruteForce)
    } else if code == 3 {
        Some(Family::Pq)
    } else if code == 4 {
        Some(Family::IvfPq)
    } else {
        None
    }
}

pub open spec fn metric_code(metric: Metric) -> u8 {
    match metric {
        Metric::Angular => 1,
        Metric::Manhattan => 2,
        Metric::DotProduct => 3,
        Metric::Euclidean => 4,
        Metric::CosineSimilarity => 5,
        Metric::Unknown => 6,
    }
}

pub open spec fn metric_of_code(code: u8) -> Option<Metric> {
    if code == 1 {
        Some(Metric::Angular)
    } else if code == 2 {
        Some(Metric::Manhattan)
    } else if code == 3 {
        Some(Metric::DotProduct)
    } else if code == 4 {
        Some(Metric::Euclidean)
    } else if code == 5 {
        Some(Metric::CosineSimilarity)
    } else if code == 6 {
        Some(Metric::Unknown)
    } else {
        None
    }
}

/// The state byte and the metric byte of a phase; none for a failed one.
pub open spec fn phase_codes(phase: PhaseView) -> Option<(u8, u8)> {
    match phase {
        PhaseView::Created => Some((0u8, 0u8)),
        PhaseView::Ready(metric) => Some((1u8, metric_code(metric))),
        PhaseView::Failed(_) => None,
    }
}

/// The phase that a state byte and a metric byte stand for.
pub open spec fn phase_of_codes(state: u8, metric: u8) -> Option<PhaseView> {
    if state == 0 && metric == 0 {
        Some(PhaseView::Created)
    } else if state == 1 {
        match metric_of_code(metric) {
            Some(m) => Some(PhaseView::Ready(m)),
            None => None,
        }
    } else {
        None
    }
}

/// The eight bytes of a number below 2^64, least significant first.
pub open spec fn word(x: nat) -> Seq<u8> {
    spec_u64_to_le_bytes(x as u64)
}

/// The number in the eight bytes from `at` on.
pub open spec fn number(bytes: Seq<u8>, at: int) -> nat {
    spec_u64_from_le_bytes(bytes.subrange(at, at + 8)) as nat
}

/// The bytes of a list of ids, one word each.
pub open spec fn words(ids: Seq<usize>) -> Seq<u8>
    decreases ids.len(),
{
    if ids.len() == 0 {
        Seq::empty()
    } else {
        words(ids.drop_last()) + word(ids.last() as nat)
    }
}

/// The ids in the `n` words from byte 19 on.
pub open spec fn ids_in(bytes: Seq<u8>, n: nat) -> Seq<nat> {
    Seq::new(n, |i: int| number(bytes, 19 + 8 * i))
}

/// The snapshot of an instance with the structure of its engine; none for
/// a failed instance.
pub open spec fn encoding(instance: InstanceView, structure: Seq<u8>) -> Option<Seq<u8>> {
    match phase_codes(instance.phase) {
        None => None,
        Some((state, metric)) => Some(
            seq![family_code(instance.family), state, metric] + word(instance.dimension) + word(
                instance.ids.len(),
            ) + words(instance.ids) + word(instance.parameters.len()) + instance.parameters + word(
                structure.len(),
            ) + structure,
        ),
    }
}

/// The instance and the structure that a snapshot holds; none where the
/// bytes are no snapshot: too short or too long for what they announce, an
/// unknown family, state or metric, a metric on an instance that is not
/// built, dimension zero, or a number that does not fit.
pub open spec fn decoding(bytes: Seq<u8>) -> Option<(InstanceView, Seq<u8>)> {
    if bytes.len() < 35 {
        None
    } else {
        let family = family_of_code(bytes[0]);
        let phase = phase_of_codes(bytes[1], bytes[2]);
        let dimension = number(bytes, 3);
        let n = number(bytes, 11) as int;
        if family is None || phase is None || dimension == 0 || dimension > usize::MAX || 8 * n
            > bytes.len() - 35 {
            None
        } else {
            let p = number(bytes, 19 + 8 * n) as int;
            if p > bytes.len() - 35 - 8 * n {
                None
            } else {
                let m = number(bytes, 27 + 8 * n + p);
                let ids = ids_in(bytes, n as nat);
                if bytes.len() != 35 + 8 * n + p + m || exists|i: int|
                    0 <= i < n && #[trigger] ids[i] > usize::MAX {
                    None
                } else {
                    Some(
                        (
                            InstanceView {
                                family: family->0,
                                dimension,
                                parameters: bytes.subrange(27 + 8 * n, 27 + 8 * n + p),
                                phase: phase->0,
                                ids: Seq::new(n as nat, |i: int| ids[i] as usize),
                            },
                            bytes.subrange(35 + 8 * n + p, bytes.len() as int),
                        ),
                    )
                }
            }
        }
    }
}

/// Every id takes eight bytes.
proof fn lemma_words_len(ids: Seq<usize>)
    ensures
        words(ids).len() == 8 * ids.len(),
    decreases ids.len(),
{
    lemma_auto_spec_u64_to_from_le_bytes();
    if ids.len() > 0 {
        lemma_words_len(ids.drop_last());
    }
}

/// The word of id `i` stands at byte `8 * i`.
proof fn lemma_words_at(ids: Seq<usize>, i: int)
    requires
        0 <= i < ids.len(),
    ensures
        words(ids).len() == 8 * ids.len(),
        words(ids).subrange(8 * i, 8 * i + 8) == word(ids[i] as nat),
    decreases ids.len(),
{
    lemma_auto_spec_u64_to_from_le_bytes();
    lemma_words_len(ids);
    lemma_words_len(ids.drop_last());
    if i == ids.len() - 1 {
        assert(words(ids).subrange(8 * i, 8 * i + 8) =~= word(ids[i] as nat));
    } else {
        lemma_words_at(ids.drop_last(), i);
        assert(words(ids).subrange(8 * i, 8 * i + 8) =~= words(ids.drop_last()).subrange(
            8 * i,
            8 * i + 8,
        ));
    }
}

/// Round trip: the snapshot of an instance that is not failed holds that
/// instance and that structure, so that the restored instance decides and
/// answers as the first did.
pub proof fn law_round_trip(instance: InstanceView, structure: Seq<u8>)
    requires
        0 < instance.dimension <= usize::MAX,
        instance.ids.len() <= usize::MAX,
        instance.parameters.len() <= usize::MAX,
        structure.len() <= usize::MAX,
        !(instance.phase is Failed),
    ensures
        encoding(instance, structure) is Some,
        decoding(encoding(instance, structure)->0) == Some((instance, structure)),
{
    lemma_auto_spec_u64_to_from_le_bytes();
    let bytes = encoding(instance, structure)->0;
    let n = instance.ids.len() as int;
    let p = instance.parameters.len() as int;
    let m = structure.len() as int;
    let (state, metric) = phase_codes(instance.phase)->0;
    lemma_words_len(instance.ids);
    assert(bytes.len() == 35 + 8 * n + p + m);
    assert(bytes[0] == family_code(instance.family));
    assert(bytes[1] == state);
    assert(bytes[2] == metric);
    assert(bytes.subrange(3, 11) =~= word(instance.dimension));
    assert(bytes.subrange(11, 19) =~= word(n as nat));
    assert(bytes.subrange(19 + 8 * n, 27 + 8 * n) =~= word(p as nat));
    assert(bytes.subrange(27 + 8 * n, 27 + 8 * n + p) =~= instance.parameters);
    assert(bytes.subrange(27 + 8 * n + p, 35 + 8 * n + p) =~= word(m as nat));
    assert(bytes.subrange(35 + 8 * n + p, bytes.len() as int) =~= structure);
    assert(usize::MAX <= u64::MAX);
    assert(number(bytes, 3) == instance.dimension);
    assert(number(bytes, 11) == n);
    assert(number(bytes, 19 + 8 * n) == p);
    assert(number(bytes, 27 + 8 * n + p) == m);
    let ids = ids_in(bytes, n as nat);
    assert forall|i: int| 0 <= i < n implies #[trigger] ids[i] == instance.ids[i] by {
        lemma_words_at(instance.ids, i);
        assert(bytes.subrange(19 + 8 * i, 19 + 8 * i + 8) =~= words(instance.ids).subrange(
            8 * i,
            8 * i + 8,
        ));
    }
    assert(Seq::new(n as nat, |i: int| ids[i] as usize) =~= instance.ids);
    assert(family_of_code(bytes[0]) == Some(instance.family));
    assert(phase_of_codes(bytes[1], bytes[2]) == Some(instance.phase));
}

fn code_of_family(family: Family) -> (code: u8)
    ensures
        code == family_code(family),
{
    match family {
        Family::Hnsw => 0,
        Family::Ssg => 1,
        Family::BruteForce => 2,
        Family::Pq => 3,
        Family::IvfPq => 4,
    }
}

fn family_by_code(code: u8) -> (family: Option<Family>)
    ensures
        family == family_of_code(code),
{
    if code == 0 {
        Some(Family::Hnsw)
    } else if code == 1 {
        Some(Family::Ssg)
    } else if code == 2 {
        Some(Family::BruteForce)
    } else if code == 3 {
        Some(Family::Pq)
    } else if code == 4 {
        Some(Family::IvfPq)
    } else {
        None
    }
}

fn code_of_metric(metric: Metric) -> (code: u8)
    ensures
        code == metric_code(metric),
{
    match metric {
        Metric::Angular => 1,
        Metric::Manhattan => 2,
        Metric::DotProduct => 3,
        Metric::Euclidean => 4,
        Metric::CosineSimilarity => 5,
        Metric::Unknown => 6,
    }
}

fn metric_by_code(code: u8) -> (metric: Option<Metric>)
    ensures
        metric == metric_of_code(code),
{
    if code == 1 {
        Some(Metric::Angular)
    } else if code == 2 {
        Some(Metric::Manhattan)
    } else if code == 3 {
        Some(Metric::DotProduct)
    } else if code == 4 {
        Some(Metric::Euclidean)
    } else if code == 5 {
        Some(Metric::CosineSimilarity)
    } else if code == 6 {
        Some(Metric::Unknown)
    } else {
        None
    }
}

/// Appends the eight bytes of `x`.
fn push_word(out: &mut Vec<u8>, x: usize)
    ensures
        final(out)@ == old(out)@ + word(x as nat),
{
    let mut bytes = u64_to_le_bytes(x as u64);
    out.append(&mut bytes);
}

/// Reads the number in the eight bytes from `at` on.
fn read_word(bytes: &[u8], at: usize) -> (x: u64)
    requires
        at + 8 <= bytes@.len(),
    ensures
        x == number(bytes@, at as int),
{
    let len = bytes.len();
    assert(at + 8 <= len);
    u64_from_le_bytes(slice_subrange(bytes, at, at + 8))
}

/// Reads the `n` ids from byte 19 on; none where one of them does not fit.
fn read_ids(bytes: &[u8], n: usize) -> (r: Option<Vec<usize>>)
    requires
        19 + 8 * n <= bytes@.len(),
    ensures
        match r {
            Some(ids) => ids@ == Seq::new(n as nat, |i: int| ids_in(bytes@, n as nat)[i] as usize)
                && forall|i: int| 0 <= i < n ==> #[trigger] ids_in(bytes@, n as nat)[i] <= usize::MAX,
            None => exists|i: int| 0 <= i < n && #[trigger] ids_in(bytes@, n as nat)[i] > usize::MAX,
        },
{
    let len = bytes.len();
    let ghost found = ids_in(bytes@, n as nat);
    let mut ids: Vec<usize> = Vec::new();
    let mut i: usize = 0;
    while i < n
        invariant
            i <= n,
            19 + 8 * n <= bytes@.len(),
            len == bytes@.len(),
            found == ids_in(bytes@, n as nat),
            ids@.len() == i,
            forall|j: int| 0 <= j < i ==> #[trigger] found[j] <= usize::MAX && ids@[j] == found[j],
        decreases n - i,
    {
        let id = read_word(bytes, 19 + 8 * i);
        if id > usize::MAX as u64 {
            assert(found[i as int] > usize::MAX);
            return None;
        }
        ids.push(id as usize);
        i += 1;
    }
    assert(ids@ =~= Seq::new(n as nat, |i: int| found[i] as usize));
    Some(ids)
}

/// Round trip, in what it is for: an instance restored from a snapshot
/// answers every query as the first did, given the same report of the
/// engine, and admits what the first admitted.
pub proof fn law_restored_answers_alike(
    instance: InstanceView,
    structure: Seq<u8>,
    len: nat,
    k: nat,
    report: Result<Seq<usize>, Seq<char>>,
)
    requires
        0 < instance.dimension <= usize::MAX,
        instance.ids.len() <= usize::MAX,
        instance.parameters.len() <= usize::MAX,
        structure.len() <= usize::MAX,
        !(instance.phase is Failed),
    ensures
        ({
            let read = decoding(encoding(instance, structure)->0);
            let restored = (read->0).0;
            &&& restored.search_result(len, k, report) == instance.search_result(len, k, report)
            &&& restored.admits_search(len) == instance.admits_search(len)
            &&& restored.admits_add(len) == instance.admits_add(len)
            &&& restored.admits_build() == instance.admits_build()
        }),
{
    law_round_trip(instance, structure);
}

impl IndexInstance {
    /// The snapshot of this instance with the structure of its engine, as
    /// the engine wrote it; none where the instance is failed.
    ///
    /// The snapshot reads back as this instance and this structure.
    pub fn serialize(&self, structure: &[u8]) -> (r: Option<Vec<u8>>)
        ensures
            match r {
                Some(bytes) => encoding(self@, structure@) == Some(bytes@) && decoding(bytes@)
                    == Some((self@, structure@)),
                None => self@.state() == Lifecycle::Failed,
            },
            self@.state() == Lifecycle::Failed ==> r is None,
    {
        let (state, metric): (u8, u8) = match self.metric() {
            Some(m) => (1, code_of_metric(m)),
            None => match self.state() {
                Lifecycle::Created => (0, 0),
                _ => {
                    return None;
                },
            },
        };
        let ids = self.ids();
        let mut out: Vec<u8> = Vec::new();
        out.push(code_of_family(self.family()));
        out.push(state);
        out.push(metric);
        push_word(&mut out, self.dimension());
        push_word(&mut out, ids.len());
        let ghost head = out@;
        let mut i: usize = 0;
        while i < ids.len()
            invariant
                i <= ids@.len(),
                out@ == head + words(ids@.take(i as int)),
            decreases ids@.len() - i,
        {
            push_word(&mut out, ids[i]);
            proof {
                let next = ids@.take(i + 1);
                assert(next.drop_last() =~= ids@.take(i as int));
                assert(next.last() == ids@[i as int]);
                assert(out@ =~= head + words(next));
            }
            i += 1;
        }
        proof {
            assert(ids@.take(i as int) =~= ids@);
        }
        let parameters = self.parameters();
        push_word(&mut out, parameters.len());
        let mut document = slice_to_vec(parameters.as_slice());
        out.append(&mut document);
        push_word(&mut out, structure.len());
        let mut tail = slice_to_vec(structure);
        out.append(&mut tail);
        proof {
            assert(head =~= seq![family_code(self@.family), state, metric] + word(
                self@.dimension,
            ) + word(self@.ids.len()));
            law_round_trip(self@, structure@);
        }
        Some(out)
    }

    /// The instance and the structure that a snapshot holds; none where the
    /// bytes are no snapshot.
    pub fn deserialize(bytes: &[u8]) -> (r: Option<(IndexInstance, Vec<u8>)>)
        ensures
            match r {
                Some((instance, structure)) => decoding(bytes@) == Some((instance@, structure@)),
                None => decoding(bytes@) is None,
            },
    {
        if bytes.len() < 35 {
            return None;
        }
        let family = match family_by_code(bytes[0]) {
            Some(family) => family,
            None => {
                return None;
            },
        };
        let metric: Option<Metric> = if bytes[1] == 0 && bytes[2] == 0 {
            None
        } else if bytes[1] == 1 {
            match metric_by_code(bytes[2]) {
                Some(m) => Some(m),
                None => {
                    return None;
                },
            }
        } else {
            return None;
        };
        let dimension = read_word(bytes, 3);
        let n = read_word(bytes, 11);
        if dimension == 0 || dimension > usize::MAX as u64 {
            return None;
        }
        let room = bytes.len() - 35;
        if n > (room / 8) as u64 {
            return None;
        }
        let n = n as usize;
        let room = room - 8 * n;
        let p = read_word(bytes, 19 + 8 * n);
        if p > room as u64 {
            return None;
        }
        let p = p as usize;
        let m = read_word(bytes, 27 + 8 * n + p);
        if m != (room - p) as u64 {
            return None;
        }
        let ids = match read_ids(bytes, n) {
            Some(ids) => ids,
            None => {
                return None;
            },
        };
        let parameters = slice_to_vec(slice_subrange(bytes, 27 + 8 * n, 27 + 8 * n + p));
        let structure = slice_to_vec(slice_subrange(bytes, 35 + 8 * n + p, bytes.len()));
        Some(
            (
                IndexInstance::restored(family, dimension as usize, parameters, metric, ids),
                structure,
            ),
        )
    }
}

} // verus!
