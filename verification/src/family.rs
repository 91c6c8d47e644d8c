//! The algorithm families an index can belong to, and what each permits.

use crate::text::str_eq;
use vstd::prelude::*;

verus! {

/// One of the interchangeable nearest-neighbour algorithms.
#[derive(Clone, Copy, Debug, PartialEq, Eq, Structural)]
pub enum Family {
    /// Hierarchical navigable small-world graph.
    Hnsw,
    /// Satellite-system graph.
    Ssg,
    /// Linear scan over every stored vector.
    BruteForce,
    /// Product quantization.
    Pq,
    /// Inverted file over product quantization.
    IvfPq,
}

/// The family that a type tag names, if it names one.
pub open spec fn family_of_tag(tag: Seq<char>) -> Option<Family> {
    if tag == "hnsw_index"@ {
        Some(Family::Hnsw)
    } else if tag == "ssg_index"@ {
        Some(Family::Ssg)
    } else if tag == "bruteforce_index"@ {
        Some(Family::BruteForce)
    } else if tag == "pq_index"@ {
        Some(Family::Pq)
    } else if tag == "ivfpq_index"@ {
        Some(Family::IvfPq)
    } else {
        None
    }
}

impl Family {
    /// Resolves a type tag; `None` for a tag that names no family.
    pub fn from_tag(tag: &str) -> (family: Option<Family>)
        ensures
            family == family_of_tag(tag@),
    {
        if str_eq(tag, "hnsw_index") {
            Some(Family::Hnsw)
        } else if str_eq(tag, "ssg_index") {
            Some(Family::Ssg)
        } else if str_eq(tag, "bruteforce_index") {
            Some(Family::BruteForce)
        } else if str_eq(tag, "pq_index") {
            Some(Family::Pq)
        } else if str_eq(tag, "ivfpq_index") {
            Some(Family::IvfPq)
        } else {
            None
        }
    }

    /// The type tag of the family: the one that `from_tag` resolves to it.
    pub fn tag(&self) -> (tag: &'static str)
        ensures
            family_of_tag(tag@) == Some(*self),
    {
        proof {
            reveal_strlit("hnsw_index");
            reveal_strlit("ssg_index");
            reveal_strlit("bruteforce_index");
            reveal_strlit("pq_index");
            reveal_strlit("ivfpq_index");
            assert("hnsw_index"@[0] == 'h');
            assert("ssg_index"@[0] == 's');
            assert("bruteforce_index"@[0] == 'b');
            assert("pq_index"@[0] == 'p');
            assert("ivfpq_index"@[0] == 'i');
        }
        match self {
            Family::Hnsw => "hnsw_index",
            Family::Ssg => "ssg_index",
            Family::BruteForce => "bruteforce_index",
            Family::Pq => "pq_index",
            Family::IvfPq => "ivfpq_index",
        }
    }

    /// Whether vectors may still be added once the index is built.
    ///
    /// A linear scan sees a new vector at once. The graph and quantization
    /// families derive their structure from the vectors present at build
    /// time, so they take none afterwards.
    pub open spec fn post_build_add(self) -> bool {
        self == Family::BruteForce
    }

    /// Whether a built index may be built again, with another metric.
    ///
    /// Only the linear scan, whose build does no more than commit the metric.
    pub open spec fn rebuild(self) -> bool {
        self == Family::BruteForce
    }

    /// Whether the family refuses to build with `Metric::Unknown`.
    ///
    /// Every family ranks by the committed metric, so every one does.
    pub open spec fn needs_known_metric(self) -> bool {
        true
    }

    /// Whether vectors may still be added once the index is built.
    pub fn supports_post_build_add(&self) -> (b: bool)
        ensures
            b == self.post_build_add(),
    {
        match self {
            Family::BruteForce => true,
            _ => false,
        }
    }

    /// Whether a built index may be built again.
    pub fn supports_rebuild(&self) -> (b: bool)
        ensures
            b == self.rebuild(),
    {
        match self {
            Family::BruteForce => true,
            _ => false,
        }
    }

    /// Whether the family refuses to build with `Metric::Unknown`.
    pub fn requires_known_metric(&self) -> (b: bool)
        ensures
            b == self.needs_known_metric(),
    {
        true
    }
}

} // verus!
