//! Similarity metrics and the mapping from their wire names.

use crate::text::str_eq;
use vstd::prelude::*;

verus! {

/// The distance or similarity function by which an index ranks its results.
///
/// `Unknown` is what an unrecognised name resolves to. It is a value like the
/// others; whether an index may be built with it is the family's decision.
#[derive(Clone, Copy, Debug, PartialEq, Eq, Structural)]
pub enum Metric {
    Angular,
    Manhattan,
    DotProduct,
    Euclidean,
    CosineSimilarity,
    Unknown,
}

/// The metric that a name stands for; `Unknown` for every other name.
pub open spec fn metric_of_name(name: Seq<char>) -> Metric {
    if name == "angular"@ {
        Metric::Angular
    } else if name == "manhattan"@ {
        Metric::Manhattan
    } else if name == "dot_product"@ {
        Metric::DotProduct
    } else if name == "euclidean"@ {
        Metric::Euclidean
    } else if name == "cosine_similarity"@ {
        Metric::CosineSimilarity
    } else {
        Metric::Unknown
    }
}

/// Resolves a metric name. Total: a name that is not recognised gives
/// `Metric::Unknown`.
pub fn metrics_transform(s: &str) -> (m: Metric)
    ensures
        m == metric_of_name(s@),
{
    if str_eq(s, "angular") {
        Metric::Angular
    } else if str_eq(s, "manhattan") {
        Metric::Manhattan
    } else if str_eq(s, "dot_product") {
        Metric::DotProduct
    } else if str_eq(s, "euclidean") {
        Metric::Euclidean
    } else if str_eq(s, "cosine_similarity") {
        Metric::CosineSimilarity
    } else {
        Metric::Unknown
    }
}

impl Metric {
    /// The name of the metric: one that `metrics_transform` resolves to it.
    pub fn name(&self) -> (name: &'static str)
        ensures
            metric_of_name(name@) == *self,
    {
        proof {
            reveal_strlit("angular");
            reveal_strlit("manhattan");
            reveal_strlit("dot_product");
            reveal_strlit("euclidean");
            reveal_strlit("cosine_similarity");
            reveal_strlit("unknown");
            assert("angular"@[0] == 'a');
            assert("manhattan"@[0] == 'm');
            assert("dot_product"@[0] == 'd');
            assert("euclidean"@[0] == 'e');
            assert("cosine_similarity"@[0] == 'c');
            assert("unknown"@[0] == 'u');
        }
        match self {
            Metric::Angular => "angular",
            Metric::Manhattan => "manhattan",
            Metric::DotProduct => "dot_product",
            Metric::Euclidean => "euclidean",
            Metric::CosineSimilarity => "cosine_similarity",
            Metric::Unknown => "unknown",
        }
    }

    /// Whether this is one of the five metrics proper.
    pub open spec fn known(self) -> bool {
        self != Metric::Unknown
    }

    /// Whether this is one of the five metrics proper.
    pub fn is_known(&self) -> (b: bool)
        ensures
            b == self.known(),
    {
        match self {
            Metric::Unknown => false,
            _ => true,
        }
    }
}

} // verus!
