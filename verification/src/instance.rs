//! One index as the serving layer sees it: family, dimension, lifecycle
//! state, committed metric and stored ids.
//!
//! An instance never calls its engine. `admit_add`, `admit_build` and
//! `admit_search` say whether the engine may be called; `add`, `build` and
//! `search` take what the engine reported and commit it.

use crate::error::{
    answer_view, outcome_view, report_view, AddError, AddErrorView, BuildError, BuildErrorView,
    SearchError, SearchErrorView,
};
use crate::family::Family;
use crate::metric::Metric;
use vstd::prelude::*;

verus! {

/// Where an instance stands in its life.
#[derive(Clone, Copy, Debug, PartialEq, Eq, Structural)]
pub enum Lifecycle {
    /// Made, taking vectors, not yet searchable.
    Created,
    /// Built with a metric; searchable.
    Ready,
    /// A build failed. Terminal.
    Failed,
}

/// The lifecycle state together with what belongs to it: the metric of a
/// built instance, the diagnostic of a failed one.
#[derive(Debug, PartialEq, Eq)]
enum Phase {
    Created,
    Ready(Metric),
    Failed(String),
}

/// The model of `Phase`.
pub ghost enum PhaseView {
    Created,
    Ready(Metric),
    Failed(Seq<char>),
}

/// The model of an instance.
pub ghost struct InstanceView {
    pub family: Family,
    pub dimension: nat,
    /// The parameter document that the instance was made with.
    pub parameters: Seq<u8>,
    pub phase: PhaseView,
    /// The ids stored, oldest first; an id added twice is held twice.
    pub ids: Seq<usize>,
}

/// What an engine reported of a search: the ids it found, best first, or
/// its diagnostic, as characters.
pub open spec fn hits_view(report: Result<Vec<usize>, String>) -> Result<Seq<usize>, Seq<char>> {
    match report {
        Ok(ids) => Ok(ids@),
        Err(d) => Err(d@),
    }
}

/// The first `k` of `hits`, or all of them where there are no more than `k`.
pub open spec fn best(hits: Seq<usize>, k: nat) -> Seq<usize> {
    if hits.len() <= k {
        hits
    } else {
        hits.subrange(0, k as int)
    }
}

impl InstanceView {
    /// A new instance: no vectors, no metric.
    pub open spec fn fresh(family: Family, dimension: nat, parameters: Seq<u8>) -> InstanceView {
        InstanceView { family, dimension, parameters, phase: PhaseView::Created, ids: Seq::empty() }
    }

    /// The lifecycle state.
    pub open spec fn state(self) -> Lifecycle {
        match self.phase {
            PhaseView::Created => Lifecycle::Created,
            PhaseView::Ready(_) => Lifecycle::Ready,
            PhaseView::Failed(_) => Lifecycle::Failed,
        }
    }

    /// The committed metric; none until a build has succeeded.
    pub open spec fn metric(self) -> Option<Metric> {
        match self.phase {
            PhaseView::Ready(m) => Some(m),
            _ => None,
        }
    }

    /// The diagnostic of the build that failed the instance.
    pub open spec fn failure(self) -> Option<Seq<char>> {
        match self.phase {
            PhaseView::Failed(cause) => Some(cause),
            _ => None,
        }
    }

    /// Whether the lifecycle state allows adding.
    pub open spec fn takes_vectors(self) -> bool {
        match self.phase {
            PhaseView::Created => true,
            PhaseView::Ready(_) => self.family.post_build_add(),
            PhaseView::Failed(_) => false,
        }
    }

    /// Whether a vector of length `len` may be handed to the engine.
    pub open spec fn admits_add(self, len: nat) -> Result<(), AddErrorView> {
        if len != self.dimension {
            Err(AddErrorView::DimensionMismatch)
        } else if !self.takes_vectors() {
            Err(AddErrorView::InvalidState)
        } else {
            Ok(())
        }
    }

    /// What adding a vector of length `len` returns, given the engine's
    /// report. The report counts only where the vector was admitted.
    pub open spec fn add_result(self, len: nat, report: Result<(), Seq<char>>) -> Result<
        (),
        AddErrorView,
    > {
        match self.admits_add(len) {
            Err(e) => Err(e),
            Ok(()) => match report {
                Ok(()) => Ok(()),
                Err(d) => Err(AddErrorView::Rejected(d)),
            },
        }
    }

    /// The instance after adding: one id more where the add succeeded,
    /// unchanged otherwise.
    pub open spec fn after_add(
        self,
        len: nat,
        id: usize,
        report: Result<(), Seq<char>>,
    ) -> InstanceView {
        if self.add_result(len, report) is Ok {
            InstanceView { ids: self.ids.push(id), ..self }
        } else {
            self
        }
    }

    /// Whether the engine may be asked to build.
    pub open spec fn admits_build(self) -> Result<(), BuildErrorView> {
        match self.phase {
            PhaseView::Created => Ok(()),
            PhaseView::Ready(_) => if self.family.rebuild() {
                Ok(())
            } else {
                Err(BuildErrorView::AlreadyBuilt)
            },
            PhaseView::Failed(cause) => Err(BuildErrorView::Failed(cause)),
        }
    }

    /// What building returns, given the engine's report. The report counts
    /// only where the build was admitted.
    pub open spec fn build_result(self, report: Result<(), Seq<char>>) -> Result<
        (),
        BuildErrorView,
    > {
        match self.admits_build() {
            Err(e) => Err(e),
            Ok(()) => match report {
                Ok(()) => Ok(()),
                Err(d) => Err(BuildErrorView::Failed(d)),
            },
        }
    }

    /// The instance after building: ready with the metric where the engine
    /// succeeded, failed with the engine's diagnostic where it did not,
    /// unchanged where the build was not admitted.
    pub open spec fn after_build(
        self,
        metric: Metric,
        report: Result<(), Seq<char>>,
    ) -> InstanceView {
        match self.admits_build() {
            Err(_) => self,
            Ok(()) => match report {
                Ok(()) => InstanceView { phase: PhaseView::Ready(metric), ..self },
                Err(d) => InstanceView { phase: PhaseView::Failed(d), ..self },
            },
        }
    }

    /// Whether a query of length `len` may be handed to the engine.
    pub open spec fn admits_search(self, len: nat) -> Result<(), SearchErrorView> {
        if !(self.phase is Ready) {
            Err(SearchErrorView::InvalidState)
        } else if len != self.dimension {
            Err(SearchErrorView::DimensionMismatch)
        } else {
            Ok(())
        }
    }

    /// What a search for `k` neighbours returns, given the engine's report:
    /// the engine's ids cut to `k`. The report counts only where the query
    /// was admitted.
    pub open spec fn search_result(
        self,
        len: nat,
        k: nat,
        report: Result<Seq<usize>, Seq<char>>,
    ) -> Result<Seq<usize>, SearchErrorView> {
        match self.admits_search(len) {
            Err(e) => Err(e),
            Ok(()) => match report {
                Ok(hits) => Ok(best(hits, k)),
                Err(d) => Err(SearchErrorView::Failed(d)),
            },
        }
    }
}

/// The ids of the nearest stored vectors, best first.
#[derive(Debug, PartialEq, Eq)]
pub struct SearchResult {
    pub idx: Vec<usize>,
}

impl View for SearchResult {
    type V = Seq<usize>;

    open spec fn view(&self) -> Seq<usize> {
        self.idx@
    }
}

/// An index as the serving layer sees it.
#[derive(Debug, PartialEq, Eq)]
pub struct IndexInstance {
    family: Family,
    dimension: usize,
    parameters: Vec<u8>,
    phase: Phase,
    ids: Vec<usize>,
}

impl View for Phase {
    type V = PhaseView;

    closed spec fn view(&self) -> PhaseView {
        match *self {
            Phase::Created => PhaseView::Created,
            Phase::Ready(m) => PhaseView::Ready(m),
            Phase::Failed(d) => PhaseView::Failed(d@),
        }
    }
}

impl View for IndexInstance {
    type V = InstanceView;

    closed spec fn view(&self) -> InstanceView {
        InstanceView {
            family: self.family,
            dimension: self.dimension as nat,
            parameters: self.parameters@,
            phase: self.phase@,
            ids: self.ids@,
        }
    }
}

impl IndexInstance {
    #[verifier::type_invariant]
    spec fn positive_dimension(self) -> bool {
        self.dimension > 0
    }

    /// A new instance of `family` for vectors of length `dimension`.
    pub(crate) fn new(family: Family, dimension: usize, parameters: Vec<u8>) -> (instance:
        IndexInstance)
        requires
            dimension > 0,
        ensures
            instance@ == InstanceView::fresh(family, dimension as nat, parameters@),
    {
        IndexInstance { family, dimension, parameters, phase: Phase::Created, ids: Vec::new() }
    }

    /// An instance with the given contents: built with `metric` where there
    /// is one, else not yet built.
    pub(crate) fn restored(
        family: Family,
        dimension: usize,
        parameters: Vec<u8>,
        metric: Option<Metric>,
        ids: Vec<usize>,
    ) -> (instance: IndexInstance)
        requires
            dimension > 0,
        ensures
            instance@ == (InstanceView {
                family,
                dimension: dimension as nat,
                parameters: parameters@,
                phase: match metric {
                    Some(m) => PhaseView::Ready(m),
                    None => PhaseView::Created,
                },
                ids: ids@,
            }),
    {
        let phase = match metric {
            Some(m) => Phase::Ready(m),
            None => Phase::Created,
        };
        IndexInstance { family, dimension, parameters, phase, ids }
    }

    /// The algorithm family.
    pub fn family(&self) -> (family: Family)
        ensures
            family == self@.family,
    {
        self.family
    }

    /// The length that every vector and every query must have. Never zero.
    pub fn dimension(&self) -> (dimension: usize)
        ensures
            dimension == self@.dimension,
            dimension > 0,
    {
        proof {
            use_type_invariant(self);
        }
        self.dimension
    }

    /// The parameter document that the instance was made with, as it was
    /// received.
    pub fn parameters(&self) -> (parameters: &Vec<u8>)
        ensures
            parameters@ == self@.parameters,
    {
        &self.parameters
    }

    /// The lifecycle state.
    pub fn state(&self) -> (state: Lifecycle)
        ensures
            state == self@.state(),
    {
        match &self.phase {
            Phase::Created => Lifecycle::Created,
            Phase::Ready(_) => Lifecycle::Ready,
            Phase::Failed(_) => Lifecycle::Failed,
        }
    }

    /// The committed metric; none until a build has succeeded.
    pub fn metric(&self) -> (metric: Option<Metric>)
        ensures
            metric == self@.metric(),
    {
        match &self.phase {
            Phase::Ready(m) => Some(*m),
            _ => None,
        }
    }

    /// The diagnostic of the build that failed the instance, if one did.
    pub fn failure(&self) -> (cause: Option<&str>)
        ensures
            match cause {
                Some(text) => self@.failure() == Some(text@),
                None => self@.failure() is None,
            },
    {
        match &self.phase {
            Phase::Failed(cause) => Some(cause.as_str()),
            _ => None,
        }
    }

    /// How many vectors are stored.
    pub fn count(&self) -> (count: usize)
        ensures
            count == self@.ids.len(),
    {
        self.ids.len()
    }

    /// The ids stored, oldest first.
    pub fn ids(&self) -> (ids: &Vec<usize>)
        ensures
            ids@ == self@.ids,
    {
        &self.ids
    }

    /// Whether vectors may still be added once the instance is built.
    pub fn supports_post_build_add(&self) -> (b: bool)
        ensures
            b == self@.family.post_build_add(),
    {
        self.family.supports_post_build_add()
    }

    /// Whether the lifecycle state allows adding: always before the build,
    /// after it where the family takes vectors then, never after a failure.
    pub fn takes_vectors(&self) -> (b: bool)
        ensures
            b == self@.takes_vectors(),
    {
        match &self.phase {
            Phase::Created => true,
            Phase::Ready(_) => self.family.supports_post_build_add(),
            Phase::Failed(_) => false,
        }
    }

    /// Says whether `features` may be handed to the engine: its length must
    /// be the dimension, and the lifecycle state must allow adding.
    pub fn admit_add<E>(&self, features: &[E]) -> (r: Result<(), AddError>)
        ensures
            outcome_view(r) == self@.admits_add(features@.len()),
    {
        if features.len() != self.dimension {
            Err(AddError::DimensionMismatch)
        } else if !self.takes_vectors() {
            Err(AddError::InvalidState)
        } else {
            Ok(())
        }
    }

    /// Adds a vector under `id`, given what the engine reported of it.
    ///
    /// Where the vector is not admitted the report is not looked at. The
    /// id is stored only on success; on every error the instance is as it
    /// was.
    pub fn add<E>(&mut self, features: &[E], id: usize, report: Result<(), String>) -> (r: Result<
        (),
        AddError,
    >)
        ensures
            outcome_view(r) == old(self)@.add_result(features@.len(), report_view(report)),
            final(self)@ == old(self)@.after_add(features@.len(), id, report_view(report)),
    {
        match self.admit_add(features) {
            Err(e) => Err(e),
            Ok(()) => match report {
                Err(d) => Err(AddError::Rejected(d)),
                Ok(()) => {
                    proof {
                        use_type_invariant(&*self);
                    }
                    let mut ids: Vec<usize> = Vec::new();
                    std::mem::swap(&mut self.ids, &mut ids);
                    ids.push(id);
                    self.ids = ids;
                    Ok(())
                },
            },
        }
    }

    /// Says whether the engine may be asked to build: not twice, unless the
    /// family builds again, and never after a failure, whose diagnostic
    /// comes back.
    pub fn admit_build(&self) -> (r: Result<(), BuildError>)
        ensures
            outcome_view(r) == self@.admits_build(),
    {
        match &self.phase {
            Phase::Created => Ok(()),
            Phase::Ready(_) => if self.family.supports_rebuild() {
                Ok(())
            } else {
                Err(BuildError::AlreadyBuilt)
            },
            Phase::Failed(cause) => Err(BuildError::Failed(cause.clone())),
        }
    }

    /// Builds with `metric`, given what the engine reported of the build.
    ///
    /// Where the build is not admitted the report is not looked at and the
    /// instance is as it was. Where the engine succeeded the instance is
    /// ready and `metric` is committed; where it failed the instance is
    /// failed for good and keeps the diagnostic.
    pub fn build(&mut self, metric: Metric, report: Result<(), String>) -> (r: Result<
        (),
        BuildError,
    >)
        ensures
            outcome_view(r) == old(self)@.build_result(report_view(report)),
            final(self)@ == old(self)@.after_build(metric, report_view(report)),
    {
        proof {
            use_type_invariant(&*self);
        }
        match self.admit_build() {
            Err(e) => Err(e),
            Ok(()) => match report {
                Ok(()) => {
                    self.phase = Phase::Ready(metric);
                    Ok(())
                },
                Err(d) => {
                    self.phase = Phase::Failed(d.clone());
                    Err(BuildError::Failed(d))
                },
            },
        }
    }

    /// Says whether `query` may be handed to the engine: the instance must
    /// be ready, and the query's length must be the dimension.
    pub fn admit_search<E>(&self, query: &[E]) -> (r: Result<(), SearchError>)
        ensures
            outcome_view(r) == self@.admits_search(query@.len()),
    {
        match &self.phase {
            Phase::Ready(_) => if query.len() != self.dimension {
                Err(SearchError::DimensionMismatch)
            } else {
                Ok(())
            },
            _ => Err(SearchError::InvalidState),
        }
    }

    /// Answers a query for `k` neighbours, given what the engine reported.
    ///
    /// Where the query is not admitted the report is not looked at. The
    /// answer is the engine's ids in the engine's order, cut to `k`: never
    /// more than `k`, and none for `k == 0`.
    pub fn search<E>(&self, query: &[E], k: usize, report: Result<Vec<usize>, String>) -> (r: Result<
        SearchResult,
        SearchError,
    >)
        ensures
            answer_view(r) == self@.search_result(query@.len(), k as nat, hits_view(report)),
            r matches Ok(answer) ==> answer.idx@.len() <= k,
    {
        match self.admit_search(query) {
            Err(e) => Err(e),
            Ok(()) => match report {
                Err(d) => Err(SearchError::Failed(d)),
                Ok(hits) => {
                    let mut idx = hits;
                    idx.truncate(k);
                    assert(idx@ =~= best(hits@, k as nat));
                    Ok(SearchResult { idx })
                },
            },
        }
    }
}

} // verus!
