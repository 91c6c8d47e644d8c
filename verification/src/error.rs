//! The errors of the factory, of an instance and of the registry.
//!
//! An error that carries a diagnostic holds it as a `String`. Contracts speak
//! of errors through their views, in which the diagnostic is a sequence of
//! characters.

use vstd::prelude::*;

verus! {

/// Why the factory made no instance.
#[derive(Debug, PartialEq, Eq)]
pub enum FactoryError {
    /// The type tag names no family.
    UnknownIndexType,
    /// The parameter document was not accepted; the diagnostic says why.
    InvalidParameters(String),
    /// The dimension is zero.
    InvalidDimension,
}

/// Why a vector was not added.
#[derive(Debug, PartialEq, Eq)]
pub enum AddError {
    /// The vector's length is not the instance's dimension.
    DimensionMismatch,
    /// The instance takes no vectors in its present state.
    InvalidState,
    /// The engine refused the vector; the diagnostic is its own.
    Rejected(String),
}

/// Why an instance was not built.
#[derive(Debug, PartialEq, Eq)]
pub enum BuildError {
    /// The instance is built and its family does not build twice.
    AlreadyBuilt,
    /// The engine failed, now or in an earlier attempt; the diagnostic is
    /// that of the first failure.
    Failed(String),
}

/// Why a query was not answered.
#[derive(Debug, PartialEq, Eq)]
pub enum SearchError {
    /// The instance is not built.
    InvalidState,
    /// The query's length is not the instance's dimension.
    DimensionMismatch,
    /// The engine failed; the diagnostic is its own.
    Failed(String),
}

/// Why a registry operation failed.
#[derive(Debug, PartialEq, Eq)]
pub enum RegistryError {
    /// The type tag names no family.
    UnknownIndexType,
    /// The parameter document was not accepted; the diagnostic says why.
    InvalidParameters(String),
    /// The dimension is zero.
    InvalidDimension,
    /// The name is taken.
    NameCollision,
    /// No instance has the name.
    NotFound,
    /// A vector or a query has a length other than the instance's dimension.
    DimensionMismatch,
    /// The instance is in the wrong lifecycle state for the operation.
    InvalidState,
    /// The metric name is not recognised and the family needs a metric.
    UnknownMetric,
    /// The instance was not built, for the reason inside.
    BuildFailed(BuildError),
    /// The engine failed to answer a query; the diagnostic is its own.
    SearchFailed(String),
    /// The engine refused a vector that the registry had admitted; the
    /// diagnostic is its own.
    AddFailed(String),
    /// A batch holds a different number of vectors and ids.
    BatchMismatch,
}

/// `FactoryError` with its diagnostic as characters.
pub ghost enum FactoryErrorView {
    UnknownIndexType,
    InvalidParameters(Seq<char>),
    InvalidDimension,
}

/// `AddError` with its diagnostic as characters.
pub ghost enum AddErrorView {
    DimensionMismatch,
    InvalidState,
    Rejected(Seq<char>),
}

/// `BuildError` with its diagnostic as characters.
pub ghost enum BuildErrorView {
    AlreadyBuilt,
    Failed(Seq<char>),
}

/// `SearchError` with its diagnostic as characters.
pub ghost enum SearchErrorView {
    InvalidState,
    DimensionMismatch,
    Failed(Seq<char>),
}

/// `RegistryError` with its diagnostics as characters.
pub ghost enum RegistryErrorView {
    UnknownIndexType,
    InvalidParameters(Seq<char>),
    InvalidDimension,
    NameCollision,
    NotFound,
    DimensionMismatch,
    InvalidState,
    UnknownMetric,
    BuildFailed(BuildErrorView),
    SearchFailed(Seq<char>),
    AddFailed(Seq<char>),
    BatchMismatch,
}

impl View for FactoryError {
    type V = FactoryErrorView;

    open spec fn view(&self) -> FactoryErrorView {
        match *self {
            FactoryError::UnknownIndexType => FactoryErrorView::UnknownIndexType,
            FactoryError::InvalidParameters(d) => FactoryErrorView::InvalidParameters(d@),
            FactoryError::InvalidDimension => FactoryErrorView::InvalidDimension,
        }
    }
}

impl View for AddError {
    type V = AddErrorView;

    open spec fn view(&self) -> AddErrorView {
        match *self {
            AddError::DimensionMismatch => AddErrorView::DimensionMismatch,
            AddError::InvalidState => AddErrorView::InvalidState,
            AddError::Rejected(d) => AddErrorView::Rejected(d@),
        }
    }
}

impl View for BuildError {
    type V = BuildErrorView;

    open spec fn view(&self) -> BuildErrorView {
        match *self {
            BuildError::AlreadyBuilt => BuildErrorView::AlreadyBuilt,
            BuildError::Failed(d) => BuildErrorView::Failed(d@),
        }
    }
}

impl View for SearchError {
    type V = SearchErrorView;

    open spec fn view(&self) -> SearchErrorView {
        match *self {
            SearchError::InvalidState => SearchErrorView::InvalidState,
            SearchError::DimensionMismatch => SearchErrorView::DimensionMismatch,
            SearchError::Failed(d) => SearchErrorView::Failed(d@),
        }
    }
}

impl View for RegistryError {
    type V = RegistryErrorView;

    open spec fn view(&self) -> RegistryErrorView {
        match *self {
            RegistryError::UnknownIndexType => RegistryErrorView::UnknownIndexType,
            RegistryError::InvalidParameters(d) => RegistryErrorView::InvalidParameters(d@),
            RegistryError::InvalidDimension => RegistryErrorView::InvalidDimension,
            RegistryError::NameCollision => RegistryErrorView::NameCollision,
            RegistryError::NotFound => RegistryErrorView::NotFound,
            RegistryError::DimensionMismatch => RegistryErrorView::DimensionMismatch,
            RegistryError::InvalidState => RegistryErrorView::InvalidState,
            RegistryError::UnknownMetric => RegistryErrorView::UnknownMetric,
            RegistryError::BuildFailed(e) => RegistryErrorView::BuildFailed(e@),
            RegistryError::SearchFailed(d) => RegistryErrorView::SearchFailed(d@),
            RegistryError::AddFailed(d) => RegistryErrorView::AddFailed(d@),
            RegistryError::BatchMismatch => RegistryErrorView::BatchMismatch,
        }
    }
}

/// A result with its error taken by its view.
pub open spec fn outcome_view<T, E: View>(r: Result<T, E>) -> Result<T, E::V> {
    match r {
        Ok(t) => Ok(t),
        Err(e) => Err(e@),
    }
}

/// A result with both its value and its error taken by their views.
pub open spec fn answer_view<T: View, E: View>(r: Result<T, E>) -> Result<T::V, E::V> {
    match r {
        Ok(t) => Ok(t@),
        Err(e) => Err(e@),
    }
}

/// What an engine reported of a call that returns nothing: success, or its
/// diagnostic, as characters.
pub open spec fn report_view(report: Result<(), String>) -> Result<(), Seq<char>> {
    match report {
        Ok(()) => Ok(()),
        Err(d) => Err(d@),
    }
}

/// The registry error that a factory error becomes.
pub open spec fn lift_factory(e: FactoryErrorView) -> RegistryErrorView {
    match e {
        FactoryErrorView::UnknownIndexType => RegistryErrorView::UnknownIndexType,
        FactoryErrorView::InvalidParameters(d) => RegistryErrorView::InvalidParameters(d),
        FactoryErrorView::InvalidDimension => RegistryErrorView::InvalidDimension,
    }
}

/// The registry error that an instance's add error becomes.
pub open spec fn lift_add(e: AddErrorView) -> RegistryErrorView {
    match e {
        AddErrorView::DimensionMismatch => RegistryErrorView::DimensionMismatch,
        AddErrorView::InvalidState => RegistryErrorView::InvalidState,
        AddErrorView::Rejected(d) => RegistryErrorView::AddFailed(d),
    }
}

/// The registry error that an instance's build error becomes.
pub open spec fn lift_build(e: BuildErrorView) -> RegistryErrorView {
    RegistryErrorView::BuildFailed(e)
}

/// The registry error that an instance's search error becomes.
pub open spec fn lift_search(e: SearchErrorView) -> RegistryErrorView {
    match e {
        SearchErrorView::InvalidState => RegistryErrorView::InvalidState,
        SearchErrorView::DimensionMismatch => RegistryErrorView::DimensionMismatch,
        SearchErrorView::Failed(d) => RegistryErrorView::SearchFailed(d),
    }
}

impl RegistryError {
    /// Turns a factory error into the registry's.
    pub fn from_factory(e: FactoryError) -> (r: RegistryError)
        ensures
            r@ == lift_factory(e@),
    {
        match e {
            FactoryError::UnknownIndexType => RegistryError::UnknownIndexType,
            FactoryError::InvalidParameters(d) => RegistryError::InvalidParameters(d),
            FactoryError::InvalidDimension => RegistryError::InvalidDimension,
        }
    }

    /// Turns an instance's add error into the registry's.
    pub fn from_add(e: AddError) -> (r: RegistryError)
        ensures
            r@ == lift_add(e@),
    {
        match e {
            AddError::DimensionMismatch => RegistryError::DimensionMismatch,
            AddError::InvalidState => RegistryError::InvalidState,
            AddError::Rejected(d) => RegistryError::AddFailed(d),
        }
    }

    /// Turns an instance's build error into the registry's.
    pub fn from_build(e: BuildError) -> (r: RegistryError)
        ensures
            r@ == lift_build(e@),
    {
        RegistryError::BuildFailed(e)
    }

    /// Turns an instance's search error into the registry's.
    pub fn from_search(e: SearchError) -> (r: RegistryError)
        ensures
            r@ == lift_search(e@),
    {
        match e {
            SearchError::InvalidState => RegistryError::InvalidState,
            SearchError::DimensionMismatch => RegistryError::DimensionMismatch,
            SearchError::Failed(d) => RegistryError::SearchFailed(d),
        }
    }
}

} // verus!
