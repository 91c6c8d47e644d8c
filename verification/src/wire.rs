//! What the wire shows of an outcome: the HTTP status of each error.

use crate::error::{RegistryError, RegistryErrorView};
use vstd::prelude::*;

verus! {

/// The status of a request that succeeded.
pub const STATUS_OK: u16 = 200;

/// The status that an error is answered with: 404 for an unknown family or
/// name, 409 for a name that is taken, 500 where the engine failed, 400 for
/// everything else that is wrong with the request.
pub open spec fn status_of(e: RegistryErrorView) -> u16 {
    match e {
        RegistryErrorView::UnknownIndexType => 404,
        RegistryErrorView::NotFound => 404,
        RegistryErrorView::NameCollision => 409,
        RegistryErrorView::InvalidParameters(_) => 400,
        RegistryErrorView::InvalidDimension => 400,
        RegistryErrorView::DimensionMismatch => 400,
        RegistryErrorView::InvalidState => 400,
        RegistryErrorView::UnknownMetric => 400,
        RegistryErrorView::BatchMismatch => 400,
        RegistryErrorView::BuildFailed(_) => 500,
        RegistryErrorView::SearchFailed(_) => 500,
        RegistryErrorView::AddFailed(_) => 500,
    }
}

/// The status that an outcome is answered with.
pub open spec fn status_of_outcome<T>(outcome: Result<T, RegistryErrorView>) -> u16 {
    match outcome {
        Ok(_) => STATUS_OK,
        Err(e) => status_of(e),
    }
}

impl RegistryError {
    /// The HTTP status that this error is answered with.
    pub fn status(&self) -> (code: u16)
        ensures
            code == status_of(self@),
    {
        match self {
            RegistryError::UnknownIndexType => 404,
            RegistryError::NotFound => 404,
            RegistryError::NameCollision => 409,
            RegistryError::InvalidParameters(_) => 400,
            RegistryError::InvalidDimension => 400,
            RegistryError::DimensionMismatch => 400,
            RegistryError::InvalidState => 400,
            RegistryError::UnknownMetric => 400,
            RegistryError::BatchMismatch => 400,
            RegistryError::BuildFailed(_) => 500,
            RegistryError::SearchFailed(_) => 500,
            RegistryError::AddFailed(_) => 500,
        }
    }
}

} // verus!
