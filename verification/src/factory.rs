//! Making a new instance from a type tag, a dimension, a parameter document
//! and the decoder's verdict on that document.

use crate::error::{answer_view, report_view, FactoryError, FactoryErrorView};
use crate::family::{family_of_tag, Family};
use crate::instance::{IndexInstance, InstanceView};
use vstd::prelude::*;
use vstd::slice::slice_to_vec;

verus! {

/// What `create` gives: the tag must name a family, the parameter document
/// must have been accepted, and the dimension must not be zero, in this
/// order. The instance is then fresh and holds the document.
pub open spec fn creation(
    tag: Seq<char>,
    dimension: nat,
    document: Seq<u8>,
    decoded: Result<(), Seq<char>>,
) -> Result<InstanceView, FactoryErrorView> {
    match family_of_tag(tag) {
        None => Err(FactoryErrorView::UnknownIndexType),
        Some(family) => match decoded {
            Err(d) => Err(FactoryErrorView::InvalidParameters(d)),
            Ok(()) => if dimension == 0 {
                Err(FactoryErrorView::InvalidDimension)
            } else {
                Ok(InstanceView::fresh(family, dimension, document))
            },
        },
    }
}

/// Makes a new instance.
///
/// `document` is the parameter document as it was received. `decoded` is
/// what decoding it into the family's parameter record gave: `Ok` where the
/// document was accepted, else the decoder's diagnostic. Neither is looked
/// at where the tag names no family.
pub fn create(family_tag: &str, dimension: usize, document: &[u8], decoded: Result<(), String>) -> (r:
    Result<IndexInstance, FactoryError>)
    ensures
        answer_view(r) == creation(
            family_tag@,
            dimension as nat,
            document@,
            report_view(decoded),
        ),
{
    match Family::from_tag(family_tag) {
        None => Err(FactoryError::UnknownIndexType),
        Some(family) => match decoded {
            Err(d) => Err(FactoryError::InvalidParameters(d)),
            Ok(()) => if dimension == 0 {
                Err(FactoryError::InvalidDimension)
            } else {
                Ok(IndexInstance::new(family, dimension, slice_to_vec(document)))
            },
        },
    }
}

} // verus!
