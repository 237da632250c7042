//! Composition of the matrices of a reference frame.

use vstd::prelude::*;
use webrender_api::units::LayoutTransform;

verus! {

/// The matrix that applies `first` and then `second`.
pub uninterp spec fn transform_then(first: LayoutTransform, second: LayoutTransform) -> LayoutTransform;

/// `euclid::Transform3D::post_transform`: the product of the two matrices in
/// which the argument's transformation applies after the receiver's. The
/// receiver is `first`, the argument `second`; the product depends on the
/// two matrices alone.
#[verifier::external_body]
pub(crate) fn then(first: &LayoutTransform, second: &LayoutTransform) -> (out: LayoutTransform)
    ensures
        out == transform_then(*first, *second),
{
    first.post_transform(second)
}

} // verus!
