//! The gradient method in a box.
use vstd::prelude::*;
use crate::bounds::BoxedMethod;

verus! {

/// The gradient method in a box: the gradient step is projected into the box
/// before it becomes a direction. What the method remembers and decides is
/// what every method does whose only memory is the box.
pub type ProjectedGradientDescent = BoxedMethod;

} // verus!
