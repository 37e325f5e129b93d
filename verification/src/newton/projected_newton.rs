//! Newton's method in a box.
use vstd::prelude::*;
use crate::bounds::BoxedMethod;

verus! {

/// Newton's method in a box: the Newton step is projected into the box
/// before it becomes a direction. What the method remembers and decides is
/// what every method does whose only memory is the box.
pub type ProjectedNewton = BoxedMethod;

} // verus!
