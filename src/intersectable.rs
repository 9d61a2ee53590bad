//! The kinds of primitive a ray can hit.
use vstd::prelude::*;

verus! {

/// The tag of a primitive kind; the kernel branches on it, it cannot
/// dispatch through a trait.
#[derive(Debug, Clone, Copy, PartialEq, Eq, Structural)]
pub enum IntersectableType {
    Sphere,
}

/// A primitive that a ray can hit.
pub trait Intersectable {
    /// The tag the kernel knows this primitive by.
    fn intersectable_type(&self) -> IntersectableType;
}

} // verus!
