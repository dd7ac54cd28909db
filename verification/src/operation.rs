//! Externally defined tree-walking operations.
//!
//! The composer applies an operation depth-first to every level of the
//! overlay chain, outer to inner, handing it each level's laid-out
//! bounds. An operation says in `spec_apply` what one visit does to it,
//! so a whole walk is pinned down as a fold over the chain.

use vstd::prelude::*;

use crate::geometry::{Point, Rectangle};

verus! {

/// A visitor the composer threads through the chain.
pub trait Operation: Sized {
    /// The operation's state after visiting one level with the given
    /// bounds.
    spec fn spec_apply(&self, bounds: Rectangle) -> Self;

    /// Visits one level.
    fn apply(&mut self, bounds: Rectangle)
        requires
            bounds.wf(),
        ensures
            *final(self) == old(self).spec_apply(bounds),
    ;
}

/// An operation that looks for a point: after a walk it has recorded
/// whether any visited level's bounds contain the point.
#[derive(Clone, Copy, Debug, PartialEq, Eq, Structural)]
pub struct HitProbe {
    /// The point looked for.
    pub point: Point,
    /// Whether some visited bounds contained it.
    pub hit: bool,
}

impl HitProbe {
    /// A probe for `point` that has hit nothing yet.
    pub fn new(point: Point) -> (p: HitProbe)
        ensures
            p == (HitProbe { point, hit: false }),
    {
        HitProbe { point, hit: false }
    }
}

impl Operation for HitProbe {
    open spec fn spec_apply(&self, bounds: Rectangle) -> HitProbe {
        HitProbe { point: self.point, hit: self.hit || bounds.spec_contains(self.point) }
    }

    fn apply(&mut self, bounds: Rectangle) {
        if bounds.contains(self.point) {
            self.hit = true;
        }
    }
}

} // verus!
