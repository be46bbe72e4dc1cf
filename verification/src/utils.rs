//! A box that a point is tested against.

use vstd::prelude::*;
use crate::pointer::Fixed;

verus! {

/// A box from (`x`, `y`), `w` wide and `h` high.
#[derive(Debug, Clone, Copy, PartialEq, Eq, Structural)]
pub struct HitBox {
    pub x: Fixed,
    pub y: Fixed,
    pub w: Fixed,
    pub h: Fixed,
}

impl HitBox {
    pub open spec fn spec_new(x: Fixed, y: Fixed, w: Fixed, h: Fixed) -> HitBox {
        HitBox { x, y, w, h }
    }

    /// The point lies in the box or on its rim.
    pub open spec fn spec_contains(self, x: Fixed, y: Fixed) -> bool {
        &&& x.raw >= self.x.raw
        &&& x.raw <= self.x.raw + self.w.raw
        &&& y.raw >= self.y.raw
        &&& y.raw <= self.y.raw + self.h.raw
    }

    #[verifier::when_used_as_spec(spec_new)]
    pub fn new(x: Fixed, y: Fixed, w: Fixed, h: Fixed) -> (b: HitBox)
        ensures
            b == Self::spec_new(x, y, w, h),
    {
        HitBox { x, y, w, h }
    }

    pub fn contains(&self, x: Fixed, y: Fixed) -> (inside: bool)
        ensures
            inside == self.spec_contains(x, y),
    {
        let px: i64 = x.raw as i64;
        let py: i64 = y.raw as i64;
        px >= self.x.raw as i64 && px <= self.x.raw as i64 + self.w.raw as i64 && py
            >= self.y.raw as i64 && py <= self.y.raw as i64 + self.h.raw as i64
    }
}

} // verus!
