use vstd::prelude::*;
use crate::config::{spec_max, spec_min};

verus! {

/// Coordinate magnitude up to which rectangle arithmetic cannot overflow.
pub const GEOM_LIMIT: i64 = 2_000_000_000_000_000;

/// An axis-aligned rectangle: top-left corner, width and height.
#[derive(Clone, Copy, Debug, PartialEq, Eq, Structural)]
pub struct Rect {
    pub x: i64,
    pub y: i64,
    pub w: i64,
    pub h: i64,
}

impl Rect {
    /// Bounds under which sums of coordinates stay inside `i64`.
    pub open spec fn in_limits(self) -> bool {
        &&& -GEOM_LIMIT <= self.x <= GEOM_LIMIT
        &&& 0 <= self.w <= GEOM_LIMIT
        &&& -GEOM_LIMIT <= self.y <= GEOM_LIMIT
        &&& 0 <= self.h <= GEOM_LIMIT
    }

    /// The two closed rectangles share at least one point; an edge or corner
    /// touch counts, so a ball that merely grazes a slab still rebounds.
    pub open spec fn spec_overlaps(self, o: Rect) -> bool {
        &&& self.x <= o.x + o.w
        &&& o.x <= self.x + self.w
        &&& self.y <= o.y + o.h
        &&& o.y <= self.y + self.h
    }

    /// The common region of two overlapping closed rectangles (possibly of
    /// zero width or height), `None` where they are apart.
    pub open spec fn spec_intersect(self, o: Rect) -> Option<Rect> {
        if self.spec_overlaps(o) {
            let left = spec_max(self.x as int, o.x as int);
            let top = spec_max(self.y as int, o.y as int);
            let right = spec_min(self.x + self.w, o.x + o.w);
            let bottom = spec_min(self.y + self.h, o.y + o.h);
            Some(
                (Rect {
                    x: left as i64,
                    y: top as i64,
                    w: (right - left) as i64,
                    h: (bottom - top) as i64,
                }),
            )
        } else {
            None
        }
    }

    /// Computes the intersection of two closed rectangles.
    pub fn intersect(self, o: Rect) -> (r: Option<Rect>)
        requires
            self.in_limits(),
            o.in_limits(),
        ensures
            r == self.spec_intersect(o),
    {
        let left: i64 = if self.x >= o.x {
            self.x
        } else {
            o.x
        };
        let top: i64 = if self.y >= o.y {
            self.y
        } else {
            o.y
        };
        let self_right: i64 = self.x + self.w;
        let o_right: i64 = o.x + o.w;
        let right: i64 = if self_right <= o_right {
            self_right
        } else {
            o_right
        };
        let self_bottom: i64 = self.y + self.h;
        let o_bottom: i64 = o.y + o.h;
        let bottom: i64 = if self_bottom <= o_bottom {
            self_bottom
        } else {
            o_bottom
        };
        if right < left || bottom < top {
            None
        } else {
            Some(Rect { x: left, y: top, w: right - left, h: bottom - top })
        }
    }
}

} // verus!
