use vstd::prelude::*;

verus! {

/// A point on the grid, in the same unit scale as the border and the
/// movement step.
#[derive(Clone, Copy, Debug, PartialEq, Eq, Structural)]
pub struct Point {
    pub x: i32,
    pub y: i32,
}

impl Point {
    /// True iff `self` lies within the closed axis-aligned square of
    /// half-width `rect_size` centred on `point` (closed bounds on all four
    /// sides, so the test is a square, not a circle).
    pub open spec fn intersects_spec(self, point: Point, rect_size: int) -> bool {
        &&& point.x - rect_size <= self.x <= point.x + rect_size
        &&& point.y - rect_size <= self.y <= point.y + rect_size
    }

    /// Axis-aligned-box intersection test with half-width `rect_size`.
    pub fn is_intersected(&self, point: &Point, rect_size: i32) -> (r: bool)
        ensures
            r == self.intersects_spec(*point, rect_size as int),
    {
        let sx = self.x as i64;
        let sy = self.y as i64;
        let px = point.x as i64;
        let py = point.y as i64;
        let t = rect_size as i64;
        sx >= px - t && sy >= py - t && sx <= px + t && sy <= py + t
    }
}

} // verus!
