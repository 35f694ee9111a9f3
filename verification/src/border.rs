use crate::config::{SCREEN_HEIGHT, SCREEN_WIDTH};
use crate::geometry::Point;
use vstd::prelude::*;

verus! {

/// The static axis-aligned rectangle bounding the playable area.  Immutable
/// after construction.
#[derive(Clone, Copy, Debug)]
pub struct Border {
    pub position: Point,
    pub width: u32,
    pub height: u32,
}

impl Border {
    /// The full-screen border anchored at the origin.
    pub fn new() -> (b: Border)
        ensures
            b.position == (Point { x: 0, y: 0 }),
            b.width == SCREEN_WIDTH,
            b.height == SCREEN_HEIGHT,
    {
        Border { position: Point { x: 0, y: 0 }, width: SCREEN_WIDTH, height: SCREEN_HEIGHT }
    }
}

} // verus!
