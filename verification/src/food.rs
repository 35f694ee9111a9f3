use crate::config::{PLAYER_STEP, SCREEN_HEIGHT, SCREEN_WIDTH};
use crate::geometry::Point;
use rand::Rng;
use vstd::prelude::*;

verus! {

/// Relies on rand::Rng::gen_range on `low..=high`: it returns a value of
/// the inclusive range, and panics only when the range is empty.
#[verifier::external_body]
fn random_in_range(low: i32, high: i32) -> (r: i32)
    requires
        low <= high,
    ensures
        low <= r <= high,
{
    rand::thread_rng().gen_range(low..=high)
}

/// A piece of food: a grid position and a flag saying whether the position
/// is currently valid (awaiting consumption).
#[derive(Clone, Copy, Debug)]
pub struct Food {
    pub pos: Point,
    pub is_spawned: bool,
}

impl Food {
    /// Food starts spawned at a fixed position.
    pub fn new() -> (f: Food)
        ensures
            f.pos == (Point { x: 30, y: 30 }),
            f.is_spawned,
    {
        Food { pos: Point { x: 30, y: 30 }, is_spawned: true }
    }

    /// Place food at a freshly drawn grid cell: cell indices scale up by
    /// one movement step, so the position snaps to the grid the head moves
    /// on.
    pub fn respawn_position(cell_x: i32, cell_y: i32) -> (p: Point)
        requires
            0 <= cell_x,
            0 <= cell_y,
            cell_x * PLAYER_STEP <= i32::MAX,
            cell_y * PLAYER_STEP <= i32::MAX,
        ensures
            p.x == cell_x * PLAYER_STEP,
            p.y == cell_y * PLAYER_STEP,
    {
        Point { x: cell_x * PLAYER_STEP, y: cell_y * PLAYER_STEP }
    }

    /// If the food was eaten, draw a new position uniformly at random from
    /// the playable grid cells and mark it spawned again; if it is already
    /// spawned, change nothing.  New coordinates are multiples of the step
    /// unit, with x in [20, 550] and y in [20, 750] on the 600 by 800
    /// playfield.
    pub fn spawn(&mut self)
        ensures
            final(self).is_spawned,
            old(self).is_spawned ==> *final(self) == *old(self),
            !old(self).is_spawned ==> {
                let p = final(self).pos;
                &&& 2 * PLAYER_STEP <= p.x <= ((SCREEN_WIDTH - 50) as int / 10) * PLAYER_STEP
                &&& 2 * PLAYER_STEP <= p.y <= ((SCREEN_HEIGHT - 50) as int / 10) * PLAYER_STEP
                &&& p.x % PLAYER_STEP == 0
                &&& p.y % PLAYER_STEP == 0
            },
    {
        if !self.is_spawned {
            let cell_x = random_in_range(2, ((SCREEN_WIDTH - 50) / 10) as i32);
            let cell_y = random_in_range(2, ((SCREEN_HEIGHT - 50) / 10) as i32);
            self.pos = Self::respawn_position(cell_x, cell_y);
            self.is_spawned = true;
            proof {
                lemma_cell_scaling(cell_x as int);
                lemma_cell_scaling(cell_y as int);
            }
        }
    }
}

/// Scaling a grid cell index by the step unit lands on a multiple of the
/// step unit.
proof fn lemma_cell_scaling(cell: int)
    requires
        0 <= cell,
    ensures
        (cell * PLAYER_STEP) % (PLAYER_STEP as int) == 0,
        cell * PLAYER_STEP == cell * 10,
{
    assert((cell * 10) % 10 == 0) by (nonlinear_arith);
}

} // verus!
