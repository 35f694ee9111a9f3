use crate::border::Border;
use crate::config::{PLAYER_STEP, RECT_SIZE};
use crate::food::Food;
use crate::geometry::Point;
use vstd::prelude::*;

verus! {

/// The four movement directions of the snake's head.
#[derive(Clone, Copy, Debug, PartialEq, Eq, Structural)]
pub enum Direction {
    Up,
    Down,
    Left,
    Right,
}

/// The exact opposite of a direction (the one blocked transition).
pub open spec fn opposite(d: Direction) -> Direction {
    match d {
        Direction::Up => Direction::Down,
        Direction::Down => Direction::Up,
        Direction::Left => Direction::Right,
        Direction::Right => Direction::Left,
    }
}

/// Mathematical model of a [`Player`]: the same data with unbounded length
/// and speed and the tail as a sequence.
pub ghost struct PlayerView {
    pub position: Point,
    pub previous_position: Point,
    pub current_direction: Direction,
    pub length: nat,
    pub speed: nat,
    pub tail: Seq<Point>,
}

/// The snake: a head the player steers, plus an ordered list of trailing
/// segments.  `tail_positions[0]` is the segment directly behind the head.
#[derive(Debug)]
pub struct Player {
    pub position: Point,
    pub previous_position: Point,
    pub current_direction: Direction,
    pub length: u32,
    pub speed: u32,
    pub tail_positions: Vec<Point>,
}

impl View for Player {
    type V = PlayerView;

    open spec fn view(&self) -> PlayerView {
        PlayerView {
            position: self.position,
            previous_position: self.previous_position,
            current_direction: self.current_direction,
            length: self.length as nat,
            speed: self.speed as nat,
            tail: self.tail_positions@,
        }
    }
}

/// Where a point ends up after one step in direction `d`.  The coordinate
/// arithmetic is exact: callers keep the head far enough from the numeric
/// limits that the cast never truncates.
pub open spec fn moved(p: Point, d: Direction) -> Point {
    match d {
        Direction::Up => Point { x: p.x, y: (p.y - PLAYER_STEP) as i32 },
        Direction::Down => Point { x: p.x, y: (p.y + PLAYER_STEP) as i32 },
        Direction::Left => Point { x: (p.x - PLAYER_STEP) as i32, y: p.y },
        Direction::Right => Point { x: (p.x + PLAYER_STEP) as i32, y: p.y },
    }
}

/// A head position far enough from the `i32` limits that one step in any
/// direction neither overflows nor underflows.
pub open spec fn can_step(p: Point) -> bool {
    &&& i32::MIN + PLAYER_STEP <= p.x <= i32::MAX - PLAYER_STEP
    &&& i32::MIN + PLAYER_STEP <= p.y <= i32::MAX - PLAYER_STEP
}

/// One food-eaten event: length and speed each grow by one, nothing else
/// changes.
pub open spec fn eat_spec(v: PlayerView) -> PlayerView {
    PlayerView { length: v.length + 1, speed: v.speed + 1, ..v }
}

/// `n` consecutive food-eaten events.
pub open spec fn eat_n(v: PlayerView, n: nat) -> PlayerView
    decreases n,
{
    if n == 0 {
        v
    } else {
        eat_spec(eat_n(v, (n - 1) as nat))
    }
}

/// One per-frame advance: the head moves one step in the current direction,
/// the old head position becomes both `previous_position` and (when the
/// snake has a tail at all) the first tail segment, and the tail is
/// truncated to `length - 1` entries.  Each tail segment thereby adopts the
/// position the segment ahead of it held one frame prior.
pub open spec fn advance_spec(v: PlayerView) -> PlayerView {
    let tail = if v.length > 1 {
        let grown = v.tail.insert(0, v.position);
        if grown.len() > v.length - 1 {
            grown.subrange(0, v.length - 1)
        } else {
            grown
        }
    } else {
        v.tail
    };
    PlayerView {
        position: moved(v.position, v.current_direction),
        previous_position: v.position,
        tail: tail,
        ..v
    }
}

impl Player {
    /// Internal consistency: the snake is at least its head, the tail never
    /// holds more than `length - 1` segments, and the speed that paces
    /// frames is positive.
    pub open spec fn wf(self) -> bool {
        &&& self@.length >= 1
        &&& self@.speed >= 1
        &&& self@.tail.len() <= self@.length - 1
    }

    /// A fresh snake: a bare head at `point`, moving up, at the starting
    /// speed.
    pub fn new(point: Point) -> (p: Player)
        ensures
            p@ == (PlayerView {
                position: point,
                previous_position: point,
                current_direction: Direction::Up,
                length: 1nat,
                speed: 10nat,
                tail: Seq::<Point>::empty(),
            }),
            p.wf(),
    {
        let p = Player {
            position: point,
            previous_position: point,
            current_direction: Direction::Up,
            length: 1,
            speed: 10,
            tail_positions: Vec::new(),
        };
        proof {
            assert(p@.tail =~= Seq::<Point>::empty());
        }
        p
    }

    /// Remember the head position and move the head one step in the current
    /// direction.
    pub fn update_position(&mut self)
        requires
            can_step(old(self).position),
        ensures
            final(self).position == moved(old(self).position, old(self).current_direction),
            final(self).previous_position == old(self).position,
            final(self).current_direction == old(self).current_direction,
            final(self).length == old(self).length,
            final(self).speed == old(self).speed,
            final(self).tail_positions == old(self).tail_positions,
    {
        self.previous_position = self.position;
        match self.current_direction {
            Direction::Up => self.position.y = self.position.y - PLAYER_STEP,
            Direction::Down => self.position.y = self.position.y + PLAYER_STEP,
            Direction::Left => self.position.x = self.position.x - PLAYER_STEP,
            Direction::Right => self.position.x = self.position.x + PLAYER_STEP,
        }
    }

    /// One full frame advance: head step plus tail shift, as
    /// [`advance_spec`] describes.  The tail grows lazily: a frame after a
    /// food-eaten event it holds one more segment, until it reaches
    /// `length - 1`.
    pub fn advance(&mut self)
        requires
            old(self).wf(),
            can_step(old(self).position),
        ensures
            final(self)@ == advance_spec(old(self)@),
            final(self).wf(),
    {
        let ghost pre = self@;
        self.update_position();
        if self.length > 1 {
            self.tail_positions.insert(0, self.previous_position);
            if self.tail_positions.len() > (self.length - 1) as usize {
                self.tail_positions.pop();
            }
        }
        proof {
            assert(self@ =~= advance_spec(pre));
        }
    }

    /// Border collision: death when the head's box reaches or passes the
    /// border's width or height, or the head reaches either zero axis.
    pub open spec fn hit_spec(pos: Point, border: Border) -> bool {
        ||| pos.x + RECT_SIZE >= border.width
        ||| pos.y + RECT_SIZE >= border.height
        ||| pos.x <= 0
        ||| pos.y <= 0
    }

    /// Has the snake died on the border this frame?
    pub fn check_hit(&self, border: &Border) -> (r: bool)
        ensures
            r == Self::hit_spec(self.position, *border),
    {
        let x = self.position.x as i64;
        let y = self.position.y as i64;
        let size = RECT_SIZE as i64;
        x + size >= border.width as i64 || y + size >= border.height as i64 || x <= 0 || y <= 0
    }

    /// Does the head reach the food this frame?  On a hit the food is
    /// marked unspawned; its position is never touched here.
    pub fn check_food(&self, food: &mut Food) -> (r: bool)
        ensures
            r == self.position.intersects_spec(old(food).pos, RECT_SIZE / 2),
            final(food).pos == old(food).pos,
            final(food).is_spawned == (old(food).is_spawned && !r),
    {
        if self.position.is_intersected(&food.pos, RECT_SIZE / 2) {
            food.is_spawned = false;
            true
        } else {
            false
        }
    }

    /// The effect of eating: length and speed each grow by one, without an
    /// upper bound short of the machine limit.
    pub fn eat_food(&mut self)
        requires
            old(self).length < u32::MAX,
            old(self).speed < u32::MAX,
        ensures
            final(self)@ == eat_spec(old(self)@),
    {
        self.length = self.length + 1;
        self.speed = self.speed + 1;
    }
}

/// Monotonic growth: `n` consecutive food-eaten events increase the length
/// and the speed by exactly `n` and change nothing else.
pub proof fn lemma_monotonic_growth(v: PlayerView, n: nat)
    ensures
        eat_n(v, n).length == v.length + n,
        eat_n(v, n).speed == v.speed + n,
        eat_n(v, n).position == v.position,
        eat_n(v, n).previous_position == v.previous_position,
        eat_n(v, n).current_direction == v.current_direction,
        eat_n(v, n).tail == v.tail,
    decreases n,
{
    if n > 0 {
        lemma_monotonic_growth(v, (n - 1) as nat);
    }
}

/// Segment lag: starting from a bare head (length 1, no tail), two
/// food-eaten events followed by two frame advances leave exactly two tail
/// segments, and the first tail segment is the head's position from exactly
/// one frame prior — not two.
pub proof fn lemma_segment_lag(v: PlayerView)
    requires
        v.length == 1,
        v.tail.len() == 0,
    ensures
        ({
            let fed = eat_n(v, 2);
            let one = advance_spec(fed);
            let two = advance_spec(one);
            &&& two.tail.len() == 2
            &&& two.tail[0] == one.position
            &&& two.tail[1] == v.position
        }),
{
    let fed = eat_n(v, 2);
    lemma_monotonic_growth(v, 2);
    assert(fed.length == 3);
    let one = advance_spec(fed);
    assert(one.tail =~= seq![v.position]);
    let two = advance_spec(one);
    assert(two.tail =~= seq![one.position, v.position]);
}

} // verus!
