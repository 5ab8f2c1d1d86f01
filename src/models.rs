use vstd::prelude::*;
use crate::geometry::{Point, Size};

verus! {

/// Radius of the player's circle, in thousandths of a pixel.
pub const PLAYER_RADIUS: i64 = 10_000;

/// Radius of an obstacle's circle, in thousandths of a pixel.
pub const OBSTACLE_RADIUS: i64 = 15_000;

/// Player speed along each axis, in pixels per second
/// (equally, thousandths of a pixel per millisecond).
pub const PLAYER_SPEED: i64 = 200;

/// Slowest leftward speed an obstacle is given, in pixels per second.
pub const MIN_OBSTACLE_SPEED: i64 = 100;

/// Fastest leftward speed an obstacle is given, in pixels per second.
pub const MAX_OBSTACLE_SPEED: i64 = 300;

/// Longest frame, in milliseconds, that the integrator takes in one step.
pub const MAX_FRAME_MS: u64 = 1_000_000_000;

/// A bound on every coordinate and every displacement that one frame of
/// movement involves, in thousandths of a pixel.
pub const MOVE_LIMIT: i64 = 17_000_000_000_000;

/// The movements requested by the held keys in the current frame.
#[derive(Clone, Copy, Debug, PartialEq, Eq, Structural)]
pub struct Actions {
    pub move_up: bool,
    pub move_down: bool,
    pub move_left: bool,
    pub move_right: bool,
}

impl Actions {
    pub fn none() -> (r: Actions)
        ensures
            !r.move_up && !r.move_down && !r.move_left && !r.move_right,
    {
        Actions { move_up: false, move_down: false, move_left: false, move_right: false }
    }
}

/// -1, 0 or 1: the direction along one axis that two opposite requests give.
pub open spec fn axis(negative: bool, positive: bool) -> int {
    (if positive { 1int } else { 0int }) - (if negative { 1int } else { 0int })
}

fn axis_exec(negative: bool, positive: bool) -> (r: i64)
    ensures
        r == axis(negative, positive),
{
    let p: i64 = if positive { 1 } else { 0 };
    let n: i64 = if negative { 1 } else { 0 };
    p - n
}

pub open spec fn clamp(v: int, lo: int, hi: int) -> int {
    if v < lo {
        lo
    } else if v > hi {
        hi
    } else {
        v
    }
}

/// The player: a circle of radius `PLAYER_RADIUS` about `position`.
#[derive(Clone, Copy, Debug, PartialEq, Eq, Structural)]
pub struct Player {
    pub position: Point,
}

impl Player {
    /// The player stands at the centre of the arena at the start of a round.
    pub open spec fn start(size: Size) -> Player {
        Player {
            position: Point {
                x: (size.right() / 2) as i64,
                y: (size.bottom() / 2) as i64,
            },
        }
    }

    pub open spec fn in_arena(self, size: Size) -> bool {
        0 <= self.position.x <= size.right() && 0 <= self.position.y <= size.bottom()
    }

    /// Where the player stands after `delta` milliseconds of `actions`: each
    /// axis moves at `PLAYER_SPEED` and stops hard at the arena's walls.
    pub open spec fn moved(self, size: Size, delta: int, actions: Actions) -> Player {
        Player {
            position: Point {
                x: clamp(
                    self.position.x + axis(actions.move_left, actions.move_right) * PLAYER_SPEED
                        * delta,
                    0,
                    size.right(),
                ) as i64,
                y: clamp(
                    self.position.y + axis(actions.move_up, actions.move_down) * PLAYER_SPEED
                        * delta,
                    0,
                    size.bottom(),
                ) as i64,
            },
        }
    }

    pub fn new_start(size: Size) -> (r: Player)
        ensures
            r == Player::start(size),
            r.in_arena(size),
    {
        Player { position: Point { x: size.right_edge() / 2, y: size.bottom_edge() / 2 } }
    }

    pub fn advance(&self, size: Size, delta: u64, actions: Actions) -> (r: Player)
        requires
            self.in_arena(size),
            delta <= MAX_FRAME_MS,
        ensures
            r == self.moved(size, delta as int, actions),
            r.in_arena(size),
    {
        let step: i64 = PLAYER_SPEED * delta as i64;
        let x = clamp_exec(
            shift(self.position.x, axis_exec(actions.move_left, actions.move_right), step),
            0,
            size.right_edge(),
        );
        let y = clamp_exec(
            shift(self.position.y, axis_exec(actions.move_up, actions.move_down), step),
            0,
            size.bottom_edge(),
        );
        proof {
            let h = axis(actions.move_left, actions.move_right);
            let w = axis(actions.move_up, actions.move_down);
            assert(h * step == h * PLAYER_SPEED * delta) by (nonlinear_arith)
                requires
                    step == PLAYER_SPEED * delta,
            ;
            assert(w * step == w * PLAYER_SPEED * delta) by (nonlinear_arith)
                requires
                    step == PLAYER_SPEED * delta,
            ;
        }
        Player { position: Point { x, y } }
    }
}

/// `v + direction * step`, for a direction of -1, 0 or 1.
fn shift(v: i64, direction: i64, step: i64) -> (r: i64)
    requires
        -1 <= direction <= 1,
        -MOVE_LIMIT <= v <= MOVE_LIMIT,
        0 <= step <= MOVE_LIMIT,
    ensures
        r == v + direction * step,
{
    if direction > 0 {
        assert(direction * step == step) by (nonlinear_arith)
            requires
                direction == 1,
        ;
        v + step
    } else if direction < 0 {
        assert(direction * step == -step) by (nonlinear_arith)
            requires
                direction == -1,
        ;
        v - step
    } else {
        v
    }
}

fn clamp_exec(v: i64, lo: i64, hi: i64) -> (r: i64)
    requires
        lo <= hi,
    ensures
        r == clamp(v as int, lo as int, hi as int),
{
    if v < lo {
        lo
    } else if v > hi {
        hi
    } else {
        v
    }
}

/// An obstacle: a circle of radius `OBSTACLE_RADIUS` about `position` that
/// drifts left at `speed` pixels per second.
#[derive(Clone, Copy, Debug, PartialEq, Eq, Structural)]
pub struct Obstacle {
    pub position: Point,
    pub speed: i64,
}

impl Obstacle {
    /// Where an obstacle may stand in an arena of the given size: from just
    /// past the right wall to the point where it has wholly left on the left.
    pub open spec fn valid(self, size: Size) -> bool {
        -OBSTACLE_RADIUS <= self.position.x <= size.right() + OBSTACLE_RADIUS
            && 0 <= self.position.y <= size.bottom()
            && MIN_OBSTACLE_SPEED <= self.speed <= MAX_OBSTACLE_SPEED
    }

    /// A new obstacle enters just outside the right wall at height `y`.
    pub open spec fn entering(size: Size, y: int, speed: int) -> Obstacle {
        Obstacle {
            position: Point { x: (size.right() + OBSTACLE_RADIUS) as i64, y: y as i64 },
            speed: speed as i64,
        }
    }

    pub open spec fn moved(self, delta: int) -> Obstacle {
        Obstacle {
            position: Point {
                x: (self.position.x - self.speed * delta) as i64,
                y: self.position.y,
            },
            speed: self.speed,
        }
    }

    /// The obstacle has wholly passed the left wall.
    pub open spec fn has_exited(self) -> bool {
        self.position.x + OBSTACLE_RADIUS < 0
    }

    pub fn new_entering(size: Size, y: i64, speed: i64) -> (r: Obstacle)
        requires
            0 <= y <= size.bottom(),
            MIN_OBSTACLE_SPEED <= speed <= MAX_OBSTACLE_SPEED,
        ensures
            r == Obstacle::entering(size, y as int, speed as int),
            r.valid(size),
    {
        Obstacle { position: Point { x: size.right_edge() + OBSTACLE_RADIUS, y }, speed }
    }

    pub fn advance(&self, size: Size, delta: u64) -> (r: Obstacle)
        requires
            self.valid(size),
            delta <= MAX_FRAME_MS,
        ensures
            r == self.moved(delta as int),
            r.position.x <= self.position.x,
            r.position.x >= -OBSTACLE_RADIUS - MAX_OBSTACLE_SPEED * MAX_FRAME_MS,
    {
        let d: i64 = delta as i64;
        assert(0 <= self.speed * d <= MAX_OBSTACLE_SPEED * MAX_FRAME_MS) by (nonlinear_arith)
            requires
                MIN_OBSTACLE_SPEED <= self.speed <= MAX_OBSTACLE_SPEED,
                0 <= d <= MAX_FRAME_MS,
        ;
        Obstacle { position: Point { x: self.position.x - self.speed * d, y: self.position.y }, speed: self.speed }
    }

    pub fn exited(&self) -> (r: bool)
        requires
            -MOVE_LIMIT <= self.position.x <= MOVE_LIMIT,
        ensures
            r == self.has_exited(),
    {
        self.position.x + OBSTACLE_RADIUS < 0
    }
}

} // verus!
