use vstd::prelude::*;

use crate::geometry::{in_range, in_range_exec, COORD_LIMIT};

verus! {

/// Fixed-point length units in one world unit.
pub const UNIT: i64 = 10_000;

/// Microseconds in one second: the timestep is given in microseconds.
pub const MICROS_PER_SECOND: i64 = 1_000_000;

/// Where the level configuration is read from.
pub struct JsonFilePath(pub String);

/// Size of the host window, in pixels.
#[derive(Clone, Copy, Debug, PartialEq, Eq, Structural)]
pub struct Window {
    pub width: u32,
    pub height: u32,
}

/// Size of the drawing canvas, in pixels.
#[derive(Clone, Copy, Debug, PartialEq, Eq, Structural)]
pub struct Canvas {
    pub width: u32,
    pub height: u32,
}

/// Gravity, in length units per second squared, scaled by mass.
#[derive(Clone, Copy, Debug, PartialEq, Eq, Structural)]
pub struct Physics {
    pub gravity: i64,
}

/// The static walls: the centre lines of the side walls and of the floor,
/// and the thickness that all three share.
#[derive(Clone, Copy, Debug, PartialEq, Eq, Structural)]
pub struct WallParams {
    pub thickness: i64,
    pub left_x: i64,
    pub right_x: i64,
    pub bottom_y: i64,
}

/// The actor's start, size (a square side), speed, mass and jump velocity.
#[derive(Clone, Copy, Debug, PartialEq, Eq, Structural)]
pub struct Player {
    pub x: i64,
    pub y: i64,
    pub size: i64,
    pub speed: i64,
    pub mass: i64,
    pub jump_force: i64,
    pub start_y: i64,
}

/// One obstacle's start centre and full width and height.
#[derive(Clone, Copy, Debug, PartialEq, Eq, Structural)]
pub struct Block {
    pub x: i64,
    pub y: i64,
    pub w: i64,
    pub h: i64,
}

/// The goal's position above the floor.
#[derive(Clone, Copy, Debug, PartialEq, Eq, Structural)]
pub struct Goal {
    pub x: i64,
    pub y: i64,
}

/// Everything placed in the level.
pub struct Objects {
    pub blocks: Vec<Block>,
    pub player: Player,
    pub goal: Goal,
}

/// The read-only level configuration.
pub struct Config {
    pub window: Window,
    pub canvas: Canvas,
    pub objects: Objects,
    pub wall_params: WallParams,
    pub physics: Physics,
}

/// Most obstacles a level may hold.
pub const MAX_BLOCKS: usize = 0x1_0000;

pub open spec fn size_ok(v: int) -> bool {
    0 <= v <= COORD_LIMIT
}

impl Block {
    pub open spec fn wf(self) -> bool {
        in_range(self.x as int) && in_range(self.y as int) && size_ok(self.w as int) && size_ok(
            self.h as int,
        )
    }
}

impl Config {
    /// Every value within the ranges that the simulation's arithmetic allows,
    /// sizes non-negative, the weight `gravity * mass` bounded, and the level
    /// wide enough for the actor and for each obstacle.
    pub open spec fn wf(&self) -> bool {
        let w = self.wall_params;
        let p = self.objects.player;
        &&& size_ok(w.thickness as int)
        &&& in_range(w.left_x as int)
        &&& in_range(w.right_x as int)
        &&& in_range(w.bottom_y as int)
        &&& in_range(p.x as int) && in_range(p.y as int) && in_range(p.start_y as int)
        &&& size_ok(p.size as int)
        &&& size_ok(p.speed as int)
        &&& size_ok(p.jump_force as int)
        &&& 0 <= self.physics.gravity
        &&& 0 <= p.mass
        &&& self.physics.gravity * p.mass <= COORD_LIMIT
        &&& in_range(self.objects.goal.x as int) && in_range(self.objects.goal.y as int)
        &&& self.objects.blocks.len() <= MAX_BLOCKS
        &&& forall|i: int|
            0 <= i < self.objects.blocks.len() ==> #[trigger] self.objects.blocks[i].wf()
        &&& left_bound(self) <= right_bound(self)
    }
}

/// Half of a non-negative length, rounded down.
pub open spec fn half(v: int) -> int {
    v / 2
}

pub fn halve(v: i64) -> (r: i64)
    requires
        v >= 0,
    ensures
        r == half(v as int),
{
    (v as u64 / 2) as i64
}

/// Leftmost centre x of the actor between the walls.
pub open spec fn left_bound(c: &Config) -> int {
    c.wall_params.left_x + half(c.wall_params.thickness as int) + half(
        c.objects.player.size as int,
    )
}

/// Rightmost centre x of the actor between the walls.
pub open spec fn right_bound(c: &Config) -> int {
    c.wall_params.right_x - half(c.wall_params.thickness as int) - half(
        c.objects.player.size as int,
    )
}

/// Lowest centre y of the actor above the floor.
pub open spec fn bottom_bound(c: &Config) -> int {
    c.wall_params.bottom_y + half(c.wall_params.thickness as int) + half(
        c.objects.player.size as int,
    )
}

impl JsonFilePath {
    /// A path relative to the working directory.
    pub fn new(path: String) -> (r: JsonFilePath)
        ensures
            r.0 == path,
    {
        JsonFilePath(path)
    }
}


fn size_ok_exec(v: i64) -> (r: bool)
    ensures
        r == size_ok(v as int),
{
    0 <= v && v <= COORD_LIMIT
}

impl Config {
    /// Whether the configuration is one that the simulation accepts.
    pub fn is_valid(&self) -> (r: bool)
        ensures
            r == self.wf(),
    {
        let w = self.wall_params;
        let p = self.objects.player;
        let g = self.physics.gravity;
        if !(size_ok_exec(w.thickness) && in_range_exec(w.left_x) && in_range_exec(w.right_x)
            && in_range_exec(w.bottom_y)) {
            return false;
        }
        if !(in_range_exec(p.x) && in_range_exec(p.y) && in_range_exec(p.start_y) && size_ok_exec(
            p.size,
        ) && size_ok_exec(p.speed) && size_ok_exec(p.jump_force)) {
            return false;
        }
        if !(in_range_exec(self.objects.goal.x) && in_range_exec(self.objects.goal.y)) {
            return false;
        }
        if g < 0 || p.mass < 0 {
            return false;
        }
        if p.mass > 0 && g > COORD_LIMIT / p.mass {
            proof {
                let q = COORD_LIMIT / p.mass;
                vstd::arithmetic::div_mod::lemma_fundamental_div_mod(COORD_LIMIT as int, p.mass as int);
                assert(g * p.mass > COORD_LIMIT) by (nonlinear_arith)
                    requires
                        g >= q + 1,
                        p.mass > 0,
                        COORD_LIMIT == p.mass * q + COORD_LIMIT % p.mass,
                        COORD_LIMIT % p.mass < p.mass,
                ;
            }
            return false;
        }
        proof {
            if p.mass > 0 {
                assert(g * p.mass <= COORD_LIMIT) by (nonlinear_arith)
                    requires
                        0 <= g <= COORD_LIMIT / p.mass,
                        p.mass > 0,
                ;
            }
        }
        if self.objects.blocks.len() > MAX_BLOCKS {
            return false;
        }
        let n = self.objects.blocks.len();
        let mut i: usize = 0;
        while i < n
            invariant
                n == self.objects.blocks.len(),
                i <= n,
                forall|j: int| 0 <= j < i ==> #[trigger] self.objects.blocks[j].wf(),
            decreases n - i,
        {
            let b = self.objects.blocks[i];
            if !(in_range_exec(b.x) && in_range_exec(b.y) && size_ok_exec(b.w) && size_ok_exec(b.h)) {
                assert(!self.objects.blocks[i as int].wf());
                return false;
            }
            i = i + 1;
        }
        let hs = halve(p.size);
        let ht = halve(w.thickness);
        w.left_x + ht + hs <= w.right_x - ht - hs
    }
}

} // verus!
