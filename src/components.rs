use vstd::prelude::*;

use crate::geometry::{fits, Vec2};
use crate::resources::{Config, UNIT};

verus! {

/// Whether the actor stands on the floor or on an obstacle.
#[derive(Clone, Copy, Debug, PartialEq, Eq, Structural)]
pub struct PlayerState {
    pub grounded: bool,
}

/// The actor's mass, which scales gravity.
#[derive(Clone, Copy, Debug, PartialEq, Eq, Structural)]
pub struct Mass(pub i64);

/// An obstacle's patrol direction: `1` to the right, `-1` to the left.
#[derive(Clone, Copy, Debug, PartialEq, Eq, Structural)]
pub struct Direction(pub i64);

/// An obstacle's index in the level's obstacle list.
#[derive(Clone, Copy, Debug, PartialEq, Eq, Structural)]
pub struct Block(pub usize);

/// The actor: centre, velocity (length units per second), mass and state.
#[derive(Clone, Copy, Debug, PartialEq, Eq, Structural)]
pub struct PlayerBody {
    pub position: Vec2,
    pub velocity: Vec2,
    pub mass: Mass,
    pub state: PlayerState,
}

/// A moving obstacle: its index, centre, velocity and patrol direction.
#[derive(Clone, Copy, Debug, PartialEq, Eq, Structural)]
pub struct BlockBody {
    pub block: Block,
    pub position: Vec2,
    pub velocity: Vec2,
    pub direction: Direction,
}

impl PlayerBody {
    /// Position and velocity within the coordinate range.
    pub open spec fn wf(self) -> bool {
        self.position.wf() && self.velocity.wf()
    }
}

impl BlockBody {
    /// Position and velocity within the coordinate range.
    pub open spec fn wf(self) -> bool {
        self.position.wf() && self.velocity.wf()
    }
}

/// One of the three static walls.
#[derive(Clone, Copy, Debug, PartialEq, Eq, Structural)]
pub enum WallLocation {
    Bottom,
    Left,
    Right,
}

impl WallLocation {
    /// Centre of the wall: on the floor line, or on a side wall's centre line.
    pub open spec fn position_of(self, config: &Config) -> Vec2 {
        match self {
            WallLocation::Bottom => Vec2 { x: 0, y: config.wall_params.bottom_y },
            WallLocation::Left => Vec2 { x: config.wall_params.left_x, y: 0 },
            WallLocation::Right => Vec2 { x: config.wall_params.right_x, y: 0 },
        }
    }

    /// Full width and height of the wall: the side walls are as thick as
    /// configured and as tall as the level is wide plus one thickness; the
    /// floor is the other way round.
    pub open spec fn size_of(self, config: &Config) -> Vec2 {
        let w = config.wall_params;
        let span = (w.right_x - w.left_x + w.thickness) as i64;
        match self {
            WallLocation::Bottom => Vec2 { x: span, y: w.thickness },
            _ => Vec2 { x: w.thickness, y: span },
        }
    }

    /// Centre of the wall.
    pub fn position(&self, config: &Config) -> (r: Vec2)
        ensures
            r == self.position_of(config),
    {
        match self {
            WallLocation::Bottom => Vec2 { x: 0, y: config.wall_params.bottom_y },
            WallLocation::Left => Vec2 { x: config.wall_params.left_x, y: 0 },
            WallLocation::Right => Vec2 { x: config.wall_params.right_x, y: 0 },
        }
    }

    /// Full width and height of the wall.
    pub fn size(&self, config: &Config) -> (r: Vec2)
        requires
            config.wf(),
            config.wall_params.right_x > config.wall_params.left_x,
        ensures
            r == self.size_of(config),
    {
        let w = config.wall_params;
        let level_width = w.right_x - w.left_x;
        match self {
            WallLocation::Left | WallLocation::Right => Vec2 {
                x: w.thickness,
                y: level_width + w.thickness,
            },
            WallLocation::Bottom => Vec2 { x: level_width + w.thickness, y: w.thickness },
        }
    }
}

/// The three static walls as placed at level start, as centre and full
/// size: the floor, then the left and the right wall.
pub fn spawn_walls(config: &Config) -> (r: Vec<(Vec2, Vec2)>)
    requires
        config.wf(),
        config.wall_params.right_x > config.wall_params.left_x,
    ensures
        r.len() == 3,
        r[0].0 == WallLocation::Bottom.position_of(config),
        r[1].0 == WallLocation::Left.position_of(config),
        r[2].0 == WallLocation::Right.position_of(config),
        r[0].1 == WallLocation::Bottom.size_of(config),
        r[1].1 == WallLocation::Left.size_of(config),
        r[2].1 == WallLocation::Right.size_of(config),
{
    let mut walls: Vec<(Vec2, Vec2)> = Vec::new();
    walls.push((WallLocation::Bottom.position(config), WallLocation::Bottom.size(config)));
    walls.push((WallLocation::Left.position(config), WallLocation::Left.size(config)));
    walls.push((WallLocation::Right.position(config), WallLocation::Right.size(config)));
    walls
}

/// The actor as placed at level start: horizontally centred, at its
/// configured height above the floor line, at rest and airborne.
pub fn spawn_player(config: &Config) -> (r: PlayerBody)
    requires
        config.wf(),
    ensures
        r.position.x == 0,
        r.position.y == config.objects.player.y + config.wall_params.bottom_y,
        r.velocity == (Vec2 { x: 0, y: 0 }),
        r.mass == Mass(config.objects.player.mass),
        r.state.grounded == false,
{
    PlayerBody {
        position: Vec2 { x: 0, y: config.objects.player.y + config.wall_params.bottom_y },
        velocity: Vec2 { x: 0, y: 0 },
        mass: Mass(config.objects.player.mass),
        state: PlayerState { grounded: false },
    }
}

/// Patrol speed of obstacle `index` starting at height `y`: its height plus
/// 300 world units plus 25 more for each obstacle before it.
pub open spec fn patrol_speed(index: int, y: int) -> int {
    y + 300 * UNIT + 25 * UNIT * index
}

/// Obstacle `index` as placed at level start: at its configured centre,
/// moving right if its index is even and left if odd, at its patrol speed.
pub open spec fn spawned_block(index: int, b: crate::resources::Block) -> BlockBody {
    let sign: int = if index % 2 == 0 { 1 } else { -1 };
    BlockBody {
        block: Block(index as usize),
        position: Vec2 { x: b.x, y: b.y },
        velocity: Vec2 { x: (patrol_speed(index, b.y as int) * sign) as i64, y: 0 },
        direction: Direction(sign as i64),
    }
}

/// All obstacles as placed at level start, in index order.
pub fn spawn_blocks(config: &Config) -> (r: Vec<BlockBody>)
    requires
        config.wf(),
    ensures
        r.len() == config.objects.blocks.len(),
        forall|i: int|
            0 <= i < r.len() ==> r[i] == spawned_block(i, #[trigger] config.objects.blocks[i]),
{
    let n = config.objects.blocks.len();
    let mut out: Vec<BlockBody> = Vec::new();
    let mut index: usize = 0;
    while index < n
        invariant
            n == config.objects.blocks.len(),
            config.wf(),
            index <= n,
            out.len() == index,
            forall|i: int|
                0 <= i < index ==> out[i] == spawned_block(i, #[trigger] config.objects.blocks[i]),
        decreases n - index,
    {
        let b = config.objects.blocks[index];
        assert(b.wf());
        let speed: i64 = b.y + 300 * UNIT + 25 * UNIT * (index as i64);
        let sign: i64 = if index % 2 == 0 { 1 } else { -1 };
        let body = BlockBody {
            block: Block(index),
            position: Vec2 { x: b.x, y: b.y },
            velocity: Vec2 { x: speed * sign, y: 0 },
            direction: Direction(sign),
        };
        out.push(body);
        index = index + 1;
    }
    out
}

/// Centre of the goal marker: its configured position raised by the floor line.
pub fn spawn_goal(config: &Config) -> (r: Vec2)
    requires
        config.wf(),
    ensures
        r.x == config.objects.goal.x,
        r.y == config.objects.goal.y + config.wall_params.bottom_y,
{
    Vec2 { x: config.objects.goal.x, y: config.objects.goal.y + config.wall_params.bottom_y }
}

/// Distance below which the goal counts as reached, in length units.
pub const GOAL_RADIUS: i64 = 10 * UNIT;

/// The straight-line distance between the two points is under the goal radius.
pub open spec fn reaches_goal(player: Vec2, goal: Vec2) -> bool {
    let dx = player.x - goal.x;
    let dy = player.y - goal.y;
    dx * dx + dy * dy < GOAL_RADIUS * GOAL_RADIUS
}

/// Whether the actor has reached the goal.
pub fn goal_system(player: &Vec2, goal: &Vec2) -> (r: bool)
    requires
        fits(player.x as int),
        fits(player.y as int),
        fits(goal.x as int),
        fits(goal.y as int),
    ensures
        r == reaches_goal(*player, *goal),
{
    let dx: i128 = player.x as i128 - goal.x as i128;
    let dy: i128 = player.y as i128 - goal.y as i128;
    assert(0 <= dx * dx <= 0x1_0000_0000_0000_0000_0000_0000) by (nonlinear_arith)
        requires
            -0x2000_0000_0000 <= dx <= 0x2000_0000_0000,
    ;
    assert(0 <= dy * dy <= 0x1_0000_0000_0000_0000_0000_0000) by (nonlinear_arith)
        requires
            -0x2000_0000_0000 <= dy <= 0x2000_0000_0000,
    ;
    let radius: i128 = GOAL_RADIUS as i128;
    dx * dx + dy * dy < radius * radius
}

} // verus!
