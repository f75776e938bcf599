use vstd::prelude::*;

use crate::components::{BlockBody, Direction, PlayerBody, PlayerState};
use crate::events::{Collision, CollisionSide};
use crate::geometry::{
    box_around, boxes_overlap, fits, get_collision, min, overlap, side_of, Aabb, Vec2, COORD_LIMIT,
};
use crate::resources::{
    bottom_bound, half, halve, left_bound, right_bound, Block, Config, Player, WallParams,
    MICROS_PER_SECOND,
};

verus! {

/// A timestep, in microseconds, of at most one second.
pub open spec fn dt_ok(dt: int) -> bool {
    0 <= dt <= MICROS_PER_SECOND
}

/// Distance covered at velocity `v` during `dt` microseconds, rounded down.
pub open spec fn displacement(v: int, dt: int) -> int {
    (v * dt) / (MICROS_PER_SECOND as int)
}

/// Vertical velocity that gravity removes from an airborne actor in one
/// tick: `gravity * mass * dt`, rounded up, so that any positive pull
/// lowers the velocity by at least one unit.
pub open spec fn gravity_step(gravity: int, mass: int, dt: int) -> int {
    (gravity * mass * dt + MICROS_PER_SECOND - 1) / (MICROS_PER_SECOND as int)
}

/// The rounded-up step of a non-negative weight over one tick lies between
/// nothing and the weight itself, and is at least one unit when the
/// weight's pull over the tick is positive.
pub proof fn lemma_step_bounded(w: int, dt: int)
    requires
        0 <= w,
        dt_ok(dt),
    ensures
        0 <= (w * dt + MICROS_PER_SECOND - 1) / (MICROS_PER_SECOND as int) <= w,
        w * dt > 0 ==> (w * dt + MICROS_PER_SECOND - 1) / (MICROS_PER_SECOND as int) >= 1,
{
    let d = MICROS_PER_SECOND as int;
    assert(0 <= w * dt <= w * 1_000_000) by (nonlinear_arith)
        requires
            0 <= w,
            0 <= dt <= 1_000_000,
    ;
    vstd::arithmetic::div_mod::lemma_div_is_ordered(0, w * dt + d - 1, d);
    vstd::arithmetic::div_mod::lemma_div_is_ordered(w * dt + d - 1, w * d + d - 1, d);
    vstd::arithmetic::div_mod::lemma_fundamental_div_mod_converse(w * d + d - 1, d, w, d - 1);
    assert(0int / d == 0);
    if w * dt > 0 {
        vstd::arithmetic::div_mod::lemma_div_is_ordered(d, w * dt + d - 1, d);
        assert(d / d == 1);
    }
}

/// `w * dt` in velocity units, rounded up, for a non-negative weight `w`.
fn scale_up_by_dt(w: i64, dt: i64) -> (r: i64)
    requires
        0 <= w <= COORD_LIMIT,
        dt_ok(dt as int),
    ensures
        r == ((w as int) * (dt as int) + MICROS_PER_SECOND - 1) / (MICROS_PER_SECOND as int),
        0 <= r <= w,
{
    proof {
        lemma_step_bounded(w as int, dt as int);
    }
    assert(0 <= (w as int) * (dt as int) <= 0x100_0000_0000 * 1_000_000) by (nonlinear_arith)
        requires
            0 <= w <= 0x100_0000_0000,
            0 <= dt <= 1_000_000,
    ;
    let p: i128 = (w as i128) * (dt as i128) + 999_999;
    match p.checked_div_euclid(1_000_000i128) {
        Some(q) => q as i64,
        None => 0,
    }
}

/// Within one tick of at most a second a body moves no farther than its
/// speed, and in the direction of its velocity.
pub proof fn lemma_displacement_bounded(v: int, dt: int)
    requires
        dt_ok(dt),
    ensures
        v >= 0 ==> 0 <= displacement(v, dt) <= v,
        v < 0 ==> v <= displacement(v, dt) <= 0,
{
    if v >= 0 {
        assert(0 <= v * dt <= v * 1_000_000) by (nonlinear_arith)
            requires
                0 <= v,
                0 <= dt <= 1_000_000,
        ;
        vstd::arithmetic::div_mod::lemma_div_is_ordered(0, v * dt, 1_000_000);
        vstd::arithmetic::div_mod::lemma_div_is_ordered(v * dt, v * 1_000_000, 1_000_000);
    } else {
        assert(v * 1_000_000 <= v * dt <= 0) by (nonlinear_arith)
            requires
                v < 0,
                0 <= dt <= 1_000_000,
        ;
        vstd::arithmetic::div_mod::lemma_div_is_ordered(v * dt, 0, 1_000_000);
        vstd::arithmetic::div_mod::lemma_div_is_ordered(v * 1_000_000, v * dt, 1_000_000);
    }
    vstd::arithmetic::div_mod::lemma_div_multiples_vanish(v, 1_000_000);
    assert(1_000_000 * v == v * 1_000_000);
}

/// `v * dt` in length units, rounded down.
fn scale_by_dt(v: i64, dt: i64) -> (r: i64)
    requires
        fits(v as int),
        dt_ok(dt as int),
    ensures
        r == displacement(v as int, dt as int),
        v >= 0 ==> 0 <= r <= v,
        v < 0 ==> v <= r <= 0,
{
    let d: i128 = 1_000_000;
    assert(-0x1000_0000_0000 * 1_000_000 <= (v as int) * (dt as int) <= 0x1000_0000_0000
        * 1_000_000) by (nonlinear_arith)
        requires
            -0x1000_0000_0000 <= v <= 0x1000_0000_0000,
            0 <= dt <= 1_000_000,
    ;
    let p: i128 = (v as i128) * (dt as i128);
    proof {
        lemma_displacement_bounded(v as int, dt as int);
    }
    match p.checked_div_euclid(d) {
        Some(q) => q as i64,
        None => 0,
    }
}

/// What the player asks for during one tick, after input mapping.
#[derive(Clone, Copy, Debug, PartialEq, Eq, Structural)]
pub struct Intent {
    pub move_left: bool,
    pub move_right: bool,
    pub jump: bool,
}

/// The actor after input: running speed left or right (left wins), or
/// standing still; a jump only from the ground, which leaves the ground.
pub open spec fn after_intent(p: PlayerBody, intent: Intent, cfg: Player) -> PlayerBody {
    let vx: i64 = if intent.move_left {
        (-cfg.speed) as i64
    } else if intent.move_right {
        cfg.speed
    } else {
        0
    };
    if intent.jump && p.state.grounded {
        PlayerBody {
            velocity: Vec2 { x: vx, y: cfg.jump_force },
            state: PlayerState { grounded: false },
            ..p
        }
    } else {
        PlayerBody { velocity: Vec2 { x: vx, y: p.velocity.y }, ..p }
    }
}

/// Applies the player's intent to the actor's velocity and ground state.
pub fn player_movement_system(intent: &Intent, player: &mut PlayerBody, config: &Player)
    requires
        0 <= config.speed <= COORD_LIMIT,
    ensures
        *final(player) == after_intent(*old(player), *intent, *config),
{
    if intent.move_left {
        player.velocity.x = -config.speed;
    } else if intent.move_right {
        player.velocity.x = config.speed;
    } else {
        player.velocity.x = 0;
    }
    if intent.jump && player.state.grounded {
        player.velocity.y = config.jump_force;
        player.state.grounded = false;
    }
}

/// The actor after gravity: an airborne actor loses `gravity_step` of
/// vertical velocity; a grounded one is left as it is.
pub open spec fn after_gravity(p: PlayerBody, gravity: int, dt: int) -> PlayerBody {
    if p.state.grounded {
        p
    } else {
        PlayerBody {
            velocity: Vec2 {
                x: p.velocity.x,
                y: (p.velocity.y - gravity_step(gravity, p.mass.0 as int, dt)) as i64,
            },
            ..p
        }
    }
}

/// Pulls an airborne actor down by `gravity * mass * dt`.
pub fn apply_gravity(player: &mut PlayerBody, gravity: i64, dt: i64)
    requires
        fits(old(player).velocity.y as int),
        0 <= gravity,
        0 <= old(player).mass.0,
        gravity * old(player).mass.0 <= COORD_LIMIT,
        dt_ok(dt as int),
    ensures
        *final(player) == after_gravity(*old(player), gravity as int, dt as int),
        !old(player).state.grounded ==> final(player).velocity.y == old(player).velocity.y
            - gravity_step(gravity as int, old(player).mass.0 as int, dt as int),
        old(player).state.grounded ==> final(player).velocity == old(player).velocity,
        0 <= gravity_step(gravity as int, old(player).mass.0 as int, dt as int) <= COORD_LIMIT,
{
    let weight: i64 = gravity * player.mass.0;
    assert(0 <= weight) by (nonlinear_arith)
        requires
            weight == gravity * player.mass.0,
            0 <= gravity,
            0 <= player.mass.0,
    ;
    let step = scale_up_by_dt(weight, dt);
    assert(gravity * player.mass.0 * dt == weight * dt) by (nonlinear_arith)
        requires
            weight == gravity * player.mass.0,
    ;
    if !player.state.grounded {
        player.velocity.y = player.velocity.y - step;
    }
}

/// Gravity gating: an airborne actor's vertical velocity drops by exactly
/// `gravity_step`, and strictly whenever `gravity * mass * dt` is positive;
/// a grounded actor is untouched.
pub proof fn lemma_gravity_gating(p: PlayerBody, gravity: int, dt: int)
    requires
        fits(p.velocity.y as int),
        0 <= gravity,
        0 <= p.mass.0,
        gravity * p.mass.0 <= COORD_LIMIT,
        dt_ok(dt),
    ensures
        !p.state.grounded ==> after_gravity(p, gravity, dt).velocity.y == p.velocity.y
            - gravity_step(gravity, p.mass.0 as int, dt),
        !p.state.grounded && gravity * p.mass.0 * dt > 0 ==> after_gravity(
            p,
            gravity,
            dt,
        ).velocity.y < p.velocity.y,
        p.state.grounded ==> after_gravity(p, gravity, dt) == p,
{
    let w = gravity * p.mass.0;
    assert(0 <= w) by (nonlinear_arith)
        requires
            w == gravity * p.mass.0,
            0 <= gravity,
            0 <= p.mass.0,
    ;
    assert(gravity * p.mass.0 * dt == w * dt) by (nonlinear_arith)
        requires
            w == gravity * p.mass.0,
    ;
    lemma_step_bounded(w, dt);
}

/// A point moved at `v` for `dt` microseconds.
pub open spec fn moved(p: Vec2, v: Vec2, dt: int) -> Vec2 {
    Vec2 {
        x: (p.x + displacement(v.x as int, dt)) as i64,
        y: (p.y + displacement(v.y as int, dt)) as i64,
    }
}

/// Moves a body's position by its velocity times the timestep.
pub fn apply_velocity(position: &mut Vec2, velocity: &Vec2, dt: i64)
    requires
        fits(old(position).x as int),
        fits(old(position).y as int),
        fits(velocity.x as int),
        fits(velocity.y as int),
        dt_ok(dt as int),
    ensures
        *final(position) == moved(*old(position), *velocity, dt as int),
{
    let dx = scale_by_dt(velocity.x, dt);
    let dy = scale_by_dt(velocity.y, dt);
    position.x = position.x + dx;
    position.y = position.y + dy;
}

/// Position and velocity of an obstacle within the bound that a stage accepts.
pub open spec fn block_fits(b: BlockBody) -> bool {
    fits(b.position.x as int) && fits(b.position.y as int) && fits(b.velocity.x as int) && fits(
        b.velocity.y as int,
    )
}

/// An obstacle moved by its velocity for one tick.
pub open spec fn block_moved(b: BlockBody, dt: int) -> BlockBody {
    BlockBody { position: moved(b.position, b.velocity, dt), ..b }
}

/// Moves every obstacle by its velocity times the timestep.
pub fn apply_velocity_blocks(blocks: &mut Vec<BlockBody>, dt: i64)
    requires
        forall|i: int| 0 <= i < old(blocks).len() ==> block_fits(#[trigger] old(blocks)[i]),
        dt_ok(dt as int),
    ensures
        final(blocks).len() == old(blocks).len(),
        forall|i: int|
            0 <= i < final(blocks).len() ==> #[trigger] final(blocks)[i] == block_moved(
                old(blocks)[i],
                dt as int,
            ),
{
    let n = blocks.len();
    let mut i: usize = 0;
    while i < n
        invariant
            n == blocks.len(),
            n == old(blocks).len(),
            i <= n,
            dt_ok(dt as int),
            forall|j: int| 0 <= j < n ==> block_fits(#[trigger] old(blocks)[j]),
            forall|j: int| 0 <= j < i ==> #[trigger] blocks[j] == block_moved(old(blocks)[j], dt as int),
            forall|j: int| i <= j < n ==> #[trigger] blocks[j] == old(blocks)[j],
        decreases n - i,
    {
        let mut b = blocks[i];
        assert(block_fits(old(blocks)[i as int]));
        apply_velocity(&mut b.position, &b.velocity, dt);
        blocks.set(i, b);
        i = i + 1;
    }
}

/// Right end of an obstacle's patrol: where its right edge meets the right wall.
pub open spec fn patrol_right(c: Block, w: WallParams) -> int {
    w.right_x - half(w.thickness as int) - half(c.w as int)
}

/// Left end of an obstacle's patrol: where its left edge meets the left wall.
pub open spec fn patrol_left(c: Block, w: WallParams) -> int {
    w.left_x + half(w.thickness as int) + half(c.w as int)
}

/// An obstacle after the patrol check: one moving right that has reached
/// its right end, or one moving left that has reached its left end, turns
/// round and reverses its horizontal velocity.
pub open spec fn oscillated(b: BlockBody, c: Block, w: WallParams) -> BlockBody {
    if b.direction.0 > 0 {
        if b.position.x >= patrol_right(c, w) {
            BlockBody {
                direction: Direction(-1i64),
                velocity: Vec2 { x: (-b.velocity.x) as i64, y: b.velocity.y },
                ..b
            }
        } else {
            b
        }
    } else {
        if b.position.x <= patrol_left(c, w) {
            BlockBody {
                direction: Direction(1i64),
                velocity: Vec2 { x: (-b.velocity.x) as i64, y: b.velocity.y },
                ..b
            }
        } else {
            b
        }
    }
}

/// Turns each obstacle round at the ends of its patrol. Obstacle `i` uses
/// the geometry of configured obstacle `i`; obstacles without one are left
/// as they are.
pub fn move_block_system(blocks: &mut Vec<BlockBody>, config: &Config)
    requires
        config.wf(),
        forall|i: int| 0 <= i < old(blocks).len() ==> block_fits(#[trigger] old(blocks)[i]),
    ensures
        final(blocks).len() == old(blocks).len(),
        forall|i: int|
            0 <= i < final(blocks).len() ==> #[trigger] final(blocks)[i] == if i
                < config.objects.blocks.len() {
                oscillated(old(blocks)[i], config.objects.blocks[i], config.wall_params)
            } else {
                old(blocks)[i]
            },
{
    let n = blocks.len();
    let m = if n < config.objects.blocks.len() {
        n
    } else {
        config.objects.blocks.len()
    };
    let w = config.wall_params;
    let mut i: usize = 0;
    while i < m
        invariant
            n == blocks.len(),
            n == old(blocks).len(),
            m <= n,
            m <= config.objects.blocks.len(),
            i <= m,
            config.wf(),
            w == config.wall_params,
            forall|j: int| 0 <= j < n ==> block_fits(#[trigger] old(blocks)[j]),
            forall|j: int|
                0 <= j < i ==> #[trigger] blocks[j] == oscillated(
                    old(blocks)[j],
                    config.objects.blocks[j],
                    w,
                ),
            forall|j: int| i <= j < n ==> #[trigger] blocks[j] == old(blocks)[j],
        decreases m - i,
    {
        let mut b = blocks[i];
        let c = config.objects.blocks[i];
        assert(block_fits(old(blocks)[i as int]));
        assert(c.wf());
        if b.direction.0 > 0 {
            let bound = w.right_x - halve(w.thickness) - halve(c.w);
            if b.position.x >= bound {
                b.direction = Direction(-1);
                b.velocity.x = -b.velocity.x;
            }
        } else {
            let bound = w.left_x + halve(w.thickness) + halve(c.w);
            if b.position.x <= bound {
                b.direction = Direction(1);
                b.velocity.x = -b.velocity.x;
            }
        }
        blocks.set(i, b);
        i = i + 1;
    }
}

/// An obstacle that moves right and has reached its right end turns left
/// on the same tick, with its horizontal velocity negated.
pub proof fn lemma_reflect_at_right_end(b: BlockBody, c: Block, w: WallParams)
    requires
        b.direction.0 == 1,
        b.position.x >= patrol_right(c, w),
        fits(b.velocity.x as int),
    ensures
        oscillated(b, c, w).direction.0 == -1,
        oscillated(b, c, w).velocity.x == -b.velocity.x,
        oscillated(b, c, w).position == b.position,
{
}

/// The actor's bounding box: a square of the configured size around its centre.
pub open spec fn player_box(p: PlayerBody, size: int) -> Aabb {
    box_around(p.position, Vec2 { x: half(size) as i64, y: half(size) as i64 })
}

/// An obstacle's bounding box: its configured width and height around its centre.
pub open spec fn block_box(b: BlockBody, c: Block) -> Aabb {
    box_around(b.position, Vec2 { x: half(c.w as int) as i64, y: half(c.h as int) as i64 })
}

/// The first obstacle, from index `i` on, whose box overlaps `pbox`, with
/// the side struck; obstacle `k` pairs `bs[k]` with `cs[k]`, and the search
/// ends at the shorter of the two lists.
pub open spec fn first_hit(pbox: Aabb, bs: Seq<BlockBody>, cs: Seq<Block>, i: int) -> Option<
    Collision,
>
    decreases min(bs.len() as int, cs.len() as int) - i,
{
    if i < 0 || i >= min(bs.len() as int, cs.len() as int) {
        None
    } else if boxes_overlap(pbox, block_box(bs[i], cs[i])) {
        Some(Collision { block_index: i as usize, side: side_of(pbox, block_box(bs[i], cs[i])) })
    } else {
        first_hit(pbox, bs, cs, i + 1)
    }
}

/// Configured obstacles with sizes in range.
pub open spec fn blocks_ok(cs: Seq<Block>) -> bool {
    forall|i: int| 0 <= i < cs.len() ==> (#[trigger] cs[i]).wf()
}

/// Live obstacles within the bound that a stage accepts.
pub open spec fn bodies_fit(bs: Seq<BlockBody>) -> bool {
    forall|i: int| 0 <= i < bs.len() ==> block_fits(#[trigger] bs[i])
}

/// Finds the first obstacle, in index order, whose box overlaps the actor's
/// box, and the side of it that was struck. Only that one contact is
/// reported: an actor touching two obstacles at once is resolved against
/// the first of them alone, and a fast actor may pass through a thin
/// obstacle between two ticks. Both are known limits of this model.
pub fn detect_collision(player_aabb: &Aabb, blocks: &Vec<BlockBody>, config_blocks: &Vec<Block>)
    -> (r: Option<Collision>)
    requires
        player_aabb.wf(),
        bodies_fit(blocks@),
        blocks_ok(config_blocks@),
        blocks.len() < usize::MAX,
    ensures
        r == first_hit(*player_aabb, blocks@, config_blocks@, 0),
        r is Some ==> r->0.block_index < blocks.len() && r->0.block_index < config_blocks.len(),
{
    let n = if blocks.len() < config_blocks.len() {
        blocks.len()
    } else {
        config_blocks.len()
    };
    let mut i: usize = 0;
    while i < n
        invariant
            n == min(blocks.len() as int, config_blocks.len() as int),
            i <= n,
            player_aabb.wf(),
            bodies_fit(blocks@),
            blocks_ok(config_blocks@),
            first_hit(*player_aabb, blocks@, config_blocks@, 0) == first_hit(
                *player_aabb,
                blocks@,
                config_blocks@,
                i as int,
            ),
        decreases n - i,
    {
        let b = blocks[i];
        let c = config_blocks[i];
        assert(block_fits(blocks@[i as int]));
        assert(config_blocks@[i as int].wf());
        let block_aabb = Aabb::new(b.position, Vec2 { x: halve(c.w), y: halve(c.h) });
        if overlap(player_aabb, &block_aabb) {
            let side = get_collision(player_aabb, &block_aabb);
            return Some(Collision { block_index: i, side });
        }
        i = i + 1;
    }
    None
}

/// The actor's ground state after detection, decided afresh on every pass:
/// grounded exactly when the obstacle hit was struck on its top, airborne
/// after a hit on another side or no hit at all.
pub open spec fn after_detect(p: PlayerBody, hit: Option<Collision>) -> PlayerBody {
    match hit {
        Some(c) => PlayerBody { state: PlayerState { grounded: c.side == CollisionSide::Top }, ..p },
        None => PlayerBody { state: PlayerState { grounded: false }, ..p },
    }
}

/// Tests the actor against the obstacles, updates its ground state, and
/// returns the collision found, to be resolved later in the same tick.
pub fn detect_collision_system(player: &mut PlayerBody, blocks: &Vec<BlockBody>, config: &Config)
    -> (r: Option<Collision>)
    requires
        config.wf(),
        fits(old(player).position.x as int),
        fits(old(player).position.y as int),
        bodies_fit(blocks@),
        blocks.len() < usize::MAX,
    ensures
        r == first_hit(
            player_box(*old(player), config.objects.player.size as int),
            blocks@,
            config.objects.blocks@,
            0,
        ),
        *final(player) == after_detect(*old(player), r),
        r is Some ==> r->0.block_index < blocks.len() && r->0.block_index
            < config.objects.blocks.len(),
{
    let h = halve(config.objects.player.size);
    let player_aabb = Aabb::new(player.position, Vec2 { x: h, y: h });
    assert(blocks_ok(config.objects.blocks@)) by {
        assert forall|i: int| 0 <= i < config.objects.blocks@.len() implies (
        #[trigger] config.objects.blocks@[i]).wf() by {
            assert(config.objects.blocks[i].wf());
        }
    }
    let hit = detect_collision(&player_aabb, blocks, &config.objects.blocks);
    match hit {
        Some(c) => {
            player.state.grounded = c.side == CollisionSide::Top;
        },
        None => {
            player.state.grounded = false;
        },
    }
    hit
}

/// The actor after ride-along: standing on top of an obstacle adds twice
/// the obstacle's horizontal velocity to its own.
pub open spec fn after_ride(p: PlayerBody, hit: Option<Collision>, bs: Seq<BlockBody>) -> PlayerBody {
    match hit {
        Some(c) => if c.side == CollisionSide::Top && c.block_index < bs.len() {
            PlayerBody {
                velocity: Vec2 {
                    x: (p.velocity.x + 2 * bs[c.block_index as int].velocity.x) as i64,
                    y: p.velocity.y,
                },
                ..p
            }
        } else {
            p
        },
        None => p,
    }
}

/// Carries an actor that stands on a moving obstacle along with it.
pub fn player_on_block_moving_system(
    player: &mut PlayerBody,
    collision: &Option<Collision>,
    blocks: &Vec<BlockBody>,
)
    requires
        fits(old(player).velocity.x as int),
        bodies_fit(blocks@),
    ensures
        *final(player) == after_ride(*old(player), *collision, blocks@),
{
    if let Some(c) = collision {
        if c.side == CollisionSide::Top && c.block_index < blocks.len() {
            assert(block_fits(blocks@[c.block_index as int]));
            let v = blocks[c.block_index].velocity.x;
            player.velocity.x = player.velocity.x + 2 * v;
        }
    }
}

/// Ride-along: a `Top` contact increases the actor's horizontal velocity by
/// exactly twice the obstacle's.
pub proof fn lemma_ride_along(p: PlayerBody, c: Collision, bs: Seq<BlockBody>)
    requires
        c.side == CollisionSide::Top,
        c.block_index < bs.len(),
    ensures
        after_ride(p, Some(c), bs).velocity.x == (p.velocity.x + 2 * bs[c.block_index
            as int].velocity.x) as i64,
        after_ride(p, Some(c), bs).velocity.y == p.velocity.y,
{
}

/// The actor after resolution: snapped against the side of the obstacle
/// that it struck, with the velocity across that side zeroed.
pub open spec fn after_resolve(
    p: PlayerBody,
    hit: Option<Collision>,
    bs: Seq<BlockBody>,
    cs: Seq<Block>,
    size: int,
) -> PlayerBody {
    match hit {
        Some(c) => if c.block_index < bs.len() && c.block_index < cs.len() {
            let b = bs[c.block_index as int].position;
            let cfg = cs[c.block_index as int];
            let hs = half(size);
            match c.side {
                CollisionSide::Left => PlayerBody {
                    position: Vec2 { x: (b.x - half(cfg.w as int) - hs) as i64, y: p.position.y },
                    velocity: Vec2 { x: 0, y: p.velocity.y },
                    ..p
                },
                CollisionSide::Right => PlayerBody {
                    position: Vec2 { x: (b.x + half(cfg.w as int) + hs) as i64, y: p.position.y },
                    velocity: Vec2 { x: 0, y: p.velocity.y },
                    ..p
                },
                CollisionSide::Top => PlayerBody {
                    position: Vec2 { x: p.position.x, y: (b.y + half(cfg.h as int) + hs) as i64 },
                    velocity: Vec2 { x: p.velocity.x, y: 0 },
                    ..p
                },
                CollisionSide::Bottom => PlayerBody {
                    position: Vec2 { x: p.position.x, y: (b.y - half(cfg.h as int) - hs) as i64 },
                    velocity: Vec2 { x: p.velocity.x, y: 0 },
                    ..p
                },
            }
        } else {
            p
        },
        None => p,
    }
}

/// Resolves the collision found this tick, if any, and consumes it.
pub fn handle_collision_system(
    player: &mut PlayerBody,
    collision: Option<Collision>,
    blocks: &Vec<BlockBody>,
    config: &Config,
)
    requires
        config.wf(),
        bodies_fit(blocks@),
        collision is Some ==> collision->0.block_index < config.objects.blocks.len(),
    ensures
        *final(player) == after_resolve(
            *old(player),
            collision,
            blocks@,
            config.objects.blocks@,
            config.objects.player.size as int,
        ),
{
    if let Some(c) = collision {
        if c.block_index < blocks.len() {
            let i = c.block_index;
            let b = blocks[i].position;
            let cfg = config.objects.blocks[i];
            assert(block_fits(blocks@[i as int]));
            assert(cfg.wf());
            let hs = halve(config.objects.player.size);
            match c.side {
                CollisionSide::Left => {
                    player.velocity.x = 0;
                    player.position.x = b.x - halve(cfg.w) - hs;
                },
                CollisionSide::Right => {
                    player.velocity.x = 0;
                    player.position.x = b.x + halve(cfg.w) + hs;
                },
                CollisionSide::Top => {
                    player.velocity.y = 0;
                    player.position.y = b.y + halve(cfg.h) + hs;
                },
                CollisionSide::Bottom => {
                    player.velocity.y = 0;
                    player.position.y = b.y - halve(cfg.h) - hs;
                },
            }
        }
    }
}

/// After a `Top` resolution the actor's bottom edge lies exactly on the
/// obstacle's top edge: no overlap is left and no gap is opened.
pub proof fn lemma_top_resolution_contact(
    p: PlayerBody,
    c: Collision,
    bs: Seq<BlockBody>,
    cs: Seq<Block>,
    size: int,
)
    requires
        c.side == CollisionSide::Top,
        c.block_index < bs.len(),
        c.block_index < cs.len(),
        bodies_fit(bs),
        blocks_ok(cs),
        0 <= size <= COORD_LIMIT,
    ensures
        player_box(after_resolve(p, Some(c), bs, cs, size), size).min.y == block_box(
            bs[c.block_index as int],
            cs[c.block_index as int],
        ).max.y,
{
    assert(block_fits(bs[c.block_index as int]));
    assert(cs[c.block_index as int].wf());
}

/// `v` limited to `[lo, hi]`.
pub open spec fn clamp(v: int, lo: int, hi: int) -> int {
    if v < lo {
        lo
    } else if v > hi {
        hi
    } else {
        v
    }
}

/// The actor kept between the side walls and above the floor; resting on
/// the floor stops its fall and grounds it. Positions are integers, so
/// "resting on the floor" is exact equality with the floor bound, with no
/// rounding drift to allow for.
pub open spec fn after_bounds(p: PlayerBody, c: &Config) -> PlayerBody {
    let x = clamp(p.position.x as int, left_bound(c), right_bound(c));
    let y = if p.position.y < bottom_bound(c) {
        bottom_bound(c)
    } else {
        p.position.y as int
    };
    if y == bottom_bound(c) {
        PlayerBody {
            position: Vec2 { x: x as i64, y: y as i64 },
            velocity: Vec2 { x: p.velocity.x, y: 0 },
            state: PlayerState { grounded: true },
            ..p
        }
    } else {
        PlayerBody { position: Vec2 { x: x as i64, y: y as i64 }, ..p }
    }
}

/// Clamps the actor to the static walls and floor.
pub fn player_bounds_system(player: &mut PlayerBody, config: &Config)
    requires
        config.wf(),
    ensures
        *final(player) == after_bounds(*old(player), config),
{
    let w = config.wall_params;
    let hs = halve(config.objects.player.size);
    let ht = halve(w.thickness);
    let left = w.left_x + ht + hs;
    let right = w.right_x - ht - hs;
    let bottom = w.bottom_y + ht + hs;
    if player.position.x < left {
        player.position.x = left;
    } else if player.position.x > right {
        player.position.x = right;
    }
    if player.position.y < bottom {
        player.position.y = bottom;
    }
    if player.position.y == bottom {
        player.velocity.y = 0;
        player.state.grounded = true;
    }
}

/// Clamping to the walls and floor a second time, with nothing changed in
/// between, changes nothing.
pub proof fn lemma_bounds_idempotent(p: PlayerBody, c: &Config)
    requires
        c.wf(),
    ensures
        after_bounds(after_bounds(p, c), c) == after_bounds(p, c),
{
}

} // verus!
