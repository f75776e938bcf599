use vstd::prelude::*;

use crate::components::{spawn_blocks, spawn_player, spawned_block, BlockBody, PlayerBody};
use crate::geometry::{in_range_exec, Vec2};
use crate::physics::{
    after_bounds, after_detect, after_gravity, after_intent, after_resolve, after_ride,
    apply_gravity, apply_velocity, apply_velocity_blocks, block_moved, detect_collision_system,
    dt_ok, first_hit, lemma_displacement_bounded, handle_collision_system, move_block_system, moved, oscillated,
    player_bounds_system, player_box, player_movement_system, player_on_block_moving_system,
    Intent,
};
use crate::resources::{Config, MAX_BLOCKS};

verus! {

/// The live simulation: the actor and the moving obstacles.
pub struct World {
    pub player: PlayerBody,
    pub blocks: Vec<BlockBody>,
}

/// The obstacles after one tick: each moved by its velocity, then turned
/// round if it reached an end of its patrol.
pub open spec fn tick_blocks(bs: Seq<BlockBody>, config: &Config, dt: int) -> Seq<BlockBody> {
    Seq::new(
        bs.len(),
        |i: int|
            if i < config.objects.blocks.len() {
                oscillated(block_moved(bs[i], dt), config.objects.blocks[i], config.wall_params)
            } else {
                block_moved(bs[i], dt)
            },
    )
}

/// The actor after one tick, given the obstacles as they stand after their
/// own update: intent, gravity, motion, collision detection, ride-along,
/// collision resolution, and last the walls and floor.
pub open spec fn tick_player(
    p: PlayerBody,
    bs: Seq<BlockBody>,
    intent: Intent,
    config: &Config,
    dt: int,
) -> PlayerBody {
    let size = config.objects.player.size as int;
    let cs = config.objects.blocks@;
    let p1 = after_intent(p, intent, config.objects.player);
    let p2 = after_gravity(p1, config.physics.gravity as int, dt);
    let p3 = PlayerBody { position: moved(p2.position, p2.velocity, dt), ..p2 };
    let hit = first_hit(player_box(p3, size), bs, cs, 0);
    let p4 = after_detect(p3, hit);
    let p5 = after_ride(p4, hit, bs);
    let p6 = after_resolve(p5, hit, bs, cs, size);
    after_bounds(p6, config)
}

impl World {
    /// Every position and velocity in the coordinate range, the actor's mass
    /// the configured one, and no more obstacles than a level may hold.
    pub open spec fn wf(&self, config: &Config) -> bool {
        &&& self.player.wf()
        &&& self.player.mass.0 == config.objects.player.mass
        &&& self.blocks.len() <= MAX_BLOCKS
        &&& forall|i: int| 0 <= i < self.blocks.len() ==> (#[trigger] self.blocks[i]).wf()
    }

    /// The level as it starts: the actor and every obstacle spawned.
    pub fn new(config: &Config) -> (r: World)
        requires
            config.wf(),
        ensures
            r.player.position.x == 0,
            r.player.position.y == config.objects.player.y + config.wall_params.bottom_y,
            r.player.velocity == (Vec2 { x: 0, y: 0 }),
            r.player.mass.0 == config.objects.player.mass,
            !r.player.state.grounded,
            r.blocks.len() == config.objects.blocks.len(),
            forall|i: int|
                0 <= i < r.blocks.len() ==> r.blocks[i] == spawned_block(
                    i,
                    #[trigger] config.objects.blocks[i],
                ),
    {
        World { player: spawn_player(config), blocks: spawn_blocks(config) }
    }

    /// Whether the state is within the ranges that `tick` accepts.
    pub fn within_limits(&self, config: &Config) -> (r: bool)
        ensures
            r == self.wf(config),
    {
        let p = &self.player;
        if !(in_range_exec(p.position.x) && in_range_exec(p.position.y) && in_range_exec(
            p.velocity.x,
        ) && in_range_exec(p.velocity.y)) {
            return false;
        }
        if p.mass.0 != config.objects.player.mass || self.blocks.len() > MAX_BLOCKS {
            return false;
        }
        let n = self.blocks.len();
        let mut i: usize = 0;
        while i < n
            invariant
                n == self.blocks.len(),
                i <= n,
                forall|j: int| 0 <= j < i ==> (#[trigger] self.blocks[j]).wf(),
            decreases n - i,
        {
            let b = &self.blocks[i];
            if !(in_range_exec(b.position.x) && in_range_exec(b.position.y) && in_range_exec(
                b.velocity.x,
            ) && in_range_exec(b.velocity.y)) {
                return false;
            }
            i = i + 1;
        }
        true
    }

    /// Advances the simulation by one fixed tick of `dt` microseconds.
    ///
    /// The stages run in a fixed order: intent, gravity, motion of every
    /// body, the obstacles' patrol turns, collision detection, ride-along,
    /// collision resolution, and last the walls and floor. The floor clamp
    /// runs after detection so that detection, which makes an actor with no
    /// obstacle contact airborne, cannot undo grounding on the floor within
    /// the same tick. The collision found is resolved in the same tick and
    /// then dropped.
    pub fn tick(&mut self, config: &Config, intent: &Intent, dt: i64)
        requires
            config.wf(),
            old(self).wf(config),
            dt_ok(dt as int),
        ensures
            final(self).blocks@ == tick_blocks(old(self).blocks@, config, dt as int),
            final(self).player == tick_player(
                old(self).player,
                final(self).blocks@,
                *intent,
                config,
                dt as int,
            ),
    {
        let ghost p0 = self.player;
        let ghost bs0 = self.blocks@;
        assert forall|i: int| 0 <= i < bs0.len() implies crate::physics::block_fits(
            #[trigger] bs0[i],
        ) by {
            assert(self.blocks[i].wf());
        }
        player_movement_system(intent, &mut self.player, &config.objects.player);
        apply_gravity(&mut self.player, config.physics.gravity, dt);
        proof {
            lemma_displacement_bounded(self.player.velocity.x as int, dt as int);
            lemma_displacement_bounded(self.player.velocity.y as int, dt as int);
        }
        apply_velocity(&mut self.player.position, &self.player.velocity, dt);
        apply_velocity_blocks(&mut self.blocks, dt);
        assert forall|i: int| 0 <= i < self.blocks.len() implies crate::physics::block_fits(
            #[trigger] self.blocks[i],
        ) by {
            assert(self.blocks[i] == block_moved(bs0[i], dt as int));
            assert(old(self).blocks[i].wf());
            lemma_displacement_bounded(bs0[i].velocity.x as int, dt as int);
            lemma_displacement_bounded(bs0[i].velocity.y as int, dt as int);
        }
        move_block_system(&mut self.blocks, config);
        assert forall|i: int| 0 <= i < self.blocks.len() implies crate::physics::block_fits(
            #[trigger] self.blocks@[i],
        ) by {
            assert(old(self).blocks[i].wf());
        }
        assert(self.blocks@ =~= tick_blocks(bs0, config, dt as int));
        let hit = detect_collision_system(&mut self.player, &self.blocks, config);
        player_on_block_moving_system(&mut self.player, &hit, &self.blocks);
        handle_collision_system(&mut self.player, hit, &self.blocks, config);
        player_bounds_system(&mut self.player, config);
    }
}


} // verus!
