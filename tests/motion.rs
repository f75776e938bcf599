use platformer::components::{
    goal_system, spawn_blocks, spawn_goal, spawn_player, spawn_walls, Block, BlockBody, Direction, Mass,
    PlayerBody, PlayerState, WallLocation,
};
use platformer::geometry::Vec2;
use platformer::physics::{
    apply_gravity, apply_velocity, detect_collision_system, move_block_system,
    player_bounds_system, player_movement_system, Intent,
};
use platformer::resources::{
    halve, Block as BlockConfig, Canvas, Config, Goal, JsonFilePath, Objects, Physics, Player,
    WallParams, Window, UNIT,
};
use platformer::world::World;

fn level(blocks: Vec<BlockConfig>, player_y: i64) -> Config {
    Config {
        window: Window { width: 1280, height: 720 },
        canvas: Canvas { width: 1280, height: 720 },
        objects: Objects {
            blocks,
            player: Player {
                x: 0,
                y: player_y,
                size: 10 * UNIT,
                speed: 200 * UNIT,
                mass: 40,
                jump_force: 300 * UNIT,
                start_y: 0,
            },
            goal: Goal { x: 100 * UNIT, y: 20 * UNIT },
        },
        wall_params: WallParams {
            thickness: 10 * UNIT,
            left_x: -500 * UNIT,
            right_x: 500 * UNIT,
            bottom_y: 0,
        },
        physics: Physics { gravity: 98_000 },
    }
}

fn actor(x: i64, y: i64, grounded: bool) -> PlayerBody {
    PlayerBody {
        position: Vec2::new(x, y),
        velocity: Vec2::new(0, 0),
        mass: Mass(40),
        state: PlayerState { grounded },
    }
}

fn none() -> Intent {
    Intent { move_left: false, move_right: false, jump: false }
}

#[test]
fn one_tick_from_rest_in_the_air() {
    let config = level(vec![], 50 * UNIT);
    let mut world = World::new(&config);
    assert_eq!(world.player.position, Vec2::new(0, 500_000));
    assert!(world.within_limits(&config));
    world.tick(&config, &none(), 20_000);
    assert_eq!(world.player.velocity.y, -78_400);
    assert_eq!(world.player.position.y, 498_432);
    assert_eq!(world.player.position.x, 0);
    assert!(!world.player.state.grounded);
}

#[test]
fn gravity_only_pulls_when_airborne() {
    let mut p = actor(0, 0, false);
    p.velocity.y = 1_000;
    apply_gravity(&mut p, 98_000, 20_000);
    assert_eq!(p.velocity.y, 1_000 - 78_400);
    let mut q = actor(0, 0, true);
    q.velocity.y = 1_000;
    apply_gravity(&mut q, 98_000, 20_000);
    assert_eq!(q.velocity.y, 1_000);
}

#[test]
fn motion_rounds_down() {
    let mut pos = Vec2::new(10, 10);
    apply_velocity(&mut pos, &Vec2::new(-1, 1), 1);
    assert_eq!(pos, Vec2::new(9, 10));
    let mut pos = Vec2::new(0, 0);
    apply_velocity(&mut pos, &Vec2::new(3_000_000, -2_500_000), 500_000);
    assert_eq!(pos, Vec2::new(1_500_000, -1_250_000));
}

#[test]
fn clamping_twice_changes_nothing() {
    let config = level(vec![], 0);
    let mut p = actor(-600 * UNIT, 3 * UNIT, false);
    p.velocity = Vec2::new(5, -7);
    player_bounds_system(&mut p, &config);
    let once = p;
    player_bounds_system(&mut p, &config);
    assert_eq!(p, once);
    assert_eq!(once.position, Vec2::new(-490 * UNIT, 10 * UNIT));
    assert_eq!(once.velocity, Vec2::new(5, 0));
    assert!(once.state.grounded);
}

#[test]
fn clamping_keeps_actor_inside_right_wall_and_airborne_above_floor() {
    let config = level(vec![], 0);
    let mut p = actor(600 * UNIT, 40 * UNIT, false);
    p.velocity = Vec2::new(5, -7);
    player_bounds_system(&mut p, &config);
    assert_eq!(p.position, Vec2::new(490 * UNIT, 40 * UNIT));
    assert_eq!(p.velocity, Vec2::new(5, -7));
    assert!(!p.state.grounded);
}

#[test]
fn intent_sets_running_speed_and_jumps_only_from_ground() {
    let cfg = level(vec![], 0).objects.player;
    let mut p = actor(0, 0, true);
    player_movement_system(&Intent { move_left: true, move_right: true, jump: true }, &mut p, &cfg);
    assert_eq!(p.velocity, Vec2::new(-200 * UNIT, 300 * UNIT));
    assert!(!p.state.grounded);
    player_movement_system(&Intent { move_left: false, move_right: true, jump: true }, &mut p, &cfg);
    assert_eq!(p.velocity, Vec2::new(200 * UNIT, 300 * UNIT));
    player_movement_system(&none(), &mut p, &cfg);
    assert_eq!(p.velocity.x, 0);
}

#[test]
fn obstacle_reverses_at_right_end() {
    let config = level(vec![BlockConfig { x: 0, y: 0, w: 100 * UNIT, h: 10 * UNIT }], 0);
    let mut blocks = vec![BlockBody {
        block: Block(0),
        position: Vec2::new(445 * UNIT, 0),
        velocity: Vec2::new(300 * UNIT, 0),
        direction: Direction(1),
    }];
    move_block_system(&mut blocks, &config);
    assert_eq!(blocks[0].direction, Direction(-1));
    assert_eq!(blocks[0].velocity.x, -300 * UNIT);
    move_block_system(&mut blocks, &config);
    assert_eq!(blocks[0].direction, Direction(-1));
    assert_eq!(blocks[0].velocity.x, -300 * UNIT);
}

#[test]
fn obstacle_reverses_at_left_end_and_not_before() {
    let config = level(vec![BlockConfig { x: 0, y: 0, w: 100 * UNIT, h: 10 * UNIT }], 0);
    let mut blocks = vec![BlockBody {
        block: Block(0),
        position: Vec2::new(-444 * UNIT, 0),
        velocity: Vec2::new(-300 * UNIT, 0),
        direction: Direction(-1),
    }];
    move_block_system(&mut blocks, &config);
    assert_eq!(blocks[0].velocity.x, -300 * UNIT);
    blocks[0].position.x = -445 * UNIT;
    move_block_system(&mut blocks, &config);
    assert_eq!(blocks[0].direction, Direction(1));
    assert_eq!(blocks[0].velocity.x, 300 * UNIT);
}

#[test]
fn landing_on_obstacle_grounds_and_carries() {
    let config = level(vec![BlockConfig { x: 0, y: 100 * UNIT, w: 100 * UNIT, h: 10 * UNIT }], 0);
    let mut world = World::new(&config);
    world.player.position = Vec2::new(0, 109 * UNIT);
    world.blocks[0].velocity.x = 0;
    world.tick(&config, &none(), 10_000);
    assert!(world.player.state.grounded);
    assert_eq!(world.player.position.y, 110 * UNIT);
    assert_eq!(world.player.velocity.y, 0);
    world.blocks[0].velocity.x = 50;
    let mut p = world.player;
    let hit = detect_collision_system(&mut p, &world.blocks, &config);
    assert_eq!(hit, None);
}

#[test]
fn spawning_places_bodies() {
    let config = level(
        vec![
            BlockConfig { x: 10, y: 20, w: 30, h: 40 },
            BlockConfig { x: -10, y: 5, w: 30, h: 40 },
        ],
        7,
    );
    let p = spawn_player(&config);
    assert_eq!(p.position, Vec2::new(0, 7));
    assert!(!p.state.grounded);
    let blocks = spawn_blocks(&config);
    assert_eq!(blocks.len(), 2);
    assert_eq!(blocks[0].direction, Direction(1));
    assert_eq!(blocks[0].velocity, Vec2::new(20 + 300 * UNIT, 0));
    assert_eq!(blocks[1].direction, Direction(-1));
    assert_eq!(blocks[1].velocity, Vec2::new(-(5 + 325 * UNIT), 0));
    assert_eq!(blocks[1].block, Block(1));
    assert_eq!(spawn_goal(&config), Vec2::new(100 * UNIT, 20 * UNIT));
}

#[test]
fn goal_is_reached_within_ten_units() {
    let goal = Vec2::new(0, 0);
    assert!(goal_system(&Vec2::new(6 * UNIT, 7 * UNIT), &goal));
    assert!(!goal_system(&Vec2::new(6 * UNIT, 8 * UNIT), &goal));
    assert!(!goal_system(&Vec2::new(10 * UNIT, 0), &goal));
}

#[test]
fn walls_are_sized_from_level_width() {
    let config = level(vec![], 0);
    assert_eq!(WallLocation::Bottom.size(&config), Vec2::new(1010 * UNIT, 10 * UNIT));
    assert_eq!(WallLocation::Left.size(&config), Vec2::new(10 * UNIT, 1010 * UNIT));
    assert_eq!(WallLocation::Right.position(&config), Vec2::new(500 * UNIT, 0));
    assert_eq!(halve(7), 3);
}

#[test]
fn config_path_is_kept() {
    let p = JsonFilePath::new("assets/config.json".to_string());
    assert_eq!(p.0, "assets/config.json");
}

#[test]
fn walls_spawn_floor_then_sides() {
    let config = level(vec![], 0);
    let walls = spawn_walls(&config);
    assert_eq!(walls.len(), 3);
    assert_eq!(walls[0], (Vec2::new(0, 0), Vec2::new(1010 * UNIT, 10 * UNIT)));
    assert_eq!(walls[1], (Vec2::new(-500 * UNIT, 0), Vec2::new(10 * UNIT, 1010 * UNIT)));
    assert_eq!(walls[2], (Vec2::new(500 * UNIT, 0), Vec2::new(10 * UNIT, 1010 * UNIT)));
}

#[test]
fn resting_on_floor_stays_grounded_and_can_jump() {
    let config = level(vec![], 0);
    let mut world = World::new(&config);
    world.tick(&config, &none(), 15_625);
    assert_eq!(world.player.position.y, 10 * UNIT);
    assert!(world.player.state.grounded);
    world.tick(&config, &none(), 15_625);
    assert_eq!(world.player.position.y, 10 * UNIT);
    assert_eq!(world.player.velocity.y, 0);
    assert!(world.player.state.grounded);
    let jump = Intent { move_left: false, move_right: false, jump: true };
    world.tick(&config, &jump, 15_625);
    assert!(!world.player.state.grounded);
    assert!(world.player.position.y > 10 * UNIT);
}

#[test]
fn limits_are_checked() {
    let mut config = level(vec![BlockConfig { x: 0, y: 0, w: 10, h: 10 }], 0);
    assert!(config.is_valid());
    config.objects.blocks.push(BlockConfig { x: 0, y: 0, w: -1, h: 10 });
    assert!(!config.is_valid());
    let mut narrow = level(vec![], 0);
    narrow.wall_params.right_x = narrow.wall_params.left_x;
    assert!(!narrow.is_valid());
    let mut heavy = level(vec![], 0);
    heavy.physics.gravity = i64::MAX / 2;
    assert!(!heavy.is_valid());
    let config = level(vec![], 0);
    let mut world = World::new(&config);
    assert!(world.within_limits(&config));
    world.player.velocity.y = i64::MIN;
    assert!(!world.within_limits(&config));
}

#[test]
fn weak_gravity_still_lowers_velocity() {
    let mut p = actor(0, 0, false);
    p.mass = Mass(1);
    apply_gravity(&mut p, 1, 1);
    assert_eq!(p.velocity.y, -1);
    let mut q = actor(0, 0, false);
    q.mass = Mass(1);
    apply_gravity(&mut q, 3, 500_000);
    assert_eq!(q.velocity.y, -2);
    let mut r = actor(0, 0, false);
    apply_gravity(&mut r, 0, 500_000);
    assert_eq!(r.velocity.y, 0);
}
