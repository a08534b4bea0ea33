use cookemup::fx::FX_ONE;
use cookemup::player_systems::PlayerMoveStates;
use cookemup::util::InputState;
use cookemup::world::World;

fn frame() -> i64 {
    FX_ONE / 60
}

#[test]
fn new_world_matches_the_startup_layout() {
    let world = World::new(600 * FX_ONE, 800 * FX_ONE);
    assert_eq!(world.win_size.half_w, 300 * FX_ONE);
    assert_eq!(world.win_size.half_h, 400 * FX_ONE);
    assert_eq!(world.game_state.distance.0, 0);
    assert_eq!(world.game_state.distance.1, 1000 * FX_ONE);
    assert_eq!(world.map_state.last_spawn, 0);
    let player = world.player.as_ref().expect("the player exists at start");
    assert_eq!(player.transform.translation.x, 300 * FX_ONE);
    assert_eq!(player.health.0, 100 * FX_ONE);
    assert_eq!(player.weapon.guns.len(), 2);
    assert!(world.enemies.is_empty());
    assert!(world.lasers.is_empty());
}

#[test]
fn one_frame_moves_fires_and_advances_counters() {
    let mut world = World::new(600 * FX_ONE, 800 * FX_ONE);
    let input = InputState { right: true, fire: true, ..Default::default() };
    world.tick(&input, frame());

    // The distance counter gains 1/6 m.
    assert_eq!(world.game_state.distance.0, 600);

    let player = world.player.as_ref().unwrap();
    // The ship moved one frame of 500 px/s to the right.
    assert_eq!(player.transform.translation.x, 300 * FX_ONE + 500 * FX_ONE / 60);
    assert_eq!(player.player_state.movement, PlayerMoveStates::MoveRight);
    assert_eq!(player.player_state.state_step, 600);

    // Both guns fired and have been cooling for one frame since.
    assert_eq!(world.lasers.len(), 2);
    for gun in player.weapon.guns.iter() {
        assert_eq!(gun.cooldown.0, gun.cooldown.1 - frame());
    }
    // The projectiles spawned at the muzzle offsets and already advanced
    // one frame of 500 px/s upwards within the same tick.
    let y = 153000 + 500 * FX_ONE / 60;
    assert_eq!(world.lasers[0].bundle.transform.translation.y, y);
    assert_eq!(world.lasers[1].bundle.transform.translation.y, y);
    assert!(world.enemies.is_empty());
}

#[test]
fn projectiles_leave_the_world_at_the_top() {
    let mut world = World::new(600 * FX_ONE, 800 * FX_ONE);
    let input = InputState { fire: true, ..Default::default() };
    world.tick(&input, frame());
    assert_eq!(world.lasers.len(), 2);

    // At 500 px/s a projectile from y=42.5 leaves the 800-pixel window in
    // under two simulated seconds.
    let quiet = InputState::default();
    let mut frames: usize = 0;
    while !world.lasers.is_empty() && frames < 200 {
        world.tick(&quiet, frame());
        frames += 1;
    }
    assert!(world.lasers.is_empty());
}

#[test]
fn the_director_populates_the_field_over_time() {
    let mut world = World::new(600 * FX_ONE, 800 * FX_ONE);
    let quiet = InputState::default();
    // 10 m/s: the first spawn threshold of 20 m falls after two simulated
    // seconds and a frame.
    for _ in 0..122 {
        world.tick(&quiet, frame());
    }
    assert_eq!(world.enemies.len(), 1);
    let marker = world.map_state.last_spawn;
    assert!(marker > 0);

    // The marker moved a full interval ahead, so the next frame spawns
    // nothing.
    world.tick(&quiet, frame());
    assert_eq!(world.enemies.len(), 1);
    assert_eq!(world.map_state.last_spawn, marker);
}
