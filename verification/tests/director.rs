use cookemup::enemy_systems::{AIMoveStates, EnemyBundle, EntranceDirections};
use cookemup::fx::FX_ONE;
use cookemup::game_systems::{update_distance, GameState};
use cookemup::health_systems::health_update;
use cookemup::map_systems::{enemy_spawn, MapState, SPAWN_INTERVAL};
use cookemup::player_systems::player_spawn;
use cookemup::util::WinSize;

fn window() -> WinSize {
    WinSize::new(600 * FX_ONE, 800 * FX_ONE)
}

fn state_at(distance: i64) -> GameState {
    let mut gs = GameState::default();
    gs.distance.0 = distance;
    gs
}

#[test]
fn no_spawn_while_distance_at_or_below_threshold() {
    let window = window();
    let mut map_state = MapState::default();
    let mut enemies: Vec<EnemyBundle> = Vec::new();

    // Strictly below the threshold, and exactly on it: nothing spawns.
    for d in [0, SPAWN_INTERVAL - 1, SPAWN_INTERVAL] {
        enemy_spawn(&state_at(d), &mut map_state, &mut enemies, &window);
        assert_eq!(enemies.len(), 0);
        assert_eq!(map_state.last_spawn, 0);
    }
}

#[test]
fn one_spawn_when_distance_crosses_threshold_and_never_twice() {
    let window = window();
    let mut map_state = MapState::default();
    let mut enemies: Vec<EnemyBundle> = Vec::new();
    let d = SPAWN_INTERVAL + 1;

    enemy_spawn(&state_at(d), &mut map_state, &mut enemies, &window);
    assert_eq!(enemies.len(), 1);
    assert_eq!(map_state.last_spawn, d + SPAWN_INTERVAL);

    // The same frame's distance can never trigger a second spawn.
    enemy_spawn(&state_at(d), &mut map_state, &mut enemies, &window);
    assert_eq!(enemies.len(), 1);
    assert_eq!(map_state.last_spawn, d + SPAWN_INTERVAL);
}

#[test]
fn spawned_enemy_sits_off_screen_on_its_circle() {
    let window = window();
    let mut map_state = MapState::default();
    let mut enemies: Vec<EnemyBundle> = Vec::new();
    enemy_spawn(&state_at(SPAWN_INTERVAL + 1), &mut map_state, &mut enemies, &window);

    let e = &enemies[0];
    assert_eq!(e.transform.translation.x, 700 * FX_ONE); // width + 100
    assert_eq!(e.transform.translation.y, 725 * FX_ONE); // height - 75
    assert_eq!(e.state.movement, AIMoveStates::Entering);
    assert_eq!(e.state.state_step, 0);
    let entrance = e.entrance.expect("a spawned enemy has an entrance");
    assert!(matches!(entrance.direction, EntranceDirections::Left));
    let circle = e.circle.expect("a spawned enemy has a circle");
    assert_eq!(circle.x_origin, 300 * FX_ONE); // half width
    assert_eq!(circle.y_origin, 600 * FX_ONE); // half height + 200
    assert_eq!(circle.x_radius, 100 * FX_ONE);
    assert_eq!(circle.y_radius, 100 * FX_ONE);
}

#[test]
fn distance_advances_ten_per_second_and_clamps() {
    let mut gs = GameState::default();
    update_distance(&mut gs, FX_ONE / 60);
    assert_eq!(gs.distance.0, 600); // 10 m/s for 1/60 s = 1/6 m

    // Close to the target it clamps exactly.
    gs.distance.0 = gs.distance.1 - 1;
    update_distance(&mut gs, FX_ONE);
    assert_eq!(gs.distance.0, gs.distance.1);

    // At the target it stays there.
    update_distance(&mut gs, FX_ONE);
    assert_eq!(gs.distance.0, gs.distance.1);
}

#[test]
fn distance_readout_rounds_to_whole_metres() {
    let mut gs = GameState::default();
    gs.distance.0 = FX_ONE / 2; // 0.5 m rounds away from zero
    assert_eq!(gs.distance.current_rounded(), 1);
    gs.distance.0 = FX_ONE / 2 - 1;
    assert_eq!(gs.distance.current_rounded(), 0);
    assert_eq!(gs.distance.target_rounded(), 1000);
}

#[test]
fn lifecycle_destroys_at_zero_and_keeps_above_zero() {
    let window = window();
    let mut player = Some(player_spawn(&window));
    let mut enemies = vec![
        EnemyBundle::default(), // health 1, kept
        EnemyBundle::default(),
        EnemyBundle::default(),
    ];
    enemies[1].health.0 = 0; // exactly zero: destroyed
    enemies[2].health.0 = 1; // the smallest positive health: kept

    health_update(&mut player, &mut enemies);
    assert!(player.is_some());
    assert_eq!(enemies.len(), 2);
    assert_eq!(enemies[0].health.0, FX_ONE);
    assert_eq!(enemies[1].health.0, 1);
}

#[test]
fn lifecycle_destroys_the_player_at_zero_health() {
    let window = window();
    let mut player = Some(player_spawn(&window));
    player.as_mut().unwrap().health.0 = -FX_ONE;
    let mut enemies: Vec<EnemyBundle> = Vec::new();
    health_update(&mut player, &mut enemies);
    assert!(player.is_none());
}
