use cookemup::enemy_systems::{
    enemy_entrance_circle_movement, enemy_shoot, enemy_update, AICircle, AIEntrance,
    AIMoveStates, EnemyBundle, EntranceDirections,
};
use cookemup::fx::FX_ONE;
use cookemup::laser_systems::LaserEntity;
use cookemup::util::Vec2;

fn pathed_enemy() -> EnemyBundle {
    // The spawn layout for a 600x800 window: off the right edge, steering
    // towards a 100-pixel circle centred at (300, 600).
    let mut e = EnemyBundle::default();
    e.transform.translation = Vec2 { x: 700 * FX_ONE, y: 725 * FX_ONE };
    e.entrance = Some(AIEntrance { direction: EntranceDirections::Left });
    e.circle = Some(
        AICircle {
            x_origin: 300 * FX_ONE,
            y_origin: 600 * FX_ONE,
            x_radius: 100 * FX_ONE,
            y_radius: 100 * FX_ONE,
        },
    );
    e
}

#[test]
fn state_step_accumulates_time_in_any_phase() {
    let mut enemies = vec![EnemyBundle::default(), EnemyBundle::default()];
    enemies[1].state.movement = AIMoveStates::Hovering;
    enemy_update(&mut enemies, FX_ONE / 60);
    enemy_update(&mut enemies, FX_ONE / 60);
    assert_eq!(enemies[0].state.state_step, 120);
    assert_eq!(enemies[1].state.state_step, 120);
}

#[test]
fn entering_enemy_steps_towards_the_path_without_overshooting() {
    // Nine seconds in at axis speed 10: the path angle is 90 degrees, so
    // the target is (x_origin, y_origin + y_radius) = (300, 700), and the
    // step budget is 90 pixels on each axis.
    let mut enemies = vec![pathed_enemy()];
    enemies[0].state.state_step = 9 * FX_ONE;
    enemy_entrance_circle_movement(&mut enemies);

    // 400 pixels to cover horizontally: moves the full 90-pixel budget.
    assert_eq!(enemies[0].transform.translation.x, 610 * FX_ONE);
    // 25 pixels to cover vertically: clamps onto the target.
    assert_eq!(enemies[0].transform.translation.y, 700 * FX_ONE);
}

#[test]
fn enemy_at_the_target_stays_there() {
    let mut enemies = vec![pathed_enemy()];
    enemies[0].state.state_step = 9 * FX_ONE;
    enemies[0].transform.translation = Vec2 { x: 300 * FX_ONE, y: 700 * FX_ONE };
    enemy_entrance_circle_movement(&mut enemies);
    assert_eq!(enemies[0].transform.translation, Vec2 { x: 300 * FX_ONE, y: 700 * FX_ONE });
}

#[test]
fn hovering_or_pathless_enemies_do_not_move() {
    let mut enemies = vec![pathed_enemy(), EnemyBundle::default()];
    enemies[0].state.movement = AIMoveStates::Hovering;
    enemies[0].state.state_step = 9 * FX_ONE;
    enemies[1].state.state_step = 9 * FX_ONE; // entering, but no path attached
    let before0 = enemies[0].transform.translation;
    let before1 = enemies[1].transform.translation;
    enemy_entrance_circle_movement(&mut enemies);
    assert_eq!(enemies[0].transform.translation, before0);
    assert_eq!(enemies[1].transform.translation, before1);
}

#[test]
fn enemies_fire_downward_and_reset() {
    let mut enemies = vec![pathed_enemy()];
    let mut lasers: Vec<LaserEntity> = Vec::new();
    enemy_shoot(&mut enemies, &mut lasers);

    assert_eq!(lasers.len(), 1);
    let l = &lasers[0];
    assert_eq!(l.bundle.transform.translation, Vec2 { x: 700 * FX_ONE, y: 725 * FX_ONE });
    assert_eq!(l.bundle.speed.1, -350 * FX_ONE);
    assert!(l.from_enemy.is_some() && l.from_player.is_none());
    assert_eq!(enemies[0].weapon.guns[0].cooldown.0, FX_ONE);

    // The gun is warm now: a second pass spawns nothing.
    enemy_shoot(&mut enemies, &mut lasers);
    assert_eq!(lasers.len(), 1);
}
