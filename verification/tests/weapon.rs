use cookemup::fx::FX_ONE;
use cookemup::gun_systems::{
    gun_cooldown, update_cooldown, update_cooldowns, Gun, GunCollection, GunCooldown,
};
use cookemup::util::{Transform, Vec2};
use cookemup::world::World;

fn gun_with_cooldown(current: i64, reset: i64) -> Gun {
    Gun { cooldown: GunCooldown(current, reset), ..Gun::default() }
}

#[test]
fn cooldown_counts_down() {
    let mut gun = gun_with_cooldown(FX_ONE, FX_ONE);
    update_cooldown(&mut gun, FX_ONE / 4);
    assert_eq!(gun.cooldown.0, 3 * FX_ONE / 4);
    assert_eq!(gun.cooldown.1, FX_ONE);
}

#[test]
fn cooldown_never_goes_below_zero() {
    let mut gun = gun_with_cooldown(FX_ONE / 2, FX_ONE);
    update_cooldown(&mut gun, 10 * FX_ONE);
    assert_eq!(gun.cooldown.0, 0);

    // A huge time delta saturates but still floors at zero.
    let mut gun = gun_with_cooldown(1, FX_ONE);
    update_cooldown(&mut gun, i64::MAX);
    assert_eq!(gun.cooldown.0, 0);
}

#[test]
fn cooldown_at_zero_stays_ready() {
    let mut gun = gun_with_cooldown(0, FX_ONE);
    update_cooldown(&mut gun, FX_ONE);
    assert_eq!(gun.cooldown.0, 0);
}

#[test]
fn ready_gun_fires_and_resets() {
    let mut gun = Gun {
        cooldown: GunCooldown(0, FX_ONE),
        offset: Vec2 { x: 20 * FX_ONE, y: 5 * FX_ONE },
        damage: 2 * FX_ONE,
        ..Gun::default()
    };
    let owner = Transform { translation: Vec2 { x: 100 * FX_ONE, y: 50 * FX_ONE } };
    let fired = gun.try_fire(&owner);
    let bundle = fired.expect("a gun with cooldown zero fires");
    assert_eq!(bundle.transform.translation.x, 120 * FX_ONE);
    assert_eq!(bundle.transform.translation.y, 55 * FX_ONE);
    assert_eq!(bundle.damage.0, 2 * FX_ONE);
    assert_eq!(bundle.speed, gun.initial_speed);
    assert_eq!(gun.cooldown.0, FX_ONE);
}

#[test]
fn warm_gun_does_not_fire() {
    let mut gun = gun_with_cooldown(1, FX_ONE);
    let owner = Transform { translation: Vec2 { x: 0, y: 0 } };
    assert!(gun.try_fire(&owner).is_none());
    assert_eq!(gun.cooldown.0, 1);
}

#[test]
fn collection_cooldowns_all_advance() {
    let mut collection = GunCollection {
        guns: vec![
            gun_with_cooldown(FX_ONE, FX_ONE),
            gun_with_cooldown(0, FX_ONE),
            gun_with_cooldown(100, FX_ONE),
        ],
    };
    update_cooldowns(&mut collection, 200);
    assert_eq!(collection.guns[0].cooldown.0, FX_ONE - 200);
    assert_eq!(collection.guns[1].cooldown.0, 0);
    assert_eq!(collection.guns[2].cooldown.0, 0);
}

#[test]
fn world_gun_cooldown_reaches_player_and_enemies() {
    let mut world = World::new(600 * FX_ONE, 800 * FX_ONE);
    let mut enemy = cookemup::enemy_systems::EnemyBundle::default();
    enemy.weapon.guns[0].cooldown.0 = FX_ONE;
    world.enemies.push(enemy);
    if let Some(p) = world.player.as_mut() {
        p.weapon.guns[0].cooldown.0 = 600;
    }
    gun_cooldown(&mut world.player, &mut world.enemies, 60);
    assert_eq!(world.player.as_ref().unwrap().weapon.guns[0].cooldown.0, 540);
    assert_eq!(world.enemies[0].weapon.guns[0].cooldown.0, FX_ONE - 60);
}
