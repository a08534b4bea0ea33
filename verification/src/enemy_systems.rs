//! The enemy AI: the entrance state machine, the parametric near-circular
//! entrance path, and enemy fire.
//!
//! The product of an enemy's axis speed and its time-in-state is read as an
//! angle in fixed-point degrees and fed to the rational sine, so the motion
//! is periodic and exact at the axis crossings.

use vstd::prelude::*;

use crate::fx::{fx_cos, fx_cos64, fx_mul, fx_mul64, fx_sin, fx_sin64, sat_add, sat_add64, sat_sub, sat_sub64, FX_ONE};
use crate::gun_systems::{shoot_guns, spec_fired_lasers, spec_shot_guns, Gun, GunCollection, GunCooldown};
use crate::laser_systems::LaserEntity;
use crate::util::{Health, HitBox, Speed, Transform, Vec2};

verus! {

/// Marker component of an enemy entity.
#[derive(Clone, Copy, PartialEq, Eq, Structural, Debug)]
pub struct AI;

/// The enemy movement phases: an enemy enters along its path, then hovers.
/// The transition is one-way; a hovering enemy never re-enters.
#[derive(Clone, Copy, PartialEq, Eq, Structural, Debug)]
pub enum AIMoveStates {
    Entering,
    Hovering,
}

/// The movement phase plus the seconds accumulated in it.
#[derive(Clone, Copy, PartialEq, Eq, Structural, Debug)]
pub struct AIState {
    pub movement: AIMoveStates,
    pub state_step: i64,
}

impl Default for AIState {
    /// A fresh enemy starts entering with no time accumulated.
    fn default() -> (r: Self)
        ensures
            r == (AIState { movement: AIMoveStates::Entering, state_step: 0 }),
    {
        AIState { movement: AIMoveStates::Entering, state_step: 0 }
    }
}

/// The near-circular path an entering enemy steers along: its centre and
/// its per-axis radii, in fixed-point pixels.
#[derive(Clone, Copy, PartialEq, Eq, Structural, Debug)]
pub struct AICircle {
    pub x_origin: i64,
    pub y_origin: i64,
    pub x_radius: i64,
    pub y_radius: i64,
}

/// Tag for a horizontal patrol pattern; no system drives it yet, matching
/// the data model of the game.
#[derive(Clone, Copy, PartialEq, Eq, Structural, Debug)]
pub struct AIHorizontal;

/// The side an enemy enters from.
#[derive(Clone, Copy, PartialEq, Eq, Structural, Debug)]
pub enum EntranceDirections {
    Left,
    Up,
    Right,
}

/// The entrance descriptor attached to a spawned enemy.
#[derive(Clone, Copy, PartialEq, Eq, Structural, Debug)]
pub struct AIEntrance {
    pub direction: EntranceDirections,
}

/// The components an enemy entity is spawned with; the entrance and circle
/// descriptors are attached by the spawn director.
#[derive(Clone, PartialEq, Eq, Debug)]
pub struct EnemyBundle {
    pub ai: AI,
    pub transform: Transform,
    pub speed: Speed,
    pub state: AIState,
    pub weapon: GunCollection,
    pub health: Health,
    pub hitbox: HitBox,
    pub entrance: Option<AIEntrance>,
    pub circle: Option<AICircle>,
}

/// The stock enemy gun: one-second cooldown starting ready, firing straight
/// down at 350 pixels per second.
pub open spec fn spec_enemy_gun() -> Gun {
    Gun {
        cooldown: GunCooldown(0, FX_ONE),
        initial_speed: Speed(0, (-350 * FX_ONE) as i64),
        ..crate::gun_systems::spec_default_gun()
    }
}

impl Default for EnemyBundle {
    /// A stock enemy: slow drift speed, one downward gun, a single hit
    /// point, and a 50-pixel hitbox, at the origin with no path attached.
    fn default() -> (r: Self)
        ensures
            r.transform.translation == (Vec2 { x: 0, y: 0 }),
            r.speed == (Speed((10 * FX_ONE) as i64, (10 * FX_ONE) as i64)),
            r.state == (AIState { movement: AIMoveStates::Entering, state_step: 0 }),
            r.weapon.guns@ == seq![spec_enemy_gun()],
            r.health == (Health(FX_ONE, FX_ONE)),
            r.hitbox.rect == (Vec2 { x: (50 * FX_ONE) as i64, y: (50 * FX_ONE) as i64 }),
            r.entrance is None,
            r.circle is None,
    {
        let gun = Gun {
            cooldown: GunCooldown(0, FX_ONE),
            initial_speed: Speed(0, -350 * FX_ONE),
            ..Gun::default()
        };
        let mut guns: Vec<Gun> = Vec::new();
        guns.push(gun);
        proof {
            assert(guns@ =~= seq![spec_enemy_gun()]);
        }
        EnemyBundle {
            ai: AI,
            transform: Transform { translation: Vec2 { x: 0, y: 0 } },
            speed: Speed(10 * FX_ONE, 10 * FX_ONE),
            state: AIState { movement: AIMoveStates::Entering, state_step: 0 },
            weapon: GunCollection { guns },
            health: Health(FX_ONE, FX_ONE),
            hitbox: HitBox { rect: Vec2 { x: 50 * FX_ONE, y: 50 * FX_ONE } },
            entrance: None,
            circle: None,
        }
    }
}

/// Whether two enemies agree on everything but their AI state.
pub open spec fn spec_same_but_state(e1: EnemyBundle, e0: EnemyBundle) -> bool {
    &&& e1.transform == e0.transform
    &&& e1.speed == e0.speed
    &&& e1.weapon == e0.weapon
    &&& e1.health == e0.health
    &&& e1.hitbox == e0.hitbox
    &&& e1.entrance == e0.entrance
    &&& e1.circle == e0.circle
}

/// One tick of the time-in-state accumulator: it grows by `dt`
/// unconditionally, whatever the movement phase.
pub open spec fn spec_enemy_ticked(e1: EnemyBundle, e0: EnemyBundle, dt: int) -> bool {
    &&& spec_same_but_state(e1, e0)
    &&& e1.state.movement == e0.state.movement
    &&& e1.state.state_step == sat_add(e0.state.state_step as int, dt)
}

/// Advances every enemy's time-in-state accumulator by `dt` seconds.
pub fn enemy_update(enemies: &mut Vec<EnemyBundle>, dt: i64)
    ensures
        final(enemies).len() == old(enemies).len(),
        forall|j: int|
            0 <= j < old(enemies).len() ==> spec_enemy_ticked(
                #[trigger] final(enemies)@[j],
                old(enemies)@[j],
                dt as int,
            ),
{
    let n = enemies.len();
    let mut i: usize = 0;
    while i < n
        invariant
            i <= n,
            n == enemies.len(),
            n == old(enemies).len(),
            forall|j: int|
                0 <= j < i ==> spec_enemy_ticked(
                    #[trigger] enemies@[j],
                    old(enemies)@[j],
                    dt as int,
                ),
            forall|j: int| i <= j < n ==> enemies@[j] == old(enemies)@[j],
        decreases n - i,
    {
        let ss = enemies[i].state.state_step;
        let next = sat_add64(ss, dt);
        let e = &mut enemies[i];
        e.state.state_step = next;
        i = i + 1;
    }
}

/// One axis of the clamped step towards a target: the position moves by at
/// most `max_d` towards `dst` and never overshoots it; with the position
/// already at the target it stays there.
pub open spec fn spec_step_toward(cur: int, dst: int, max_d: int) -> int {
    let dx = cur - dst;
    if dx == 0 {
        cur
    } else if dx > 0 {
        let m = sat_sub(cur, max_d);
        if m < dst {
            dst
        } else {
            m
        }
    } else {
        let m = sat_add(cur, max_d);
        if m > dst {
            dst
        } else {
            m
        }
    }
}

/// Clamped step towards a target, executable form.
pub fn step_toward64(cur: i64, dst: i64, max_d: i64) -> (r: i64)
    ensures
        r == spec_step_toward(cur as int, dst as int, max_d as int),
{
    if cur == dst {
        cur
    } else if cur > dst {
        let m = sat_sub64(cur, max_d);
        if m < dst {
            dst
        } else {
            m
        }
    } else {
        let m = sat_add64(cur, max_d);
        if m > dst {
            dst
        } else {
            m
        }
    }
}

/// Where an entering enemy is steered on each axis this frame: the product
/// of axis speed and time-in-state is both the angle along the path (read
/// as fixed-point degrees) and the distance budget of the step.
pub open spec fn spec_entrance_moved_translation(e: EnemyBundle, circle: AICircle) -> Vec2 {
    let angle_x = fx_mul(e.speed.0 as int, e.state.state_step as int);
    let angle_y = fx_mul(e.speed.1 as int, e.state.state_step as int);
    let x_dst = sat_add(fx_mul(circle.x_radius as int, fx_cos(angle_x)), circle.x_origin as int);
    let y_dst = sat_add(fx_mul(circle.y_radius as int, fx_sin(angle_y)), circle.y_origin as int);
    Vec2 {
        x: spec_step_toward(e.transform.translation.x as int, x_dst, angle_x) as i64,
        y: spec_step_toward(e.transform.translation.y as int, y_dst, angle_y) as i64,
    }
}

/// An enemy after one entrance-path frame: only an entering enemy with both
/// an entrance and a circle descriptor moves, and only its position
/// changes.
pub open spec fn spec_entrance_moved(e1: EnemyBundle, e0: EnemyBundle) -> bool {
    &&& e1.speed == e0.speed
    &&& e1.state == e0.state
    &&& e1.weapon == e0.weapon
    &&& e1.health == e0.health
    &&& e1.hitbox == e0.hitbox
    &&& e1.entrance == e0.entrance
    &&& e1.circle == e0.circle
    &&& match (e0.entrance, e0.circle) {
        (Some(_), Some(circle)) => {
            if e0.state.movement == AIMoveStates::Entering {
                e1.transform.translation == spec_entrance_moved_translation(e0, circle)
            } else {
                e1.transform == e0.transform
            }
        },
        _ => e1.transform == e0.transform,
    }
}

/// Steers every entering enemy that carries an entrance and a circle
/// descriptor one clamped step along its parametric path; hovering enemies
/// and enemies without a path stay put.
pub fn enemy_entrance_circle_movement(enemies: &mut Vec<EnemyBundle>)
    ensures
        final(enemies).len() == old(enemies).len(),
        forall|j: int|
            0 <= j < old(enemies).len() ==> spec_entrance_moved(
                #[trigger] final(enemies)@[j],
                old(enemies)@[j],
            ),
{
    let n = enemies.len();
    let mut i: usize = 0;
    while i < n
        invariant
            i <= n,
            n == enemies.len(),
            n == old(enemies).len(),
            forall|j: int|
                0 <= j < i ==> spec_entrance_moved(#[trigger] enemies@[j], old(enemies)@[j]),
            forall|j: int| i <= j < n ==> enemies@[j] == old(enemies)@[j],
        decreases n - i,
    {
        let has_path = enemies[i].entrance.is_some() && enemies[i].circle.is_some();
        let entering = enemies[i].state.movement == AIMoveStates::Entering;
        if has_path && entering {
            let circle = match enemies[i].circle {
                Some(c) => c,
                None => AICircle { x_origin: 0, y_origin: 0, x_radius: 0, y_radius: 0 },
            };
            let speed = enemies[i].speed;
            let ss = enemies[i].state.state_step;
            let cur = enemies[i].transform.translation;

            let angle_x = fx_mul64(speed.0, ss);
            let angle_y = fx_mul64(speed.1, ss);
            let x_dst = sat_add64(fx_mul64(circle.x_radius, fx_cos64(angle_x)), circle.x_origin);
            let y_dst = sat_add64(fx_mul64(circle.y_radius, fx_sin64(angle_y)), circle.y_origin);
            let nx = step_toward64(cur.x, x_dst, angle_x);
            let ny = step_toward64(cur.y, y_dst, angle_y);

            let e = &mut enemies[i];
            e.transform.translation.x = nx;
            e.transform.translation.y = ny;
        }
        i = i + 1;
    }
}

/// Whether an enemy equals another up to a firing pass of its guns.
pub open spec fn spec_enemy_shot(e1: EnemyBundle, e0: EnemyBundle) -> bool {
    &&& e1.transform == e0.transform
    &&& e1.speed == e0.speed
    &&& e1.state == e0.state
    &&& e1.health == e0.health
    &&& e1.hitbox == e0.hitbox
    &&& e1.entrance == e0.entrance
    &&& e1.circle == e0.circle
    &&& e1.weapon.guns@ == spec_shot_guns(e0.weapon.guns@, e0.transform)
}

/// The projectiles one firing pass over a column of enemies spawns, in
/// enemy order.
pub open spec fn spec_enemies_fired(enemies: Seq<EnemyBundle>) -> Seq<LaserEntity>
    decreases enemies.len(),
{
    if enemies.len() == 0 {
        Seq::empty()
    } else {
        spec_enemies_fired(enemies.drop_last()) + spec_fired_lasers(
            enemies.last().weapon.guns@,
            enemies.last().transform,
            false,
        )
    }
}

/// Fires every ready gun of every enemy, appending the spawned projectiles
/// — tagged as enemy fire — to the world's projectile list.
pub fn enemy_shoot(enemies: &mut Vec<EnemyBundle>, lasers: &mut Vec<LaserEntity>)
    ensures
        final(enemies).len() == old(enemies).len(),
        forall|j: int|
            0 <= j < old(enemies).len() ==> spec_enemy_shot(
                #[trigger] final(enemies)@[j],
                old(enemies)@[j],
            ),
        final(lasers)@ == old(lasers)@ + spec_enemies_fired(old(enemies)@),
{
    let n = enemies.len();
    let mut i: usize = 0;
    while i < n
        invariant
            i <= n,
            n == enemies.len(),
            n == old(enemies).len(),
            forall|j: int|
                0 <= j < i ==> spec_enemy_shot(#[trigger] enemies@[j], old(enemies)@[j]),
            forall|j: int| i <= j < n ==> enemies@[j] == old(enemies)@[j],
            lasers@ == old(lasers)@ + spec_enemies_fired(old(enemies)@.take(i as int)),
        decreases n - i,
    {
        proof {
            assert(old(enemies)@.take(i as int + 1).drop_last() =~= old(enemies)@.take(i as int));
            assert(old(enemies)@.take(i as int + 1).last() == old(enemies)@[i as int]);
        }
        let owner = enemies[i].transform;
        let e = &mut enemies[i];
        shoot_guns(&mut e.weapon, &owner, false, lasers);
        i = i + 1;
    }
    proof {
        assert(old(enemies)@.take(n as int) =~= old(enemies)@);
    }
}

} // verus!
