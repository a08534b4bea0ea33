//! Projectiles: the laser components, their movement, their removal at the
//! vertical window bounds, and the hit test against enemies.

use vstd::prelude::*;

use crate::fx::{fx_mul, fx_mul64, sat_add, sat_add64, sat_sub64};
use crate::util::{HitBox, Speed, Transform, Vec2, WinSize};

verus! {

/// Marker component of a projectile entity.
#[derive(Clone, Copy, PartialEq, Eq, Structural, Debug)]
pub struct Laser;

/// Tag of a projectile fired by the player; only these damage enemies.
#[derive(Clone, Copy, PartialEq, Eq, Structural, Debug)]
pub struct FromPlayer;

/// Tag of a projectile fired by an enemy.
#[derive(Clone, Copy, PartialEq, Eq, Structural, Debug)]
pub struct FromEnemy;

/// Damage carried by a projectile: the amount applied on a hit, then a
/// reserve slot kept for symmetry with the health pool.
#[derive(Clone, Copy, PartialEq, Eq, Structural, Debug)]
pub struct Damage(pub i64, pub i64);

/// The components a projectile is spawned with.
#[derive(Clone, Copy, PartialEq, Eq, Structural, Debug)]
pub struct LaserBundle {
    pub damage: Damage,
    pub speed: Speed,
    pub laser: Laser,
    pub transform: Transform,
}

impl Default for LaserBundle {
    /// A unit-damage projectile moving straight up at 500 pixels per
    /// second, at the origin.
    fn default() -> (r: Self)
        ensures
            r == spec_default_laser(),
    {
        LaserBundle {
            damage: Damage(crate::fx::FX_ONE, crate::fx::FX_ONE),
            speed: Speed(0, (500 * crate::fx::FX_ONE) as i64),
            laser: Laser,
            transform: Transform { translation: crate::util::Vec2 { x: 0, y: 0 } },
        }
    }
}

/// The default projectile bundle.
pub open spec fn spec_default_laser() -> LaserBundle {
    LaserBundle {
        damage: Damage(crate::fx::FX_ONE, crate::fx::FX_ONE),
        speed: Speed(0, (500 * crate::fx::FX_ONE) as i64),
        laser: Laser,
        transform: Transform { translation: crate::util::Vec2 { x: 0, y: 0 } },
    }
}

/// A live projectile in the world: its bundle and its origin tags, exactly
/// as the entity store carries them.
#[derive(Clone, Copy, PartialEq, Eq, Structural, Debug)]
pub struct LaserEntity {
    pub bundle: LaserBundle,
    pub from_player: Option<FromPlayer>,
    pub from_enemy: Option<FromEnemy>,
}

/// A projectile advanced by `dt` seconds: its position moves by its
/// velocity times `dt` on each axis.
pub open spec fn spec_moved_laser(l: LaserEntity, dt: int) -> LaserEntity {
    LaserEntity {
        bundle: LaserBundle {
            transform: Transform {
                translation: Vec2 {
                    x: sat_add(
                        l.bundle.transform.translation.x as int,
                        fx_mul(l.bundle.speed.0 as int, dt),
                    ) as i64,
                    y: sat_add(
                        l.bundle.transform.translation.y as int,
                        fx_mul(l.bundle.speed.1 as int, dt),
                    ) as i64,
                },
            },
            ..l.bundle
        },
        ..l
    }
}

/// Advances every live projectile by `dt` seconds.
pub fn laser_movement(lasers: &mut Vec<LaserEntity>, dt: i64)
    ensures
        final(lasers)@ == old(lasers)@.map_values(|l: LaserEntity| spec_moved_laser(l, dt as int)),
{
    let n = lasers.len();
    let mut i: usize = 0;
    while i < n
        invariant
            i <= n,
            n == lasers.len(),
            n == old(lasers).len(),
            forall|j: int|
                0 <= j < i ==> lasers@[j] == spec_moved_laser(old(lasers)@[j], dt as int),
            forall|j: int| i <= j < n ==> lasers@[j] == old(lasers)@[j],
        decreases n - i,
    {
        let x = lasers[i].bundle.transform.translation.x;
        let y = lasers[i].bundle.transform.translation.y;
        let sx = lasers[i].bundle.speed.0;
        let sy = lasers[i].bundle.speed.1;
        let nx = sat_add64(x, fx_mul64(sx, dt));
        let ny = sat_add64(y, fx_mul64(sy, dt));
        let l = &mut lasers[i];
        l.bundle.transform.translation.x = nx;
        l.bundle.transform.translation.y = ny;
        i = i + 1;
    }
    proof {
        assert(final(lasers)@ =~= old(lasers)@.map_values(
            |l: LaserEntity| spec_moved_laser(l, dt as int),
        ));
    }
}

/// Whether a projectile is still inside the vertical window bounds
/// `[0, h]`; both bounds are checked, boundary positions are kept.
pub open spec fn spec_on_screen(l: LaserEntity, h: int) -> bool {
    0 <= l.bundle.transform.translation.y <= h
}

/// The projectiles that survive a reap pass against window height `h`, in
/// their original order.
pub open spec fn spec_reaped(lasers: Seq<LaserEntity>, h: int) -> Seq<LaserEntity>
    decreases lasers.len(),
{
    if lasers.len() == 0 {
        Seq::empty()
    } else {
        let prefix = spec_reaped(lasers.drop_last(), h);
        if spec_on_screen(lasers.last(), h) {
            prefix.push(lasers.last())
        } else {
            prefix
        }
    }
}

/// Destroys every projectile whose vertical position has left `[0, h]`,
/// where `h` is the window height.
pub fn laser_disappear(lasers: &mut Vec<LaserEntity>, win_size: &WinSize)
    ensures
        final(lasers)@ == spec_reaped(old(lasers)@, win_size.h as int),
{
    let h = win_size.h;
    let n = lasers.len();
    let mut out: Vec<LaserEntity> = Vec::new();
    let mut i: usize = 0;
    while i < n
        invariant
            i <= n,
            n == lasers.len(),
            lasers@ == old(lasers)@,
            out@ == spec_reaped(lasers@.take(i as int), h as int),
        decreases n - i,
    {
        let keep = 0 <= lasers[i].bundle.transform.translation.y
            && lasers[i].bundle.transform.translation.y <= h;
        proof {
            assert(lasers@.take(i as int + 1).drop_last() =~= lasers@.take(i as int));
            assert(lasers@.take(i as int + 1).last() == lasers@[i as int]);
        }
        if keep {
            let l = lasers[i];
            out.push(l);
        }
        i = i + 1;
    }
    proof {
        assert(lasers@.take(n as int) =~= lasers@);
    }
    *lasers = out;
}

/// Whether a player projectile strikes the hitbox anchored at `origin`:
/// only player-tagged projectiles hit, and only strictly inside the box.
pub open spec fn spec_hits_at(hitbox: HitBox, origin: Vec2, l: LaserEntity) -> bool {
    &&& l.from_player is Some
    &&& hitbox.spec_contains(origin, l.bundle.transform.translation)
}

/// Whether a player projectile strikes an enemy.
pub open spec fn spec_hits(e: crate::enemy_systems::EnemyBundle, l: LaserEntity) -> bool {
    spec_hits_at(e.hitbox, e.transform.translation, l)
}

/// A health value after one hit pass: every striking projectile's damage
/// is subtracted in projectile order.
pub open spec fn spec_health_after_hits(
    h: int,
    hitbox: HitBox,
    origin: Vec2,
    lasers: Seq<LaserEntity>,
) -> int
    decreases lasers.len(),
{
    if lasers.len() == 0 {
        h
    } else {
        let prev = spec_health_after_hits(h, hitbox, origin, lasers.drop_last());
        if spec_hits_at(hitbox, origin, lasers.last()) {
            crate::fx::sat_sub(prev, lasers.last().bundle.damage.0 as int)
        } else {
            prev
        }
    }
}

/// Whether some enemy of the column is struck by this projectile.
pub open spec fn spec_struck(
    enemies: Seq<crate::enemy_systems::EnemyBundle>,
    l: LaserEntity,
) -> bool {
    exists|k: int| 0 <= k < enemies.len() && spec_hits(#[trigger] enemies[k], l)
}

/// The health left after running every projectile of the pass against one
/// hitbox.
fn hit_damage(
    health: i64,
    hitbox: &HitBox,
    origin: &Vec2,
    lasers: &Vec<LaserEntity>,
) -> (r: i64)
    ensures
        r == spec_health_after_hits(health as int, *hitbox, *origin, lasers@),
{
    let n = lasers.len();
    let mut h = health;
    let mut j: usize = 0;
    while j < n
        invariant
            j <= n,
            n == lasers.len(),
            h == spec_health_after_hits(health as int, *hitbox, *origin, lasers@.take(j as int)),
        decreases n - j,
    {
        proof {
            assert(lasers@.take(j as int + 1).drop_last() =~= lasers@.take(j as int));
            assert(lasers@.take(j as int + 1).last() == lasers@[j as int]);
        }
        if lasers[j].from_player.is_some() {
            let point = lasers[j].bundle.transform.translation;
            if hitbox.contains(origin, &point) {
                h = sat_sub64(h, lasers[j].bundle.damage.0);
            }
        }
        j = j + 1;
    }
    proof {
        assert(lasers@.take(n as int) =~= lasers@);
    }
    h
}

/// Whether any enemy of the column is struck by this projectile.
fn struck_any(enemies: &Vec<crate::enemy_systems::EnemyBundle>, l: &LaserEntity) -> (r: bool)
    ensures
        r == spec_struck(enemies@, *l),
{
    if l.from_player.is_none() {
        proof {
            assert forall|k: int| 0 <= k < enemies@.len() implies !spec_hits(
                #[trigger] enemies@[k],
                *l,
            ) by {}
        }
        return false;
    }
    let point = l.bundle.transform.translation;
    let n = enemies.len();
    let mut k: usize = 0;
    while k < n
        invariant
            k <= n,
            n == enemies.len(),
            l.from_player is Some,
            point == l.bundle.transform.translation,
            forall|m: int| 0 <= m < k ==> !spec_hits(#[trigger] enemies@[m], *l),
        decreases n - k,
    {
        let hit = enemies[k].hitbox.contains(&enemies[k].transform.translation, &point);
        if hit {
            proof {
                assert(spec_hits(enemies@[k as int], *l));
            }
            return true;
        }
        k = k + 1;
    }
    false
}

/// Law: whether a projectile strikes some enemy of a column depends only
/// on the enemies' hitboxes and positions, not on their health or guns.
pub proof fn lemma_struck_ignores_health(
    e1: Seq<crate::enemy_systems::EnemyBundle>,
    e0: Seq<crate::enemy_systems::EnemyBundle>,
    l: LaserEntity,
)
    requires
        e1.len() == e0.len(),
        forall|k: int|
            0 <= k < e0.len() ==> (#[trigger] e1[k]).hitbox == e0[k].hitbox && e1[k].transform
                == e0[k].transform,
    ensures
        spec_struck(e1, l) == spec_struck(e0, l),
{
    if spec_struck(e1, l) {
        let k = choose|k: int| 0 <= k < e1.len() && spec_hits(#[trigger] e1[k], l);
        assert(spec_hits(e0[k], l));
    }
    if spec_struck(e0, l) {
        let k = choose|k: int| 0 <= k < e0.len() && spec_hits(#[trigger] e0[k], l);
        assert(spec_hits(e1[k], l));
    }
}

/// The projectiles that survive a hit pass: every striking player
/// projectile is destroyed, the rest keep their order.
pub open spec fn spec_surviving(
    lasers: Seq<LaserEntity>,
    enemies: Seq<crate::enemy_systems::EnemyBundle>,
) -> Seq<LaserEntity>
    decreases lasers.len(),
{
    if lasers.len() == 0 {
        Seq::empty()
    } else {
        let prefix = spec_surviving(lasers.drop_last(), enemies);
        if spec_struck(enemies, lasers.last()) {
            prefix
        } else {
            prefix.push(lasers.last())
        }
    }
}

/// Resolves player fire against the enemy column: each enemy loses the
/// damage of every player projectile inside its hitbox, in projectile
/// order, and every projectile that struck an enemy is destroyed. Removal
/// is deferred to the end of the pass, so one projectile can damage
/// several overlapping enemies in the same frame.
pub fn laser_hit(
    enemies: &mut Vec<crate::enemy_systems::EnemyBundle>,
    lasers: &mut Vec<LaserEntity>,
)
    ensures
        final(enemies).len() == old(enemies).len(),
        forall|j: int|
            0 <= j < old(enemies).len() ==> {
                &&& (#[trigger] final(enemies)@[j]).transform == old(enemies)@[j].transform
                &&& final(enemies)@[j].speed == old(enemies)@[j].speed
                &&& final(enemies)@[j].state == old(enemies)@[j].state
                &&& final(enemies)@[j].weapon == old(enemies)@[j].weapon
                &&& final(enemies)@[j].hitbox == old(enemies)@[j].hitbox
                &&& final(enemies)@[j].entrance == old(enemies)@[j].entrance
                &&& final(enemies)@[j].circle == old(enemies)@[j].circle
                &&& final(enemies)@[j].health.1 == old(enemies)@[j].health.1
                &&& final(enemies)@[j].health.0 == spec_health_after_hits(
                    old(enemies)@[j].health.0 as int,
                    old(enemies)@[j].hitbox,
                    old(enemies)@[j].transform.translation,
                    old(lasers)@,
                )
            },
        final(lasers)@ == spec_surviving(old(lasers)@, old(enemies)@),
{
    let n_e = enemies.len();

    let mut i: usize = 0;
    while i < n_e
        invariant
            i <= n_e,
            n_e == enemies.len(),
            n_e == old(enemies).len(),
            lasers@ == old(lasers)@,
            forall|j: int|
                0 <= j < i ==> {
                    &&& (#[trigger] enemies@[j]).transform == old(enemies)@[j].transform
                    &&& enemies@[j].speed == old(enemies)@[j].speed
                    &&& enemies@[j].state == old(enemies)@[j].state
                    &&& enemies@[j].weapon == old(enemies)@[j].weapon
                    &&& enemies@[j].hitbox == old(enemies)@[j].hitbox
                    &&& enemies@[j].entrance == old(enemies)@[j].entrance
                    &&& enemies@[j].circle == old(enemies)@[j].circle
                    &&& enemies@[j].health.1 == old(enemies)@[j].health.1
                    &&& enemies@[j].health.0 == spec_health_after_hits(
                        old(enemies)@[j].health.0 as int,
                        old(enemies)@[j].hitbox,
                        old(enemies)@[j].transform.translation,
                        old(lasers)@,
                    )
                },
            forall|j: int| i <= j < n_e ==> enemies@[j] == old(enemies)@[j],
        decreases n_e - i,
    {
        let hitbox = enemies[i].hitbox;
        let origin = enemies[i].transform.translation;
        let health = enemies[i].health.0;
        let new_health = hit_damage(health, &hitbox, &origin, lasers);
        let e = &mut enemies[i];
        e.health.0 = new_health;
        i = i + 1;
    }

    let ghost enemies0 = old(enemies)@;
    let n_l = lasers.len();
    let mut out: Vec<LaserEntity> = Vec::new();
    let mut j: usize = 0;
    while j < n_l
        invariant
            j <= n_l,
            n_l == lasers.len(),
            lasers@ == old(lasers)@,
            n_e == enemies.len(),
            n_e == enemies0.len(),
            forall|k: int|
                0 <= k < n_e ==> {
                    &&& (#[trigger] enemies@[k]).hitbox == enemies0[k].hitbox
                    &&& enemies@[k].transform == enemies0[k].transform
                },
            out@ == spec_surviving(old(lasers)@.take(j as int), enemies0),
        decreases n_l - j,
    {
        proof {
            assert(old(lasers)@.take(j as int + 1).drop_last() =~= old(lasers)@.take(j as int));
            assert(old(lasers)@.take(j as int + 1).last() == old(lasers)@[j as int]);
        }
        let l = lasers[j];
        let struck = struck_any(enemies, &l);
        proof {
            lemma_struck_ignores_health(enemies@, enemies0, l);
        }
        if !struck {
            out.push(l);
        }
        j = j + 1;
    }
    proof {
        assert(old(lasers)@.take(n_l as int) =~= old(lasers)@);
    }
    *lasers = out;
}

/// Law: a reap pass keeps exactly the projectiles inside the vertical
/// bounds — every survivor is on screen, and every projectile that was on
/// screen survives.
pub proof fn lemma_reap_keeps_exactly(lasers: Seq<LaserEntity>, h: int)
    ensures
        forall|i: int|
            0 <= i < spec_reaped(lasers, h).len() ==> spec_on_screen(
                #[trigger] spec_reaped(lasers, h)[i],
                h,
            ),
        forall|i: int|
            0 <= i < lasers.len() && spec_on_screen(#[trigger] lasers[i], h) ==> spec_reaped(
                lasers,
                h,
            ).contains(lasers[i]),
    decreases lasers.len(),
{
    if lasers.len() == 0 {
    } else {
        lemma_reap_keeps_exactly(lasers.drop_last(), h);
        let r = spec_reaped(lasers, h);
        let rp = spec_reaped(lasers.drop_last(), h);
        assert forall|i: int|
            0 <= i < lasers.len() && spec_on_screen(#[trigger] lasers[i], h) implies spec_reaped(
            lasers,
            h,
        ).contains(lasers[i]) by {
            if i < lasers.len() - 1 {
                assert(lasers.drop_last()[i] == lasers[i]);
                assert(rp.contains(lasers[i]));
                let k = choose|k: int| 0 <= k < rp.len() && rp[k] == lasers[i];
                if spec_on_screen(lasers.last(), h) {
                    assert(r == rp.push(lasers.last()));
                    assert(r[k] == lasers[i]);
                } else {
                    assert(r == rp);
                }
            } else {
                assert(lasers[i] == lasers.last());
                assert(r == rp.push(lasers.last()));
                assert(r[r.len() - 1] == lasers[i]);
            }
        }
    }
}

/// Law: reaping is idempotent — a second pass over the survivors removes
/// nothing.
pub proof fn lemma_reap_idempotent(lasers: Seq<LaserEntity>, h: int)
    ensures
        spec_reaped(spec_reaped(lasers, h), h) == spec_reaped(lasers, h),
    decreases lasers.len(),
{
    if lasers.len() == 0 {
        assert(spec_reaped(spec_reaped(lasers, h), h) =~= spec_reaped(lasers, h));
    } else {
        lemma_reap_idempotent(lasers.drop_last(), h);
        let rp = spec_reaped(lasers.drop_last(), h);
        if spec_on_screen(lasers.last(), h) {
            let r = rp.push(lasers.last());
            assert(r.drop_last() =~= rp);
            assert(r.last() == lasers.last());
            assert(spec_reaped(r, h) == spec_reaped(rp, h).push(lasers.last()));
        }
    }
}

} // verus!
