//! The weapon model: guns with countdown-gated firing and collections of
//! guns, and the cooldown system that advances them each frame.

use vstd::prelude::*;

use crate::fx::{sat_add, sat_add64, sat_sub, FX_ONE};
use crate::laser_systems::{Damage, FromEnemy, FromPlayer, Laser, LaserBundle, LaserEntity};
use crate::util::{Speed, Transform, Vec2};

verus! {

/// A gun's firing timer: current countdown, then the value it resets to on
/// firing, in fixed-point seconds.
#[derive(Clone, Copy, PartialEq, Eq, Structural, Debug)]
pub struct GunCooldown(pub i64, pub i64);

impl Default for GunCooldown {
    /// One second between shots, starting cold.
    fn default() -> (r: Self)
        ensures
            r == (GunCooldown(FX_ONE, FX_ONE)),
    {
        GunCooldown(FX_ONE, FX_ONE)
    }
}

/// A weapon: damage per projectile, its cooldown, the firing offset from
/// the owner's position, and the initial velocity given to its projectiles.
#[derive(Clone, Copy, PartialEq, Eq, Structural, Debug)]
pub struct Gun {
    pub damage: i64,
    pub cooldown: GunCooldown,
    pub offset: Vec2,
    pub initial_speed: Speed,
}

/// The default gun: unit damage, one-second cooldown, no offset, and the
/// default projectile velocity of 500 pixels per second straight up.
pub open spec fn spec_default_gun() -> Gun {
    Gun {
        damage: FX_ONE,
        cooldown: GunCooldown(FX_ONE, FX_ONE),
        offset: Vec2 { x: 0, y: 0 },
        initial_speed: Speed(0, (500 * FX_ONE) as i64),
    }
}

impl Default for Gun {
    fn default() -> (r: Self)
        ensures
            r == spec_default_gun(),
    {
        Gun {
            damage: FX_ONE,
            cooldown: GunCooldown(FX_ONE, FX_ONE),
            offset: Vec2 { x: 0, y: 0 },
            initial_speed: Speed(0, (500 * FX_ONE) as i64),
        }
    }
}

impl Gun {
    /// A gun is well formed when its countdown sits between zero and its
    /// reset value.
    pub open spec fn wf(self) -> bool {
        0 <= self.cooldown.0 <= self.cooldown.1
    }

    /// Fires if and only if the countdown has reached zero: the countdown
    /// snaps back to its reset value and the spawned projectile starts at
    /// the owner's position plus the gun's offset, carrying the gun's
    /// damage and initial velocity. A warm gun is left untouched.
    pub fn try_fire(&mut self, owner: &Transform) -> (r: Option<LaserBundle>)
        ensures
            old(self).cooldown.0 == 0 ==> {
                &&& r == Some(spec_fired_laser(*old(self), *owner))
                &&& *final(self) == spec_reset_gun(*old(self))
            },
            old(self).cooldown.0 != 0 ==> {
                &&& r is None
                &&& *final(self) == *old(self)
            },
    {
        if self.cooldown.0 == 0 {
            let x = sat_add64(owner.translation.x, self.offset.x);
            let y = sat_add64(owner.translation.y, self.offset.y);
            let bundle = LaserBundle {
                damage: Damage(self.damage, self.damage),
                speed: self.initial_speed,
                laser: Laser,
                transform: Transform { translation: Vec2 { x, y } },
            };
            self.cooldown.0 = self.cooldown.1;
            Some(bundle)
        } else {
            None
        }
    }
}

/// The projectile a gun spawns when it fires from `owner`.
pub open spec fn spec_fired_laser(g: Gun, owner: Transform) -> LaserBundle {
    LaserBundle {
        damage: Damage(g.damage, g.damage),
        speed: g.initial_speed,
        laser: Laser,
        transform: Transform {
            translation: Vec2 {
                x: sat_add(owner.translation.x as int, g.offset.x as int) as i64,
                y: sat_add(owner.translation.y as int, g.offset.y as int) as i64,
            },
        },
    }
}

/// A gun right after firing: the countdown back at its reset value.
pub open spec fn spec_reset_gun(g: Gun) -> Gun {
    Gun { cooldown: GunCooldown(g.cooldown.1, g.cooldown.1), ..g }
}

/// A countdown advanced by `dt`: a warm gun counts down and stops at zero;
/// a gun at or below zero is left as it is.
pub open spec fn spec_cooled(cur: int, dt: int) -> int {
    if cur > 0 {
        let n = sat_sub(cur, dt);
        if n < 0 {
            0
        } else {
            n
        }
    } else {
        cur
    }
}

/// A gun with its countdown advanced by `dt`.
pub open spec fn spec_cooled_gun(g: Gun, dt: int) -> Gun {
    Gun {
        cooldown: GunCooldown(spec_cooled(g.cooldown.0 as int, dt) as i64, g.cooldown.1),
        ..g
    }
}

/// Advances one gun's countdown by `dt` seconds, flooring it at zero.
pub fn update_cooldown(gun: &mut Gun, dt: i64)
    ensures
        *final(gun) == spec_cooled_gun(*old(gun), dt as int),
{
    if gun.cooldown.0 > 0 {
        let n = crate::fx::sat_sub64(gun.cooldown.0, dt);
        gun.cooldown.0 = if n < 0 {
            0
        } else {
            n
        };
    }
}

/// An ordered collection of guns owned by one actor.
#[derive(Clone, PartialEq, Eq, Debug)]
pub struct GunCollection {
    pub guns: Vec<Gun>,
}

impl Default for GunCollection {
    /// A single default gun.
    fn default() -> (r: Self)
        ensures
            r.guns@ == seq![spec_default_gun()],
    {
        let guns = vec![Gun::default()];
        GunCollection { guns }
    }
}

/// A gun collection with every countdown advanced by `dt`.
pub open spec fn spec_cooled_guns(guns: Seq<Gun>, dt: int) -> Seq<Gun> {
    guns.map_values(|g: Gun| spec_cooled_gun(g, dt))
}

/// Advances every countdown in a collection by `dt` seconds.
pub fn update_cooldowns(collection: &mut GunCollection, dt: i64)
    ensures
        final(collection).guns@ == spec_cooled_guns(old(collection).guns@, dt as int),
{
    let n = collection.guns.len();
    let mut i: usize = 0;
    while i < n
        invariant
            i <= n,
            n == collection.guns.len(),
            n == old(collection).guns.len(),
            forall|j: int|
                0 <= j < i ==> collection.guns@[j] == spec_cooled_gun(
                    old(collection).guns@[j],
                    dt as int,
                ),
            forall|j: int| i <= j < n ==> collection.guns@[j] == old(collection).guns@[j],
        decreases n - i,
    {
        let gun = &mut collection.guns[i];
        update_cooldown(gun, dt);
        i = i + 1;
    }
    proof {
        assert(final(collection).guns@ =~= spec_cooled_guns(
            old(collection).guns@,
            dt as int,
        ));
    }
}

/// A gun collection after a firing pass: every ready gun has fired and
/// reset, the rest are untouched.
pub open spec fn spec_shot_guns(guns: Seq<Gun>, owner: Transform) -> Seq<Gun> {
    guns.map_values(
        |g: Gun|
            if g.cooldown.0 == 0 {
                spec_reset_gun(g)
            } else {
                g
            },
    )
}

/// Wraps a spawned projectile bundle with the origin tag of its shooter.
pub open spec fn spec_tagged_laser(bundle: LaserBundle, player_made: bool) -> LaserEntity {
    LaserEntity {
        bundle,
        from_player: if player_made {
            Some(FromPlayer)
        } else {
            None
        },
        from_enemy: if player_made {
            None
        } else {
            Some(FromEnemy)
        },
    }
}

/// The projectiles a firing pass spawns: one per ready gun, in gun order.
pub open spec fn spec_fired_lasers(guns: Seq<Gun>, owner: Transform, player_made: bool) -> Seq<
    LaserEntity,
>
    decreases guns.len(),
{
    if guns.len() == 0 {
        Seq::empty()
    } else {
        let prefix = spec_fired_lasers(guns.drop_last(), owner, player_made);
        if guns.last().cooldown.0 == 0 {
            prefix.push(spec_tagged_laser(spec_fired_laser(guns.last(), owner), player_made))
        } else {
            prefix
        }
    }
}

/// Fires every ready gun of a collection from `owner`, appending the
/// spawned projectiles — tagged with their shooter's side — to the world's
/// projectile list.
pub fn shoot_guns(
    collection: &mut GunCollection,
    owner: &Transform,
    player_made: bool,
    lasers: &mut Vec<LaserEntity>,
)
    ensures
        final(collection).guns@ == spec_shot_guns(old(collection).guns@, *owner),
        final(lasers)@ == old(lasers)@ + spec_fired_lasers(
            old(collection).guns@,
            *owner,
            player_made,
        ),
{
    let n = collection.guns.len();
    let mut i: usize = 0;
    while i < n
        invariant
            i <= n,
            n == collection.guns.len(),
            n == old(collection).guns.len(),
            forall|j: int|
                0 <= j < i ==> collection.guns@[j] == spec_shot_guns(
                    old(collection).guns@,
                    *owner,
                )[j],
            forall|j: int| i <= j < n ==> collection.guns@[j] == old(collection).guns@[j],
            lasers@ == old(lasers)@ + spec_fired_lasers(
                old(collection).guns@.take(i as int),
                *owner,
                player_made,
            ),
        decreases n - i,
    {
        proof {
            assert(old(collection).guns@.take(i as int + 1).drop_last() =~= old(
                collection,
            ).guns@.take(i as int));
            assert(old(collection).guns@.take(i as int + 1).last() == old(
                collection,
            ).guns@[i as int]);
        }
        let gun = &mut collection.guns[i];
        let fired = gun.try_fire(owner);
        match fired {
            Some(bundle) => {
                let entity = if player_made {
                    LaserEntity { bundle, from_player: Some(FromPlayer), from_enemy: None }
                } else {
                    LaserEntity { bundle, from_player: None, from_enemy: Some(FromEnemy) }
                };
                lasers.push(entity);
            },
            None => {},
        }
        i = i + 1;
    }
    proof {
        assert(old(collection).guns@.take(n as int) =~= old(collection).guns@);
        assert(final(collection).guns@ =~= spec_shot_guns(old(collection).guns@, *owner));
    }
}

/// Whether an enemy equals another up to a cooldown pass of its guns.
pub open spec fn spec_enemy_cooled(
    e1: crate::enemy_systems::EnemyBundle,
    e0: crate::enemy_systems::EnemyBundle,
    dt: int,
) -> bool {
    &&& e1.transform == e0.transform
    &&& e1.speed == e0.speed
    &&& e1.state == e0.state
    &&& e1.health == e0.health
    &&& e1.hitbox == e0.hitbox
    &&& e1.entrance == e0.entrance
    &&& e1.circle == e0.circle
    &&& e1.weapon.guns@ == spec_cooled_guns(e0.weapon.guns@, dt)
}

/// Advances every gun countdown in the world — the player's collection and
/// every enemy's — by `dt` seconds.
pub fn gun_cooldown(
    player: &mut Option<crate::player_systems::PlayerBundle>,
    enemies: &mut Vec<crate::enemy_systems::EnemyBundle>,
    dt: i64,
)
    ensures
        match *old(player) {
            Some(p) => {
                &&& *final(player) matches Some(q)
                &&& {
                    let q = final(player)->Some_0;
                    &&& q.weapon.guns@ == spec_cooled_guns(p.weapon.guns@, dt as int)
                    &&& q.transform == p.transform
                    &&& q.player_speed == p.player_speed
                    &&& q.player_state == p.player_state
                    &&& q.health == p.health
                }
            },
            None => *final(player) is None,
        },
        final(enemies).len() == old(enemies).len(),
        forall|j: int|
            0 <= j < old(enemies).len() ==> spec_enemy_cooled(
                #[trigger] final(enemies)@[j],
                old(enemies)@[j],
                dt as int,
            ),
{
    match player.as_mut() {
        Some(p) => {
            update_cooldowns(&mut p.weapon, dt);
        },
        None => {},
    }
    let n = enemies.len();
    let mut i: usize = 0;
    while i < n
        invariant
            i <= n,
            n == enemies.len(),
            n == old(enemies).len(),
            forall|j: int|
                0 <= j < i ==> spec_enemy_cooled(
                    #[trigger] enemies@[j],
                    old(enemies)@[j],
                    dt as int,
                ),
            forall|j: int| i <= j < n ==> enemies@[j] == old(enemies)@[j],
        decreases n - i,
    {
        let e = &mut enemies[i];
        update_cooldowns(&mut e.weapon, dt);
        i = i + 1;
    }
}

/// Law: for any non-negative `dt`, advancing a well-formed gun's cooldown
/// never drives it below zero nor above its reset value, and a gun already
/// at zero stays ready.
pub proof fn lemma_cooldown_never_negative(g: Gun, dt: int)
    requires
        g.wf(),
        dt >= 0,
    ensures
        spec_cooled_gun(g, dt).wf(),
        0 <= spec_cooled_gun(g, dt).cooldown.0 <= g.cooldown.1,
        g.cooldown.0 == 0 ==> spec_cooled_gun(g, dt).cooldown.0 == 0,
{
}

/// Whether every gun of a collection is well formed.
pub open spec fn spec_guns_wf(guns: Seq<Gun>) -> bool {
    forall|i: int| 0 <= i < guns.len() ==> (#[trigger] guns[i]).wf()
}

/// Law: a firing pass keeps every gun well formed — a gun that fires comes
/// back with its countdown at its reset value, inside its bound.
pub proof fn lemma_shot_guns_wf(guns: Seq<Gun>, owner: Transform)
    requires
        spec_guns_wf(guns),
    ensures
        spec_guns_wf(spec_shot_guns(guns, owner)),
{
    let shot = spec_shot_guns(guns, owner);
    assert forall|i: int| 0 <= i < shot.len() implies (#[trigger] shot[i]).wf() by {
        assert(guns[i].wf());
    }
}

/// Law: a cooldown pass over any non-negative `dt` keeps every gun well
/// formed.
pub proof fn lemma_cooled_guns_wf(guns: Seq<Gun>, dt: int)
    requires
        spec_guns_wf(guns),
        dt >= 0,
    ensures
        spec_guns_wf(spec_cooled_guns(guns, dt)),
{
    let cooled = spec_cooled_guns(guns, dt);
    assert forall|i: int| 0 <= i < cooled.len() implies (#[trigger] cooled[i]).wf() by {
        lemma_cooldown_never_negative(guns[i], dt);
    }
}

} // verus!
