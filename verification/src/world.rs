//! The explicit entity store: one owned value holding every entity and
//! global counter of the simulation, stepped one frame at a time.
//!
//! Each system is a function over the component sets it reads and writes;
//! [`World::tick`] runs them in the canonical frame order — counters, the
//! player controller, the enemy controllers, weapon cooldowns, the
//! projectile subsystem, the health lifecycle, and last the spawn director.

use vstd::prelude::*;

use crate::enemy_systems::{enemy_entrance_circle_movement, enemy_shoot, enemy_update, EnemyBundle};
use crate::game_systems::{spec_distance_advanced, update_distance, GameState};
use crate::gun_systems::{
    gun_cooldown, lemma_cooled_guns_wf, lemma_shot_guns_wf, spec_guns_wf,
};
use crate::health_systems::{health_update, lemma_survivors_from};
use crate::laser_systems::{laser_disappear, laser_hit, laser_movement, LaserEntity};
use crate::map_systems::{enemy_spawn, MapState};
use crate::player_systems::{
    player_movement, player_shoot, player_spawn, player_state_update, PlayerBundle,
};
use crate::util::{InputState, WinSize};

verus! {

/// Everything the simulation owns: the window resource, the global
/// counters, the player slot, the enemy column and the live projectiles.
pub struct World {
    pub win_size: WinSize,
    pub game_state: GameState,
    pub map_state: MapState,
    pub player: Option<PlayerBundle>,
    pub enemies: Vec<EnemyBundle>,
    pub lasers: Vec<LaserEntity>,
}

impl World {
    /// Every gun in the world sits inside its cooldown bound.
    pub open spec fn wf(self) -> bool {
        &&& match self.player {
            Some(p) => spec_guns_wf(p.weapon.guns@),
            None => true,
        }
        &&& forall|j: int|
            0 <= j < self.enemies@.len() ==> spec_guns_wf(
                (#[trigger] self.enemies@[j]).weapon.guns@,
            )
    }

    /// A fresh simulation for a window of the given pixel dimensions: the
    /// distance counter at zero, no spawns yet, the player in place, and
    /// no enemies or projectiles.
    pub fn new(w: i64, h: i64) -> (r: World)
        requires
            0 <= w,
            0 <= h,
        ensures
            r.wf(),
            r.win_size.w == w,
            r.win_size.h == h,
            r.game_state.distance.0 == 0,
            r.game_state.distance.1 == 1000 * crate::fx::FX_ONE,
            r.map_state.last_spawn == 0,
            r.player is Some,
            r.enemies@.len() == 0,
            r.lasers@.len() == 0,
    {
        let win_size = WinSize::new(w, h);
        let player = player_spawn(&win_size);
        let world = World {
            win_size,
            game_state: GameState::default(),
            map_state: MapState::default(),
            player: Some(player),
            enemies: Vec::new(),
            lasers: Vec::new(),
        };
        proof {
            assert(world.wf());
        }
        world
    }

    /// One simulation frame of `dt` seconds under the sampled input. The
    /// window resource is never touched, the distance counter advances
    /// exactly as its own system states, and a frame of non-negative time
    /// keeps every gun of a well-formed world inside its cooldown bound.
    pub fn tick(&mut self, input: &InputState, dt: i64)
        ensures
            final(self).win_size == old(self).win_size,
            final(self).game_state.distance.1 == old(self).game_state.distance.1,
            final(self).game_state.distance.0 == spec_distance_advanced(
                old(self).game_state.distance.0 as int,
                old(self).game_state.distance.1 as int,
                dt as int,
            ),
            final(self).map_state.last_spawn == {
                let travelled = spec_distance_advanced(
                    old(self).game_state.distance.0 as int,
                    old(self).game_state.distance.1 as int,
                    dt as int,
                );
                if crate::map_systems::spec_spawn_due(
                    old(self).map_state.last_spawn as int,
                    travelled,
                ) {
                    crate::fx::sat_add(travelled, crate::map_systems::SPAWN_INTERVAL as int)
                } else {
                    old(self).map_state.last_spawn as int
                }
            },
            old(self).player is None ==> final(self).player is None,
            // The lifecycle pass may empty the player slot; a surviving
            // player moved, recorded its movement and stepped its blend
            // scalar exactly as the controller systems state.
            (old(self).player matches Some(p) && final(self).player matches Some(q)) ==> {
                let p = old(self).player->Some_0;
                let q = final(self).player->Some_0;
                &&& q.transform.translation
                    == crate::player_systems::spec_moved_translation(
                    p.transform.translation,
                    p.player_speed,
                    *input,
                    old(self).win_size,
                    dt as int,
                )
                &&& q.player_state.movement == crate::player_systems::spec_recorded_movement(
                    p.transform.translation,
                    *input,
                    old(self).win_size,
                )
                &&& q.player_state.state_step == crate::player_systems::spec_stepped(
                    p.player_state.state_step as int,
                    q.player_state.movement,
                    crate::fx::clip(10 * dt as int),
                )
                &&& q.player_speed == p.player_speed
            },
            dt >= 0 && old(self).wf() ==> final(self).wf(),
    {
        let win_size = self.win_size;

        update_distance(&mut self.game_state, dt);

        match self.player.as_mut() {
            Some(p) => {
                player_movement(p, input, &win_size, dt);
                player_state_update(&mut p.player_state, dt);
                player_shoot(p, input, &mut self.lasers);
            },
            None => {},
        }

        enemy_update(&mut self.enemies, dt);
        enemy_entrance_circle_movement(&mut self.enemies);
        enemy_shoot(&mut self.enemies, &mut self.lasers);
        let ghost w_shot = *self;

        gun_cooldown(&mut self.player, &mut self.enemies, dt);
        let ghost w_cooled = *self;

        laser_movement(&mut self.lasers, dt);
        laser_hit(&mut self.enemies, &mut self.lasers);
        laser_disappear(&mut self.lasers, &win_size);
        let ghost w_hit = *self;

        health_update(&mut self.player, &mut self.enemies);
        let ghost w_lifecycle = *self;

        enemy_spawn(&self.game_state, &mut self.map_state, &mut self.enemies, &win_size);

        proof {
            if dt >= 0 && old(self).wf() {
                // The player's guns: untouched by movement, then a firing
                // pass, then a cooldown pass, then possibly removed.
                if w_cooled.player is Some {
                    let p0 = old(self).player->Some_0;
                    lemma_shot_guns_wf(p0.weapon.guns@, p0.transform);
                    lemma_cooled_guns_wf(w_shot.player->Some_0.weapon.guns@, dt as int);
                }
                // Each enemy's guns: a firing pass, then a cooldown pass.
                assert forall|j: int| 0 <= j < w_cooled.enemies@.len() implies spec_guns_wf(
                    (#[trigger] w_cooled.enemies@[j]).weapon.guns@,
                ) by {
                    let e0 = old(self).enemies@[j];
                    lemma_shot_guns_wf(e0.weapon.guns@, e0.transform);
                    lemma_cooled_guns_wf(w_shot.enemies@[j].weapon.guns@, dt as int);
                }
                // The hit pass leaves weapons alone; the lifecycle pass
                // only drops entities.
                assert forall|j: int| 0 <= j < w_hit.enemies@.len() implies spec_guns_wf(
                    (#[trigger] w_hit.enemies@[j]).weapon.guns@,
                ) by {}
                lemma_survivors_from(w_hit.enemies@);
                assert forall|j: int| 0 <= j < w_lifecycle.enemies@.len() implies spec_guns_wf(
                    (#[trigger] w_lifecycle.enemies@[j]).weapon.guns@,
                ) by {
                    assert(w_hit.enemies@.contains(w_lifecycle.enemies@[j]));
                    let k = choose|k: int|
                        0 <= k < w_hit.enemies@.len() && w_hit.enemies@[k]
                            == w_lifecycle.enemies@[j];
                }
                // The spawn director appends at most one stock enemy,
                // whose single gun starts ready inside its bound.
                assert(final(self).wf());
            }
        }
    }
}

} // verus!
