//! The spawn director: a distance-keyed marker that creates one enemy each
//! time the travelled distance passes the next spawn threshold.

use vstd::prelude::*;

use crate::enemy_systems::{AICircle, AIEntrance, AIMoveStates, AIState, EnemyBundle, EntranceDirections};
use crate::fx::{sat_add, sat_add64, sat_sub, sat_sub64, FX_ONE};
use crate::game_systems::GameState;
use crate::util::{Vec2, WinSize};

verus! {

/// The spawn director's state: the distance marker the last spawn was keyed
/// to.
#[derive(Clone, Copy, PartialEq, Eq, Structural, Debug)]
pub struct MapState {
    pub last_spawn: i64,
}

impl Default for MapState {
    /// No spawn has happened yet.
    fn default() -> (r: Self)
        ensures
            r.last_spawn == 0,
    {
        MapState { last_spawn: 0 }
    }
}

/// The distance gap between enemy spawns: 20 metres.
pub const SPAWN_INTERVAL: i64 = 72000;

/// Whether the travelled distance has passed the next spawn threshold:
/// strictly beyond the marker plus the interval.
pub open spec fn spec_spawn_due(last_spawn: int, distance: int) -> bool {
    last_spawn + SPAWN_INTERVAL < distance
}

/// Whether an enemy is the one the director spawns for this window: a
/// stock enemy placed just off the right edge near the top, entering from
/// the left along a 100-pixel circle centred in the upper half of the
/// field.
pub open spec fn spec_is_spawned_enemy(e: EnemyBundle, window: WinSize) -> bool {
    &&& e.transform.translation == (Vec2 {
        x: sat_add(window.w as int, 100 * FX_ONE) as i64,
        y: sat_sub(window.h as int, 75 * FX_ONE) as i64,
    })
    &&& e.speed == (crate::util::Speed((10 * FX_ONE) as i64, (10 * FX_ONE) as i64))
    &&& e.state == (AIState { movement: AIMoveStates::Entering, state_step: 0 })
    &&& e.weapon.guns@ == seq![crate::enemy_systems::spec_enemy_gun()]
    &&& e.health == (crate::util::Health(FX_ONE, FX_ONE))
    &&& e.hitbox.rect == (Vec2 { x: (50 * FX_ONE) as i64, y: (50 * FX_ONE) as i64 })
    &&& e.entrance == Some(AIEntrance { direction: EntranceDirections::Left })
    &&& e.circle == Some(
        AICircle {
            x_origin: window.half_w,
            y_origin: sat_add(window.half_h as int, 200 * FX_ONE) as i64,
            x_radius: (100 * FX_ONE) as i64,
            y_radius: (100 * FX_ONE) as i64,
        },
    )
}

/// Spawns one enemy when the travelled distance passes the spawn
/// threshold, and moves the marker to the current distance plus the
/// interval; otherwise nothing changes.
pub fn enemy_spawn(
    game_state: &GameState,
    map_state: &mut MapState,
    enemies: &mut Vec<EnemyBundle>,
    window: &WinSize,
)
    ensures
        spec_spawn_due(old(map_state).last_spawn as int, game_state.distance.0 as int) ==> {
            &&& final(map_state).last_spawn == sat_add(
                game_state.distance.0 as int,
                SPAWN_INTERVAL as int,
            )
            &&& final(enemies).len() == old(enemies).len() + 1
            &&& forall|j: int|
                0 <= j < old(enemies).len() ==> final(enemies)@[j] == old(enemies)@[j]
            &&& spec_is_spawned_enemy(final(enemies)@.last(), *window)
        },
        !spec_spawn_due(old(map_state).last_spawn as int, game_state.distance.0 as int) ==> {
            &&& *final(map_state) == *old(map_state)
            &&& final(enemies)@ == old(enemies)@
        },
{
    let due = (map_state.last_spawn as i128 + SPAWN_INTERVAL as i128)
        < game_state.distance.0 as i128;
    if due {
        map_state.last_spawn = sat_add64(game_state.distance.0, SPAWN_INTERVAL);
        let mut enemy = EnemyBundle::default();
        enemy.transform.translation = Vec2 {
            x: sat_add64(window.w, 100 * FX_ONE),
            y: sat_sub64(window.h, 75 * FX_ONE),
        };
        enemy.entrance = Some(AIEntrance { direction: EntranceDirections::Left });
        enemy.circle = Some(
            AICircle {
                x_origin: window.half_w,
                y_origin: sat_add64(window.half_h, 200 * FX_ONE),
                x_radius: 100 * FX_ONE,
                y_radius: 100 * FX_ONE,
            },
        );
        enemies.push(enemy);
    }
}

/// Law: the director never spawns twice at one distance — right after a
/// spawn the threshold test fails for the same travelled distance,
/// whatever that distance was.
pub proof fn lemma_no_double_spawn(distance: i64)
    ensures
        !spec_spawn_due(sat_add(distance as int, SPAWN_INTERVAL as int), distance as int),
{
}

} // verus!
