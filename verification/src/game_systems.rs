//! The global game state: the distance-travelled counter that paces the
//! level and feeds the progress readout.

use vstd::prelude::*;

use crate::fx::{clip, fx_round, fx_round64, sat_add, sat_add64, sat_mul64, FX_ONE};

verus! {

/// The distance travelled through the level: current, then target, in
/// fixed-point metres.
#[derive(Clone, Copy, PartialEq, Eq, Structural, Debug)]
pub struct Distance(pub i64, pub i64);

/// The global game state owned by the simulation.
#[derive(Clone, Copy, PartialEq, Eq, Structural, Debug)]
pub struct GameState {
    pub distance: Distance,
}

impl Default for GameState {
    /// A fresh run: no distance travelled, a 1000-metre target.
    fn default() -> (r: Self)
        ensures
            r.distance.0 == 0,
            r.distance.1 == 1000 * FX_ONE,
    {
        GameState { distance: Distance(0, 1000 * FX_ONE) }
    }
}

/// The distance counter after `dt` seconds at ten metres per second: it
/// only moves while short of the target and is clamped to it, so it never
/// passes the target.
pub open spec fn spec_distance_advanced(cur: int, target: int, dt: int) -> int {
    if cur < target {
        let n = sat_add(cur, clip(10 * dt));
        if n > target {
            target
        } else {
            n
        }
    } else {
        cur
    }
}

/// Advances the distance counter by `dt` seconds, clamped to its target.
pub fn update_distance(game_state: &mut GameState, dt: i64)
    ensures
        final(game_state).distance.0 == spec_distance_advanced(
            old(game_state).distance.0 as int,
            old(game_state).distance.1 as int,
            dt as int,
        ),
        final(game_state).distance.1 == old(game_state).distance.1,
{
    let d = game_state.distance;
    if d.0 < d.1 {
        let step = sat_mul64(10, dt);
        let n = sat_add64(d.0, step);
        game_state.distance.0 = if n > d.1 {
            d.1
        } else {
            n
        };
    }
}

impl Distance {
    /// The travelled distance rounded to whole metres, for the progress
    /// readout.
    pub fn current_rounded(&self) -> (r: i64)
        ensures
            r == fx_round(self.0 as int),
    {
        fx_round64(self.0)
    }

    /// The target distance rounded to whole metres, for the progress
    /// readout.
    pub fn target_rounded(&self) -> (r: i64)
        ensures
            r == fx_round(self.1 as int),
    {
        fx_round64(self.1)
    }
}

} // verus!
