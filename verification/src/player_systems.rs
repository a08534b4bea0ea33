//! The player controller: padded-bounds movement, the animation state step,
//! the sprite frame choice, and firing the player's guns.

use vstd::prelude::*;

use crate::fx::{
    clamp64, fx_mul, fx_mul64, fx_round, fx_round64, clip, sat_add, sat_add64, sat_mul64,
    sat_sub, sat_sub64, spec_clamp, FX_ONE,
};
use crate::gun_systems::{
    shoot_guns, spec_fired_lasers, spec_shot_guns, Gun, GunCollection, GunCooldown,
};
use crate::laser_systems::LaserEntity;
use crate::util::{Health, InputState, Speed, Transform, Vec2, WinSize};

verus! {

/// Marker component of the player entity.
#[derive(Clone, Copy, PartialEq, Eq, Structural, Debug)]
pub struct Player;

/// The movement the player controller recorded this frame; it picks the
/// animation strip.
#[derive(Clone, Copy, PartialEq, Eq, Structural, Debug)]
pub enum PlayerMoveStates {
    Idle,
    MoveLeft,
    MoveRight,
    MoveUp,
    MoveDown,
}

/// The recorded movement plus a continuous blend scalar in
/// `[-2, 2]` units used to pick the banking animation frame.
#[derive(Clone, Copy, PartialEq, Eq, Structural, Debug)]
pub struct PlayerState {
    pub movement: PlayerMoveStates,
    pub state_step: i64,
}

impl Default for PlayerState {
    /// Idle, with the blend scalar at rest.
    fn default() -> (r: Self)
        ensures
            r == (PlayerState { movement: PlayerMoveStates::Idle, state_step: 0 }),
    {
        PlayerState { movement: PlayerMoveStates::Idle, state_step: 0 }
    }
}

/// The player's starting height: half the ship sprite plus a small margin
/// above the bottom edge, 42.5 pixels in subunits.
pub const PLAYER_START_Y: i64 = 153000;

/// The components the player entity is spawned with.
#[derive(Clone, PartialEq, Eq, Debug)]
pub struct PlayerBundle {
    pub player: Player,
    pub transform: Transform,
    pub player_speed: Speed,
    pub player_state: PlayerState,
    pub weapon: GunCollection,
    pub health: Health,
}

/// The player's twin guns: a third-of-a-second cooldown, starting ready,
/// mounted 20 pixels either side of the ship.
pub open spec fn spec_player_gun(offset_x: int) -> Gun {
    Gun {
        cooldown: GunCooldown(0, (33 * FX_ONE / 100) as i64),
        offset: Vec2 { x: offset_x as i64, y: 0 },
        ..crate::gun_systems::spec_default_gun()
    }
}

impl Default for PlayerBundle {
    /// The stock player: 500/200 pixels per second, idle, twin ready guns
    /// 20 pixels either side, a full 100-point health pool, at the origin.
    fn default() -> (r: Self)
        ensures
            r.transform.translation == (Vec2 { x: 0, y: 0 }),
            r.player_speed == (Speed((500 * FX_ONE) as i64, (200 * FX_ONE) as i64)),
            r.player_state == (PlayerState { movement: PlayerMoveStates::Idle, state_step: 0 }),
            r.weapon.guns@ == seq![
                spec_player_gun(20 * FX_ONE as int),
                spec_player_gun(-20 * FX_ONE as int),
            ],
            r.health == (Health((100 * FX_ONE) as i64, (100 * FX_ONE) as i64)),
    {
        let mut guns: Vec<Gun> = Vec::new();
        let right = Gun {
            cooldown: GunCooldown(0, 33 * FX_ONE / 100),
            offset: Vec2 { x: 20 * FX_ONE, y: 0 },
            ..Gun::default()
        };
        let left = Gun {
            cooldown: GunCooldown(0, 33 * FX_ONE / 100),
            offset: Vec2 { x: -20 * FX_ONE, y: 0 },
            ..Gun::default()
        };
        guns.push(right);
        guns.push(left);
        proof {
            assert(guns@ =~= seq![
                spec_player_gun(20 * FX_ONE as int),
                spec_player_gun(-20 * FX_ONE as int),
            ]);
        }
        PlayerBundle {
            player: Player,
            transform: Transform { translation: Vec2 { x: 0, y: 0 } },
            player_speed: Speed(500 * FX_ONE, 200 * FX_ONE),
            player_state: PlayerState { movement: PlayerMoveStates::Idle, state_step: 0 },
            weapon: GunCollection { guns },
            health: Health(100 * FX_ONE, 100 * FX_ONE),
        }
    }
}

/// Creates the player at the start of the simulation: the stock bundle,
/// placed centred horizontally just above the bottom edge.
pub fn player_spawn(window: &WinSize) -> (r: PlayerBundle)
    ensures
        r.transform.translation == (Vec2 { x: window.half_w, y: PLAYER_START_Y }),
        r.player_speed == (Speed((500 * FX_ONE) as i64, (200 * FX_ONE) as i64)),
        r.player_state == (PlayerState { movement: PlayerMoveStates::Idle, state_step: 0 }),
        r.weapon.guns@ == seq![
            spec_player_gun(20 * FX_ONE as int),
            spec_player_gun(-20 * FX_ONE as int),
        ],
        r.health == (Health((100 * FX_ONE) as i64, (100 * FX_ONE) as i64)),
{
    let mut player = PlayerBundle::default();
    player.transform.translation = Vec2 { x: window.half_w, y: PLAYER_START_Y };
    player
}

/// Whether downward movement is allowed: the ship must sit above the
/// bottom padding plus a 50-pixel margin.
pub open spec fn spec_can_move_down(y: int, window: WinSize) -> bool {
    window.padding_bottom + 50 * FX_ONE < y
}

/// Whether upward movement is allowed: the ship must sit below the top
/// padding plus a 50-pixel margin.
pub open spec fn spec_can_move_up(y: int, window: WinSize) -> bool {
    y < window.h - (window.padding_top + 50 * FX_ONE)
}

/// Whether leftward movement is allowed.
pub open spec fn spec_can_move_left(x: int, window: WinSize) -> bool {
    window.padding_left + 50 * FX_ONE < x
}

/// Whether rightward movement is allowed.
pub open spec fn spec_can_move_right(x: int, window: WinSize) -> bool {
    x < window.w - (window.padding_right + 50 * FX_ONE)
}

/// The vertical direction the controller takes this frame: down wins over
/// up, and a blocked direction counts as no input.
pub open spec fn spec_ydir(p: Vec2, input: InputState, window: WinSize) -> int {
    if spec_can_move_down(p.y as int, window) && input.down {
        -1
    } else if spec_can_move_up(p.y as int, window) && input.up {
        1
    } else {
        0
    }
}

/// The horizontal direction the controller takes this frame: left wins
/// over right.
pub open spec fn spec_xdir(p: Vec2, input: InputState, window: WinSize) -> int {
    if spec_can_move_left(p.x as int, window) && input.left {
        -1
    } else if spec_can_move_right(p.x as int, window) && input.right {
        1
    } else {
        0
    }
}

/// The movement the controller records: the horizontal evaluation always
/// writes last, so without horizontal input the state is `Idle` even when
/// the ship moved vertically.
pub open spec fn spec_recorded_movement(
    p: Vec2,
    input: InputState,
    window: WinSize,
) -> PlayerMoveStates {
    if spec_can_move_left(p.x as int, window) && input.left {
        PlayerMoveStates::MoveLeft
    } else if spec_can_move_right(p.x as int, window) && input.right {
        PlayerMoveStates::MoveRight
    } else {
        PlayerMoveStates::Idle
    }
}

/// The player's position after one movement frame: each axis moves by its
/// direction times its axis speed times `dt`.
pub open spec fn spec_moved_translation(
    p: Vec2,
    speed: Speed,
    input: InputState,
    window: WinSize,
    dt: int,
) -> Vec2 {
    Vec2 {
        x: sat_add(
            p.x as int,
            spec_xdir(p, input, window) * fx_mul(speed.0 as int, dt),
        ) as i64,
        y: sat_add(
            p.y as int,
            spec_ydir(p, input, window) * fx_mul(speed.1 as int, dt),
        ) as i64,
    }
}

/// Moves the player within the padded window bounds and records the
/// movement state the animation reads. The vertical axis is evaluated
/// first against the original position; the horizontal evaluation then
/// decides the recorded state.
pub fn player_movement(
    player: &mut PlayerBundle,
    input: &InputState,
    window: &WinSize,
    dt: i64,
)
    ensures
        final(player).transform.translation == spec_moved_translation(
            old(player).transform.translation,
            old(player).player_speed,
            *input,
            *window,
            dt as int,
        ),
        final(player).player_state.movement == spec_recorded_movement(
            old(player).transform.translation,
            *input,
            *window,
        ),
        final(player).player_state.state_step == old(player).player_state.state_step,
        final(player).player_speed == old(player).player_speed,
        final(player).weapon == old(player).weapon,
        final(player).health == old(player).health,
{
    let p = player.transform.translation;
    let speed = player.player_speed;

    let can_down = (window.padding_bottom as i128 + (50 * FX_ONE) as i128) < p.y as i128;
    let can_up = (p.y as i128) < window.h as i128 - (window.padding_top as i128 + (50
        * FX_ONE) as i128);
    let dy = fx_mul64(speed.1, dt);
    let new_y: i64 = if can_down && input.down {
        player.player_state.movement = PlayerMoveStates::MoveDown;
        sat_sub64(p.y, dy)
    } else if can_up && input.up {
        player.player_state.movement = PlayerMoveStates::MoveUp;
        sat_add64(p.y, dy)
    } else {
        p.y
    };
    player.transform.translation.y = new_y;

    let can_left = (window.padding_left as i128 + (50 * FX_ONE) as i128) < p.x as i128;
    let can_right = (p.x as i128) < window.w as i128 - (window.padding_right as i128 + (50
        * FX_ONE) as i128);
    let dx = fx_mul64(speed.0, dt);
    let new_x: i64 = if can_left && input.left {
        player.player_state.movement = PlayerMoveStates::MoveLeft;
        sat_sub64(p.x, dx)
    } else if can_right && input.right {
        player.player_state.movement = PlayerMoveStates::MoveRight;
        sat_add64(p.x, dx)
    } else {
        player.player_state.movement = PlayerMoveStates::Idle;
        p.x
    };
    player.transform.translation.x = new_x;
}

/// The blend scalar limit of two units.
pub const STATE_STEP_BOUND: i64 = 7200;

/// The blend scalar after one frame: while idle it decays linearly towards
/// zero without overshooting; while banking it steps towards the matching
/// bound and stops advancing once past it.
pub open spec fn spec_stepped(ss: int, movement: PlayerMoveStates, t: int) -> int {
    match movement {
        PlayerMoveStates::Idle => {
            if ss > 0 {
                let n = sat_sub(ss, t);
                if n < 0 {
                    0
                } else {
                    n
                }
            } else if ss < 0 {
                let n = sat_add(ss, t);
                if n > 0 {
                    0
                } else {
                    n
                }
            } else {
                ss
            }
        },
        PlayerMoveStates::MoveLeft => {
            if ss > -STATE_STEP_BOUND {
                sat_sub(ss, t)
            } else {
                ss
            }
        },
        PlayerMoveStates::MoveRight => {
            if ss < STATE_STEP_BOUND {
                sat_add(ss, t)
            } else {
                ss
            }
        },
        _ => ss,
    }
}

/// Advances the animation blend scalar by one frame of `dt` seconds at ten
/// units per second.
pub fn player_state_update(state: &mut PlayerState, dt: i64)
    ensures
        final(state).state_step == spec_stepped(
            old(state).state_step as int,
            old(state).movement,
            clip(10 * dt as int),
        ),
        final(state).movement == old(state).movement,
{
    let t = sat_mul64(10, dt);
    match state.movement {
        PlayerMoveStates::Idle => {
            if state.state_step > 0 {
                let n = sat_sub64(state.state_step, t);
                state.state_step = if n < 0 {
                    0
                } else {
                    n
                };
            } else if state.state_step < 0 {
                let n = sat_add64(state.state_step, t);
                state.state_step = if n > 0 {
                    0
                } else {
                    n
                };
            }
        },
        PlayerMoveStates::MoveLeft => {
            if state.state_step > -STATE_STEP_BOUND {
                state.state_step = sat_sub64(state.state_step, t);
            }
        },
        PlayerMoveStates::MoveRight => {
            if state.state_step < STATE_STEP_BOUND {
                state.state_step = sat_add64(state.state_step, t);
            }
        },
        _ => {},
    }
}

/// The animation frame for a blend scalar: its rounding, clamped to
/// `[-2, 2]` whole units and shifted into `[0, 4]`.
pub open spec fn spec_sprite_index(ss: int) -> int {
    spec_clamp(fx_round(ss), -2, 2) + 2
}

/// Picks the banking animation frame from the blend scalar; the result is
/// always one of the five frames `0..=4`.
pub fn player_sprite_update(state: &PlayerState) -> (r: u32)
    ensures
        r == spec_sprite_index(state.state_step as int),
        r <= 4,
{
    let rounded = fx_round64(state.state_step);
    let clamped = clamp64(rounded, -2, 2);
    (clamped + 2) as u32
}

/// Fires every ready player gun while the fire key is held, tagging the
/// spawned projectiles as the player's; without the key nothing changes.
pub fn player_shoot(player: &mut PlayerBundle, input: &InputState, lasers: &mut Vec<LaserEntity>)
    ensures
        input.fire ==> {
            &&& final(player).weapon.guns@ == spec_shot_guns(
                old(player).weapon.guns@,
                old(player).transform,
            )
            &&& final(lasers)@ == old(lasers)@ + spec_fired_lasers(
                old(player).weapon.guns@,
                old(player).transform,
                true,
            )
        },
        !input.fire ==> {
            &&& *final(player) == *old(player)
            &&& final(lasers)@ == old(lasers)@
        },
        final(player).transform == old(player).transform,
        final(player).player_state == old(player).player_state,
        final(player).player_speed == old(player).player_speed,
        final(player).health == old(player).health,
{
    if input.fire {
        let owner = player.transform;
        shoot_guns(&mut player.weapon, &owner, true, lasers);
    }
}

} // verus!
