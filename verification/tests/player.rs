use cookemup::fx::FX_ONE;
use cookemup::player_systems::{
    player_movement, player_shoot, player_spawn, player_sprite_update, player_state_update,
    PlayerMoveStates, PlayerState,
};
use cookemup::util::{InputState, Vec2, WinSize};

fn no_input() -> InputState {
    InputState { left: false, right: false, up: false, down: false, fire: false }
}

fn free_window() -> WinSize {
    WinSize::new(600 * FX_ONE, 800 * FX_ONE)
}

#[test]
fn hold_right_one_frame_moves_exactly_one_step() {
    // One bound-free frame at dt = 1/60 s with horizontal speed 500:
    // the position gains exactly 500/60 pixels and the state reads Right.
    let window = free_window();
    let mut player = player_spawn(&window);
    player.transform.translation = Vec2 { x: 300 * FX_ONE, y: 400 * FX_ONE };
    let x0 = player.transform.translation.x;
    let input = InputState { right: true, ..no_input() };

    player_movement(&mut player, &input, &window, FX_ONE / 60);

    let step = 500 * FX_ONE / 60; // 500/60 pixels, exact in subunits
    assert_eq!(player.transform.translation.x, x0 + step);
    assert_eq!(player.transform.translation.y, 400 * FX_ONE);
    assert_eq!(player.player_state.movement, PlayerMoveStates::MoveRight);
}

#[test]
fn vertical_movement_without_horizontal_reads_idle() {
    let window = free_window();
    let mut player = player_spawn(&window);
    player.transform.translation = Vec2 { x: 300 * FX_ONE, y: 400 * FX_ONE };
    let input = InputState { up: true, ..no_input() };

    player_movement(&mut player, &input, &window, FX_ONE / 60);

    let step = 200 * FX_ONE / 60;
    assert_eq!(player.transform.translation.y, 400 * FX_ONE + step);
    assert_eq!(player.player_state.movement, PlayerMoveStates::Idle);
}

#[test]
fn movement_is_gated_at_the_padded_bounds() {
    let window = free_window();
    let mut player = player_spawn(&window);
    // At the left margin (padding_left + 50 px) leftward input is refused.
    player.transform.translation = Vec2 { x: 60 * FX_ONE, y: 400 * FX_ONE };
    let input = InputState { left: true, ..no_input() };
    player_movement(&mut player, &input, &window, FX_ONE / 60);
    assert_eq!(player.transform.translation.x, 60 * FX_ONE);
    assert_eq!(player.player_state.movement, PlayerMoveStates::Idle);

    // One subunit beyond the margin it moves again.
    player.transform.translation.x = 60 * FX_ONE + 1;
    player_movement(&mut player, &input, &window, FX_ONE / 60);
    assert_eq!(player.transform.translation.x, 60 * FX_ONE + 1 - 500 * FX_ONE / 60);
    assert_eq!(player.player_state.movement, PlayerMoveStates::MoveLeft);
}

#[test]
fn state_step_rises_while_banking_and_decays_when_idle() {
    let mut state = PlayerState { movement: PlayerMoveStates::MoveRight, state_step: 0 };
    player_state_update(&mut state, FX_ONE / 60);
    assert_eq!(state.state_step, 600); // 10 units/s for 1/60 s

    state.movement = PlayerMoveStates::Idle;
    player_state_update(&mut state, FX_ONE / 60);
    assert_eq!(state.state_step, 0);

    // The idle decay never overshoots zero.
    state.state_step = 300;
    player_state_update(&mut state, FX_ONE / 60);
    assert_eq!(state.state_step, 0);
    state.state_step = -300;
    player_state_update(&mut state, FX_ONE / 60);
    assert_eq!(state.state_step, 0);
}

#[test]
fn state_step_stops_at_its_bounds() {
    let mut state = PlayerState { movement: PlayerMoveStates::MoveRight, state_step: 2 * FX_ONE };
    player_state_update(&mut state, FX_ONE);
    assert_eq!(state.state_step, 2 * FX_ONE);

    let mut state = PlayerState { movement: PlayerMoveStates::MoveLeft, state_step: -2 * FX_ONE };
    player_state_update(&mut state, FX_ONE);
    assert_eq!(state.state_step, -2 * FX_ONE);

    // The bound gates the step rather than clamping it: just inside the
    // bound the scalar still steps once and may land past it.
    let mut state =
        PlayerState { movement: PlayerMoveStates::MoveRight, state_step: 2 * FX_ONE - 1 };
    player_state_update(&mut state, FX_ONE);
    assert_eq!(state.state_step, 2 * FX_ONE - 1 + 10 * FX_ONE);
}

#[test]
fn sprite_frame_covers_all_five_frames() {
    let frame = |ss: i64| {
        player_sprite_update(&PlayerState { movement: PlayerMoveStates::Idle, state_step: ss })
    };
    assert_eq!(frame(-10 * FX_ONE), 0);
    assert_eq!(frame(-2 * FX_ONE), 0);
    assert_eq!(frame(-FX_ONE), 1);
    assert_eq!(frame(0), 2);
    assert_eq!(frame(FX_ONE / 2), 3); // rounds half away from zero
    assert_eq!(frame(FX_ONE), 3);
    assert_eq!(frame(2 * FX_ONE), 4);
    assert_eq!(frame(10 * FX_ONE), 4);
}

#[test]
fn player_fires_both_guns_while_key_held() {
    let window = free_window();
    let mut player = player_spawn(&window);
    player.transform.translation = Vec2 { x: 300 * FX_ONE, y: 100 * FX_ONE };
    let mut lasers = Vec::new();

    let held = InputState { fire: true, ..no_input() };
    player_shoot(&mut player, &held, &mut lasers);
    assert_eq!(lasers.len(), 2);
    assert_eq!(lasers[0].bundle.transform.translation.x, 320 * FX_ONE);
    assert_eq!(lasers[1].bundle.transform.translation.x, 280 * FX_ONE);
    assert!(lasers.iter().all(|l| l.from_player.is_some() && l.from_enemy.is_none()));
    assert!(player.weapon.guns.iter().all(|g| g.cooldown.0 == g.cooldown.1));

    // Still held, but both guns warm: nothing spawns.
    player_shoot(&mut player, &held, &mut lasers);
    assert_eq!(lasers.len(), 2);

    // Key released: ready guns stay quiet.
    player.weapon.guns[0].cooldown.0 = 0;
    player_shoot(&mut player, &no_input(), &mut lasers);
    assert_eq!(lasers.len(), 2);
    assert_eq!(player.weapon.guns[0].cooldown.0, 0);
}
