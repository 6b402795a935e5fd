use platformer::checkpoint::{savepoint, SavePoint};
use platformer::collision::GroundBox;
use platformer::game::Game;
use platformer::geometry::{collide, Collision, Vector2, UNIT};
use platformer::input::{
    gamepad_connections, input_handling, Action, ButtonState, ConnectionEvent, InputState, RawButton,
};
use platformer::player::{Player, PlayerState};

fn px(v: i64) -> i64 {
    v * UNIT
}

fn v(x: i64, y: i64) -> Vector2 {
    Vector2::new(px(x), px(y))
}

fn held() -> ButtonState {
    ButtonState { pressed: true, just_pressed: false, just_released: false }
}

fn pressed_now() -> ButtonState {
    ButtonState { pressed: true, just_pressed: true, just_released: false }
}

fn with_left(mut i: InputState) -> InputState {
    i.left = held();
    i
}

fn with_right(mut i: InputState) -> InputState {
    i.right = held();
    i
}

fn player_at(x: i64, y: i64, vx: i64, vy: i64, state: PlayerState) -> Player {
    let mut p = Player::new(v(x, y), v(40, 40));
    p.velocity = v(vx, vy);
    p.state = state;
    p
}

fn game_with(player: Player, ground: Vec<GroundBox>) -> Game {
    let mut g = Game::new(player.half_size, ground, Vector2::zero());
    g.player = player;
    g
}

#[test]
fn landing_scenario_from_falling() {
    // A box spanning y in [40, 60], wide enough to be under the player.
    let ground = vec![GroundBox::new(v(0, 50), v(100, 10), false)];
    let mut g = game_with(player_at(0, 100, 0, -5, PlayerState::Jumping), ground);
    g.tick(&InputState::idle());
    assert_eq!(g.player.position.y, px(60) + px(40));
    assert_eq!(g.player.velocity.y, 0);
    assert_eq!(g.player.state, PlayerState::Grounded);
}

#[test]
fn landing_at_high_speed_stops_the_fall() {
    let ground = vec![GroundBox::new(v(0, 0), v(500, 200), false)];
    let mut g = game_with(player_at(10, 280, 3, -100, PlayerState::Jumping), ground);
    g.tick(&InputState::idle());
    assert_eq!(g.player.position.y, px(200) + px(40));
    assert_eq!(g.player.velocity.y, 0);
    assert_eq!(g.player.state, PlayerState::Grounded);
}

#[test]
fn free_fall_applies_gravity_and_goes_airborne() {
    let mut g = game_with(player_at(0, 0, 0, -3, PlayerState::Grounded), vec![]);
    let mut jump_held = InputState::idle();
    jump_held.jump = held();
    g.tick(&jump_held);
    assert_eq!(g.player.velocity.y, px(-4));
    assert_eq!(g.player.position.y, px(-4));
    assert_eq!(g.player.state, PlayerState::Jumping);
}

#[test]
fn free_fall_from_wall_slide_uses_half_gravity() {
    let mut g = game_with(player_at(0, 0, 0, -2, PlayerState::WallSliding), vec![]);
    g.tick(&InputState::idle());
    assert_eq!(g.player.velocity.y, px(-2) - UNIT / 2);
    assert_eq!(g.player.state, PlayerState::Jumping);
}

#[test]
fn jump_from_ground_and_early_release() {
    let mut p = player_at(0, 0, 0, 0, PlayerState::Grounded);
    let mut input = InputState::idle();
    input.jump = pressed_now();
    p.movement(&input);
    assert_eq!(p.velocity.y, px(20));
    assert_eq!(p.state, PlayerState::Jumping);

    // The button is already up: the rising speed is halved.
    let mut q = player_at(0, 0, 0, 0, PlayerState::Grounded);
    input.jump = ButtonState { pressed: false, just_pressed: true, just_released: true };
    q.movement(&input);
    assert_eq!(q.velocity.y, px(10));
    assert_eq!(q.position.y, px(10));
}

#[test]
fn rising_speed_is_halved_when_jump_is_up() {
    let mut p = player_at(0, 0, 0, 9, PlayerState::Jumping);
    p.movement(&InputState::idle());
    assert_eq!(p.velocity.y, px(4));
    // Falling speed is not touched.
    let mut q = player_at(0, 0, 0, -9, PlayerState::Jumping);
    q.movement(&InputState::idle());
    assert_eq!(q.velocity.y, px(-10));
}

#[test]
fn wall_jump_locks_horizontal_speed() {
    let mut jump = InputState::idle();
    jump.jump = pressed_now();
    let mut a = game_with(player_at(0, 0, 0, -1, PlayerState::WallSliding), vec![]);
    a.player.velocity.x = 100;
    a.tick(&with_right(jump));
    assert_eq!(a.player.velocity.x, px(-9));
    assert_eq!(a.player.velocity.y, px(20));
    assert_eq!(a.player.wall_jump_timer, 14);
    let mut b = game_with(a.player, vec![]);
    for _ in 0..14 {
        a.tick(&with_right(InputState::idle()));
        b.tick(&with_left(InputState::idle()));
        assert_eq!(a.player.velocity.x, px(-9));
        assert_eq!(b.player.velocity.x, px(-9));
        assert_eq!(a.player.position, b.player.position);
    }
    assert_eq!(a.player.wall_jump_timer, 0);
    a.tick(&with_right(InputState::idle()));
    b.tick(&with_left(InputState::idle()));
    assert_eq!(a.player.velocity.x, px(6));
    assert_eq!(b.player.velocity.x, px(-6));
}

#[test]
fn wall_jump_away_from_left_pushing_wall() {
    let mut p = player_at(0, 0, 0, 0, PlayerState::WallSliding);
    p.velocity.x = -100;
    let mut jump = InputState::idle();
    jump.jump = pressed_now();
    p.movement(&jump);
    assert_eq!(p.velocity.x, px(9));
    assert_eq!(p.state, PlayerState::WallJumping);
}

#[test]
fn lethal_box_resets_player() {
    let ground = vec![GroundBox::new(v(0, -100), v(1000, 12), true)];
    let mut g = game_with(player_at(50, -60, 7, -50, PlayerState::WallJumping), ground);
    g.spawn = v(5, 5);
    g.tick(&with_right(InputState::idle()));
    assert_eq!(g.player.position, v(5, 5));
    assert_eq!(g.player.velocity, Vector2::zero());
    assert_eq!(g.player.state, PlayerState::Jumping);
}

#[test]
fn lethal_reset_repeats_identically() {
    // The spawn lies inside the lethal box, so the second check resets again.
    let ground = vec![GroundBox::new(v(0, 0), v(100, 100), true), GroundBox::new(v(0, 0), v(100, 100), true)];
    let mut p = player_at(30, 30, 4, 4, PlayerState::Grounded);
    p.collision_check(&ground, v(1, 1));
    assert_eq!(p.position, v(1, 1));
    assert_eq!(p.velocity, Vector2::zero());
    assert_eq!(p.state, PlayerState::Jumping);
}

#[test]
fn later_box_overrides_lethal_reset() {
    // A platform just under the spawn, checked after the lethal box.
    let ground = vec![GroundBox::new(v(0, -500), v(1000, 10), true), GroundBox::new(v(0, -50), v(100, 20), false)];
    let mut p = player_at(0, -495, 0, 0, PlayerState::Jumping);
    p.collision_check(&ground, Vector2::zero());
    assert_eq!(p.position, v(0, -30 + 40));
    assert_eq!(p.state, PlayerState::Grounded);
}

#[test]
fn save_then_load_restores_player() {
    let mut p = player_at(3, 4, 5, 6, PlayerState::WallJumping);
    p.run_timer = 31;
    p.wall_jump_timer = 7;
    let before = p;
    let mut slot = SavePoint::new();
    let mut save = InputState::idle();
    save.save = pressed_now();
    let mut load = InputState::idle();
    load.load = pressed_now();
    savepoint(&mut p, &mut slot, &save);
    assert_eq!(p, before);
    savepoint(&mut p, &mut slot, &load);
    assert_eq!(p, before);
}

#[test]
fn load_brings_back_saved_state() {
    let mut g = game_with(player_at(0, 0, 0, 0, PlayerState::Jumping), vec![]);
    let mut save = InputState::idle();
    save.save = pressed_now();
    g.tick(&save);
    let saved = g.player;
    for _ in 0..5 {
        g.tick(&with_right(InputState::idle()));
    }
    assert_ne!(g.player.position, saved.position);
    let mut load = InputState::idle();
    load.load = pressed_now();
    g.tick(&load);
    assert_eq!(g.player, saved);
}

#[test]
fn save_and_load_in_one_tick_keeps_player() {
    let mut p = player_at(1, 2, 3, 4, PlayerState::Grounded);
    let before = p;
    let mut slot = SavePoint::new();
    let mut both = InputState::idle();
    both.save = pressed_now();
    both.load = pressed_now();
    savepoint(&mut p, &mut slot, &both);
    assert_eq!(p, before);
    assert_eq!(slot.position, before.position);
    assert_eq!(slot.run_timer, before.run_timer);
}

#[test]
fn run_timer_counts_and_resets() {
    let mut p = player_at(0, 0, 0, 0, PlayerState::Grounded);
    for i in 1..=31 {
        p.state = PlayerState::Grounded;
        p.movement(&with_right(InputState::idle()));
        assert_eq!(p.run_timer, i);
    }
    assert_eq!(p.velocity.x, px(6));
    p.state = PlayerState::Grounded;
    p.movement(&with_right(InputState::idle()));
    assert_eq!(p.velocity.x, px(9));
    assert_eq!(p.run_timer, 32);

    // Airborne: kept, not counted.
    p.state = PlayerState::Jumping;
    p.movement(&with_left(InputState::idle()));
    assert_eq!(p.run_timer, 32);
    assert_eq!(p.velocity.x, px(-9));

    // Both directions held: speed and timer drop to zero.
    p.movement(&with_left(with_right(InputState::idle())));
    assert_eq!(p.run_timer, 0);
    assert_eq!(p.velocity.x, 0);

    p.run_timer = 12;
    p.movement(&InputState::idle());
    assert_eq!(p.run_timer, 0);
}

#[test]
fn wall_contact_nudges_and_damps() {
    let wall = GroundBox::new(v(100, 0), v(10, 200), false);
    let mut p = player_at(55, 0, 0, -5, PlayerState::Jumping);
    p.collision_check(&vec![wall], Vector2::zero());
    assert_eq!(p.position.x, px(100 - 10 - 40));
    assert_eq!(p.velocity.x, 100);
    assert_eq!(p.velocity.y, px(-4));
    assert_eq!(p.state, PlayerState::WallSliding);

    let mut q = player_at(145, 0, 0, -5, PlayerState::Jumping);
    q.collision_check(&vec![wall], Vector2::zero());
    assert_eq!(q.position.x, px(100 + 10 + 40));
    assert_eq!(q.velocity.x, -100);
    assert_eq!(q.state, PlayerState::WallSliding);
}

#[test]
fn ceiling_hit_stops_rising() {
    let ceiling = GroundBox::new(v(0, 100), v(200, 10), false);
    let mut p = player_at(0, 55, 0, 8, PlayerState::Jumping);
    p.collision_check(&vec![ceiling], Vector2::zero());
    assert_eq!(p.position.y, px(100 - 10 - 40));
    assert_eq!(p.velocity.y, 0);
    // Only top and side contacts count: the player is airborne.
    assert_eq!(p.state, PlayerState::Jumping);
}

#[test]
fn collide_picks_shallower_axis() {
    let half = v(10, 10);
    assert_eq!(collide(v(0, 18), half, v(0, 0), half), Some(Collision::Top));
    assert_eq!(collide(v(0, -18), half, v(0, 0), half), Some(Collision::Bottom));
    assert_eq!(collide(v(-18, 0), half, v(0, 0), half), Some(Collision::Left));
    assert_eq!(collide(v(18, 0), half, v(0, 0), half), Some(Collision::Right));
    assert_eq!(collide(v(17, 15), half, v(0, 0), half), Some(Collision::Right));
    assert_eq!(collide(v(15, 17), half, v(0, 0), half), Some(Collision::Top));
}

#[test]
fn collide_tie_goes_vertical() {
    let half = v(10, 10);
    assert_eq!(collide(v(15, 15), half, v(0, 0), half), Some(Collision::Top));
    assert_eq!(collide(v(-15, -15), half, v(0, 0), half), Some(Collision::Bottom));
}

#[test]
fn collide_needs_strict_overlap() {
    let half = v(10, 10);
    assert_eq!(collide(v(20, 0), half, v(0, 0), half), None);
    assert_eq!(collide(v(0, 20), half, v(0, 0), half), None);
    assert_eq!(collide(v(100, 100), half, v(0, 0), half), None);
}

#[test]
fn channels_or_every_source() {
    let raw = vec![
        RawButton { action: Action::Left, state: ButtonState::released() },
        RawButton { action: Action::Left, state: pressed_now() },
        RawButton { action: Action::Jump, state: held() },
        RawButton { action: Action::Jump, state: ButtonState { pressed: false, just_pressed: false, just_released: true } },
        RawButton { action: Action::Save, state: ButtonState::released() },
    ];
    let input = input_handling(&raw);
    assert_eq!(input.left, pressed_now());
    assert_eq!(input.right, ButtonState::released());
    assert_eq!(input.jump, ButtonState { pressed: true, just_pressed: false, just_released: true });
    assert_eq!(input.save, ButtonState::released());
    assert_eq!(input.load, ButtonState::released());
    assert_eq!(input_handling(&vec![]), InputState::idle());
}

#[test]
fn gamepad_binding_follows_events() {
    let events = vec![ConnectionEvent::Connected(3), ConnectionEvent::Connected(5)];
    assert_eq!(gamepad_connections(None, &events), Some(3));
    assert_eq!(gamepad_connections(Some(3), &vec![ConnectionEvent::Disconnected(5)]), Some(3));
    assert_eq!(gamepad_connections(Some(3), &vec![ConnectionEvent::Disconnected(3)]), None);
    let swap = vec![ConnectionEvent::Disconnected(3), ConnectionEvent::Connected(5)];
    assert_eq!(gamepad_connections(Some(3), &swap), Some(5));
    assert_eq!(gamepad_connections(Some(7), &vec![]), Some(7));
}

#[test]
fn new_game_starts_at_spawn() {
    let g = Game::new(v(24, 24), vec![], v(1, 2));
    assert_eq!(g.player.position, v(1, 2));
    assert_eq!(g.player.velocity, Vector2::zero());
    assert_eq!(g.player.state, PlayerState::Jumping);
    assert_eq!(g.player.run_timer, 0);
    assert_eq!(g.player.wall_jump_timer, 0);
    assert_eq!(g.save_point, SavePoint::new());
}

#[test]
fn bounds_check_flags_far_values() {
    let mut g = Game::new(v(24, 24), vec![GroundBox::new(v(0, -240), v(480, 24), false)], Vector2::zero());
    assert!(g.is_in_bounds());
    g.ground.push(GroundBox::new(Vector2::new(i64::MAX, 0), v(1, 1), false));
    assert!(!g.is_in_bounds());
    g.ground.pop();
    g.player.velocity.y = i64::MIN;
    assert!(!g.is_in_bounds());
}

#[test]
fn wall_jumping_moves_at_walking_speed() {
    let mut p = player_at(0, 0, 0, 0, PlayerState::WallJumping);
    p.movement(&with_right(InputState::idle()));
    assert_eq!(p.velocity.x, px(6));

    // A long run does not turn into running during a wall jump.
    let mut q = player_at(0, 0, 0, 0, PlayerState::WallJumping);
    q.run_timer = 40;
    q.movement(&with_left(InputState::idle()));
    assert_eq!(q.velocity.x, px(-6));

    let mut r = player_at(0, 0, 0, 0, PlayerState::Jumping);
    r.run_timer = 40;
    r.movement(&with_left(InputState::idle()));
    assert_eq!(r.velocity.x, px(-9));
}
