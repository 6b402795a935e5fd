//! The checkpoint slot: a copy of the player's kinematic state, written on
//! save and read back on load.
use vstd::prelude::*;
use crate::geometry::Vector2;
use crate::input::InputState;
use crate::player::{Player, PlayerState};

verus! {

/// A snapshot of the player's position, velocity, state and timers. It is a
/// value of its own: later changes to the player do not reach it.
#[derive(Clone, Copy, Debug, PartialEq, Eq, Structural)]
pub struct SavePoint {
    pub position: Vector2,
    pub velocity: Vector2,
    pub state: PlayerState,
    pub run_timer: u64,
    pub wall_jump_timer: u64,
}

/// The slot at level start: at the origin, at rest, airborne, timers at zero.
pub open spec fn initial_save_point() -> SavePoint {
    SavePoint {
        position: Vector2 { x: 0, y: 0 },
        velocity: Vector2 { x: 0, y: 0 },
        state: PlayerState::Jumping,
        run_timer: 0,
        wall_jump_timer: 0,
    }
}

impl SavePoint {
    /// The slot at level start: at the origin, at rest, airborne, timers at zero.
    pub fn new() -> (r: SavePoint)
        ensures
            r == initial_save_point(),
    {
        SavePoint {
            position: Vector2::zero(),
            velocity: Vector2::zero(),
            state: PlayerState::Jumping,
            run_timer: 0,
            wall_jump_timer: 0,
        }
    }
}

/// The slot holding `p`'s kinematic state.
pub open spec fn snapshot(p: Player) -> SavePoint {
    SavePoint {
        position: p.position,
        velocity: p.velocity,
        state: p.state,
        run_timer: p.run_timer,
        wall_jump_timer: p.wall_jump_timer,
    }
}

/// `p` with its kinematic state taken from the slot `s`.
pub open spec fn restored(p: Player, s: SavePoint) -> Player {
    Player {
        position: s.position,
        velocity: s.velocity,
        state: s.state,
        run_timer: s.run_timer,
        wall_jump_timer: s.wall_jump_timer,
        ..p
    }
}

/// Player and slot after the checkpoint stage: save first, then load.
pub open spec fn checkpoint_step(p: Player, s: SavePoint, input: InputState) -> (Player, SavePoint) {
    let s1 = if input.save.just_pressed { snapshot(p) } else { s };
    let p1 = if input.load.just_pressed { restored(p, s1) } else { p };
    (p1, s1)
}

/// Checkpoint stage of a tick. On save the slot takes the player's state; on
/// load the player takes the slot's. When both come in one tick the save goes
/// first, so the load gives back the state just saved.
pub fn savepoint(player: &mut Player, save_point: &mut SavePoint, input: &InputState)
    ensures
        (*final(player), *final(save_point)) == checkpoint_step(*old(player), *old(save_point), *input),
{
    if input.save.just_pressed {
        *save_point = SavePoint {
            position: player.position,
            velocity: player.velocity,
            state: player.state,
            run_timer: player.run_timer,
            wall_jump_timer: player.wall_jump_timer,
        };
    }
    if input.load.just_pressed {
        player.position = save_point.position;
        player.velocity = save_point.velocity;
        player.state = save_point.state;
        player.run_timer = save_point.run_timer;
        player.wall_jump_timer = save_point.wall_jump_timer;
    }
}

/// Saving and then loading, with no tick between, leaves the player exactly
/// as it was before the save; so does a save alone, or a save and a load in
/// the same tick.
pub proof fn lemma_save_then_load(p: Player, s: SavePoint, save_input: InputState, load_input: InputState)
    requires
        save_input.save.just_pressed,
        load_input.load.just_pressed,
    ensures
        ({
            let (p1, s1) = checkpoint_step(p, s, save_input);
            checkpoint_step(p1, s1, load_input).0 == p
        }),
        checkpoint_step(p, s, save_input).0 == p,
{
}

} // verus!
