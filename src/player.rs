//! The player's kinematic state and the per-tick movement integrator.
use vstd::prelude::*;
use crate::geometry::{Vector2, UNIT};
use crate::input::InputState;

verus! {

/// Gravity, subtracted from the vertical speed every tick.
pub const GRAVITY: i64 = UNIT;
/// Gravity while sliding down a wall: half of `GRAVITY`.
pub const WALL_SLIDE_GRAVITY: i64 = 500;
/// Horizontal speed while walking.
pub const MOVE_SPEED: i64 = 6 * UNIT;
/// Horizontal speed while running, and of a wall jump.
pub const RUN_SPEED: i64 = 9 * UNIT;
/// Vertical speed given by a jump or a wall jump.
pub const JUMP_SPEED: i64 = 20 * UNIT;
/// Once the run timer is above this many ticks, walking turns into running.
pub const RUN_THRESHOLD: u64 = 30;
/// Ticks for which a wall jump keeps its horizontal speed.
pub const WALL_JUMP_TICKS: u64 = 15;

/// The discrete movement state.
#[derive(Clone, Copy, Debug, PartialEq, Eq, Structural)]
pub enum PlayerState {
    Grounded,
    /// Airborne, rising or falling.
    Jumping,
    WallSliding,
    WallJumping,
}

/// The player: a box with a center and half-extents, its velocity in
/// subunits per tick, its movement state and its two tick counters.
#[derive(Clone, Copy, Debug, PartialEq, Eq, Structural)]
pub struct Player {
    pub position: Vector2,
    pub half_size: Vector2,
    pub velocity: Vector2,
    pub state: PlayerState,
    /// Consecutive grounded ticks with one direction held.
    pub run_timer: u64,
    /// Ticks left during which a wall jump's horizontal speed is kept.
    pub wall_jump_timer: u64,
}

/// A player at rest at `position`, airborne, with both timers at zero.
pub open spec fn fresh_player(position: Vector2, half_size: Vector2) -> Player {
    Player {
        position,
        half_size,
        velocity: Vector2 { x: 0, y: 0 },
        state: PlayerState::Jumping,
        run_timer: 0,
        wall_jump_timer: 0,
    }
}

impl Player {
    /// A player at rest at `position`, airborne, with both timers at zero.
    pub fn new(position: Vector2, half_size: Vector2) -> (r: Player)
        ensures
            r == fresh_player(position, half_size),
    {
        Player {
            position,
            half_size,
            velocity: Vector2::zero(),
            state: PlayerState::Jumping,
            run_timer: 0,
            wall_jump_timer: 0,
        }
    }

    /// The bounds accepted at the start of a tick: position and velocity
    /// within `COORD_LIMIT`, half-extents within `[0, COORD_LIMIT]`.
    pub open spec fn in_bounds(self) -> bool {
        &&& self.position.within(1)
        &&& self.velocity.within(1)
        &&& self.half_size.within(1)
        &&& self.half_size.x >= 0
        &&& self.half_size.y >= 0
    }

    pub fn is_in_bounds(&self) -> (r: bool)
        ensures
            r == self.in_bounds(),
    {
        self.position.is_within_limit() && self.velocity.is_within_limit() && self.half_size.is_within_limit()
            && self.half_size.x >= 0 && self.half_size.y >= 0
    }

    /// The looser bounds that hold between the stages of a tick.
    pub open spec fn in_tick_bounds(self) -> bool {
        &&& self.position.within(3)
        &&& self.velocity.within(2)
        &&& self.half_size.within(1)
        &&& self.half_size.x >= 0
        &&& self.half_size.y >= 0
    }
}

/// Exactly one of left and right is held.
pub open spec fn one_direction(input: InputState) -> bool {
    input.left.pressed != input.right.pressed
}

pub open spec fn gravity_in(state: PlayerState) -> int {
    if state == PlayerState::WallSliding { WALL_SLIDE_GRAVITY as int } else { GRAVITY as int }
}

/// Running speed once the run timer is past the threshold, except during a
/// wall jump; walking speed otherwise.
pub open spec fn ground_speed(p: Player) -> int {
    if p.run_timer > RUN_THRESHOLD && p.state != PlayerState::WallJumping {
        RUN_SPEED as int
    } else {
        MOVE_SPEED as int
    }
}

/// The horizontal speed that directional input asks for.
pub open spec fn steered_speed(p: Player, input: InputState) -> int {
    if !one_direction(input) {
        0
    } else if input.right.pressed {
        ground_speed(p)
    } else {
        -ground_speed(p)
    }
}

pub open spec fn next_run_timer(p: Player, input: InputState) -> u64 {
    if !one_direction(input) {
        0
    } else if p.state == PlayerState::Grounded && p.run_timer < u64::MAX {
        (p.run_timer + 1) as u64
    } else {
        p.run_timer
    }
}

pub open spec fn starts_jump(p: Player, input: InputState) -> bool {
    input.jump.just_pressed && p.state == PlayerState::Grounded
}

pub open spec fn starts_wall_jump(p: Player, input: InputState) -> bool {
    input.jump.just_pressed && p.state == PlayerState::WallSliding
}

/// Run speed pointing away from the wall, against the sign of `vx`; a zero
/// speed counts as positive, so the jump goes left.
pub open spec fn away_from_wall(vx: int) -> int {
    if vx < 0 { RUN_SPEED as int } else { -RUN_SPEED }
}

/// Vertical speed after gravity and jump impulses.
pub open spec fn impulse_vy(p: Player, input: InputState) -> int {
    if starts_jump(p, input) || starts_wall_jump(p, input) {
        JUMP_SPEED as int
    } else {
        p.velocity.y - gravity_in(p.state)
    }
}

/// Vertical speed at the end of the tick: halved (towards zero) while the
/// jump button is up and the player is not falling.
pub open spec fn next_vy(p: Player, input: InputState) -> int {
    let vy = impulse_vy(p, input);
    if !input.jump.pressed && vy >= 0 { vy / 2 } else { vy }
}

/// Horizontal speed at the end of the tick: a wall jump's, kept while the
/// wall-jump timer runs, else what the input asks for.
pub open spec fn next_vx(p: Player, input: InputState) -> int {
    if starts_wall_jump(p, input) {
        away_from_wall(p.velocity.x as int)
    } else if p.wall_jump_timer > 0 {
        p.velocity.x as int
    } else {
        steered_speed(p, input)
    }
}

pub open spec fn next_state(p: Player, input: InputState) -> PlayerState {
    if starts_jump(p, input) {
        PlayerState::Jumping
    } else if starts_wall_jump(p, input) {
        PlayerState::WallJumping
    } else {
        p.state
    }
}

pub open spec fn next_wall_jump_timer(p: Player, input: InputState) -> u64 {
    let armed = if starts_wall_jump(p, input) { WALL_JUMP_TICKS } else { p.wall_jump_timer };
    if armed > 0 { (armed - 1) as u64 } else { 0 }
}

/// The player after the movement stage of one tick.
pub open spec fn moved(p: Player, input: InputState) -> Player {
    Player {
        position: Vector2 {
            x: (p.position.x + next_vx(p, input)) as i64,
            y: (p.position.y + next_vy(p, input)) as i64,
        },
        half_size: p.half_size,
        velocity: Vector2 { x: next_vx(p, input) as i64, y: next_vy(p, input) as i64 },
        state: next_state(p, input),
        run_timer: next_run_timer(p, input),
        wall_jump_timer: next_wall_jump_timer(p, input),
    }
}

/// A wall jump sends the player away from the wall at run speed, upward at
/// jump speed (halved if the button is already up), and arms the wall-jump
/// timer, one tick of which this tick uses.
pub proof fn lemma_wall_jump(p: Player, input: InputState)
    requires
        starts_wall_jump(p, input),
    ensures
        moved(p, input).state == PlayerState::WallJumping,
        moved(p, input).velocity.x == away_from_wall(p.velocity.x as int),
        moved(p, input).wall_jump_timer == WALL_JUMP_TICKS - 1,
{
}

/// While the wall-jump timer runs, the movement stage keeps the horizontal
/// speed exactly, whatever left and right do, and counts the timer down.
pub proof fn lemma_wall_jump_lock_tick(p: Player, input: InputState)
    requires
        p.wall_jump_timer > 0,
        !starts_wall_jump(p, input),
    ensures
        moved(p, input).velocity.x == p.velocity.x,
        moved(p, input).wall_jump_timer == p.wall_jump_timer - 1,
{
}

/// The player after the movement stage alone of each tick of `inputs` in turn.
pub open spec fn moved_all(p: Player, inputs: Seq<InputState>) -> Player
    decreases inputs.len(),
{
    if inputs.len() == 0 {
        p
    } else {
        moved_all(moved(p, inputs[0]), inputs.subrange(1, inputs.len() as int))
    }
}

/// A wall jump locks the horizontal speed: over the jump's own movement
/// stage and up to `WALL_JUMP_TICKS - 1` more, whatever left and right do,
/// the speed stays the wall jump's, the state stays wall-jumping, and the
/// timer counts down by one per stage.
pub proof fn lemma_wall_jump_lock_moves(p: Player, inputs: Seq<InputState>)
    requires
        0 < inputs.len() <= WALL_JUMP_TICKS,
        starts_wall_jump(p, inputs[0]),
    ensures
        moved_all(p, inputs).velocity.x == away_from_wall(p.velocity.x as int),
        moved_all(p, inputs).state == PlayerState::WallJumping,
        moved_all(p, inputs).wall_jump_timer == WALL_JUMP_TICKS - inputs.len(),
{
    let q = moved(p, inputs[0]);
    lemma_wall_jump(p, inputs[0]);
    lemma_locked_moves(q, inputs.subrange(1, inputs.len() as int));
}

/// While wall-jumping with the timer running, each movement stage keeps the
/// horizontal speed and the state and takes one tick off the timer.
proof fn lemma_locked_moves(p: Player, inputs: Seq<InputState>)
    requires
        p.state == PlayerState::WallJumping,
        inputs.len() <= p.wall_jump_timer,
    ensures
        moved_all(p, inputs).velocity.x == p.velocity.x,
        moved_all(p, inputs).state == PlayerState::WallJumping,
        moved_all(p, inputs).wall_jump_timer == p.wall_jump_timer - inputs.len(),
    decreases inputs.len(),
{
    if inputs.len() > 0 {
        lemma_locked_moves(moved(p, inputs[0]), inputs.subrange(1, inputs.len() as int));
    }
}

impl Player {
    /// Movement stage of a tick: gravity, steering, jumps, the early-release
    /// cutoff and the wall-jump lock, then one step of integration.
    pub fn movement(&mut self, input: &InputState)
        requires
            old(self).in_bounds(),
        ensures
            *final(self) == moved(*old(self), *input),
            final(self).in_tick_bounds(),
            !one_direction(*input) ==> final(self).run_timer == 0,
            one_direction(*input) && old(self).state == PlayerState::Grounded
                && old(self).run_timer < u64::MAX ==> final(self).run_timer == old(self).run_timer + 1,
            one_direction(*input) && old(self).state != PlayerState::Grounded
                ==> final(self).run_timer == old(self).run_timer,
    {
        let state = self.state;
        let mut new_vx: i64 = self.velocity.x;
        let mut new_vy: i64 = self.velocity.y - if state == PlayerState::WallSliding {
            WALL_SLIDE_GRAVITY
        } else {
            GRAVITY
        };
        let speed = if self.run_timer > RUN_THRESHOLD && state != PlayerState::WallJumping {
            RUN_SPEED
        } else {
            MOVE_SPEED
        };
        if input.left.pressed {
            new_vx = -speed;
        }
        if input.right.pressed {
            new_vx = speed;
        }
        if input.left.pressed == input.right.pressed {
            new_vx = 0;
            self.run_timer = 0;
        } else if state == PlayerState::Grounded {
            self.run_timer = self.run_timer.saturating_add(1);
        }
        if input.jump.just_pressed && self.state == PlayerState::Grounded {
            new_vy = JUMP_SPEED;
            self.state = PlayerState::Jumping;
        }
        if input.jump.just_pressed && self.state == PlayerState::WallSliding {
            self.velocity.x = if self.velocity.x < 0 { RUN_SPEED } else { -RUN_SPEED };
            new_vy = JUMP_SPEED;
            self.state = PlayerState::WallJumping;
            self.wall_jump_timer = WALL_JUMP_TICKS;
        }
        if !input.jump.pressed && new_vy >= 0 {
            new_vy = new_vy / 2;
        }
        if self.wall_jump_timer > 0 {
            self.wall_jump_timer = self.wall_jump_timer - 1;
            self.velocity = Vector2 { x: self.velocity.x, y: new_vy };
        } else {
            self.velocity = Vector2 { x: new_vx, y: new_vy };
        }
        self.position = Vector2 {
            x: self.position.x + self.velocity.x,
            y: self.position.y + self.velocity.y,
        };
    }
}

} // verus!
