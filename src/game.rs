//! One level in play: the player, its checkpoint slot, the static geometry,
//! and the tick that runs the stages in order.
use vstd::prelude::*;
use crate::geometry::Vector2;
use crate::input::InputState;
use crate::player::{
    Player, PlayerState, moved, fresh_player, gravity_in, starts_jump, starts_wall_jump, WALL_JUMP_TICKS,
};
use crate::collision::{
    GroundBox, collided, contact, level_in_bounds, lemma_untouched, lemma_collision_timers, lemma_landing_in_level, after_box,
};
use crate::geometry::Collision;
use crate::checkpoint::{SavePoint, savepoint, checkpoint_step, initial_save_point};

verus! {

/// The state of a level in play.
#[derive(Debug)]
pub struct Game {
    pub player: Player,
    pub save_point: SavePoint,
    /// The level's boxes, in authoring order: the order in which they are checked.
    pub ground: Vec<GroundBox>,
    /// Where the player starts, and where a lethal box sends it back.
    pub spawn: Vector2,
}

/// The player after the movement and collision stages of one tick.
pub open spec fn stepped(p: Player, ground: Seq<GroundBox>, spawn: Vector2, input: InputState) -> Player {
    collided(moved(p, input), ground, spawn)
}

/// Player and slot after one whole tick.
pub open spec fn ticked(
    p: Player,
    s: SavePoint,
    ground: Seq<GroundBox>,
    spawn: Vector2,
    input: InputState,
) -> (Player, SavePoint) {
    checkpoint_step(stepped(p, ground, spawn, input), s, input)
}

/// The player after the movement and collision stages of each tick of
/// `inputs` in turn.
pub open spec fn stepped_all(p: Player, ground: Seq<GroundBox>, spawn: Vector2, inputs: Seq<InputState>) -> Player
    decreases inputs.len(),
{
    if inputs.len() == 0 {
        p
    } else {
        stepped_all(stepped(p, ground, spawn, inputs[0]), ground, spawn, inputs.subrange(1, inputs.len() as int))
    }
}

/// `p` with its run timer cleared.
pub open spec fn without_run_timer(p: Player) -> Player {
    Player { run_timer: 0, ..p }
}

/// Two input frames that differ at most in left and right.
pub open spec fn same_but_direction(a: InputState, b: InputState) -> bool {
    a.jump == b.jump && a.save == b.save && a.load == b.load
}

/// Ticks for which horizontal speed is locked from this tick on: a full wall
/// jump's if one starts now, else what the timer has left.
pub open spec fn lock_ticks(p: Player, input: InputState) -> int {
    if starts_wall_jump(p, input) { WALL_JUMP_TICKS as int } else { p.wall_jump_timer as int }
}

/// A tick in which the moved player overlaps no box and no checkpoint is
/// loaded leaves the player airborne, its vertical speed lowered by gravity
/// (by half of it while sliding down a wall). Left out are the ticks that
/// start a jump or a wall jump, which set the vertical speed, and those in
/// which the jump button is up and the speed would stay non-negative, which
/// halve it.
pub proof fn lemma_free_fall(p: Player, s: SavePoint, ground: Seq<GroundBox>, spawn: Vector2, input: InputState)
    requires
        p.in_bounds(),
        !input.load.just_pressed,
        forall|i: int| 0 <= i < ground.len() ==> (#[trigger] contact(moved(p, input), ground[i])) is None,
        !starts_jump(p, input),
        !starts_wall_jump(p, input),
        input.jump.pressed || p.velocity.y - gravity_in(p.state) < 0,
    ensures
        ticked(p, s, ground, spawn, input).0.state == PlayerState::Jumping,
        ticked(p, s, ground, spawn, input).0.velocity.y == p.velocity.y - gravity_in(p.state),
{
    lemma_untouched(moved(p, input), ground, spawn);
}

/// A tick whose movement brings the player onto the top of the safe box
/// `ground[k]`, where no other box touches the player before or after the
/// landing and no checkpoint is loaded, ends with the player resting exactly
/// on that box, grounded, with a vertical speed that is not negative.
pub proof fn lemma_landing_tick(p: Player, s: SavePoint, ground: Seq<GroundBox>, spawn: Vector2, input: InputState, k: int)
    requires
        p.in_bounds(),
        0 <= k < ground.len(),
        ground[k].in_bounds(),
        !ground[k].death_plane,
        !input.load.just_pressed,
        contact(moved(p, input), ground[k]) == Some(Collision::Top),
        forall|m: int| 0 <= m < k ==> (#[trigger] contact(moved(p, input), ground[m])) is None,
        forall|m: int|
            k < m < ground.len() ==> (#[trigger] contact(after_box(moved(p, input), ground[k], spawn), ground[m])) is None,
    ensures
        ticked(p, s, ground, spawn, input).0.position.y == ground[k].position.y + ground[k].half_size.y + p.half_size.y,
        ticked(p, s, ground, spawn, input).0.velocity.y >= 0,
        ticked(p, s, ground, spawn, input).0.state == PlayerState::Grounded,
{
    lemma_landing_in_level(moved(p, input), ground, spawn, k);
}

/// Once a wall jump starts, and for as long as its lock runs (at most
/// `WALL_JUMP_TICKS` ticks, the jump's own included), left and right input
/// change nothing but the run timer: two runs from the same player, whose
/// inputs differ only in left and right, end with the same position,
/// velocity, state and wall-jump timer.
pub proof fn lemma_wall_jump_lock(
    pa: Player,
    pb: Player,
    ground: Seq<GroundBox>,
    spawn: Vector2,
    a: Seq<InputState>,
    b: Seq<InputState>,
)
    requires
        without_run_timer(pa) == without_run_timer(pb),
        a.len() == b.len(),
        a.len() <= WALL_JUMP_TICKS,
        a.len() > 0 ==> a.len() <= lock_ticks(pa, a[0]),
        forall|i: int| 0 <= i < a.len() ==> same_but_direction(#[trigger] a[i], b[i]),
    ensures
        without_run_timer(stepped_all(pa, ground, spawn, a)) == without_run_timer(stepped_all(pb, ground, spawn, b)),
    decreases a.len(),
{
    if a.len() > 0 {
        let ma = moved(pa, a[0]);
        let mb = moved(pb, b[0]);
        assert(same_but_direction(a[0], b[0]));
        assert(without_run_timer(ma) == without_run_timer(mb));
        let base = without_run_timer(ma);
        lemma_collision_timers(base, ma.run_timer, ground, spawn);
        lemma_collision_timers(base, mb.run_timer, ground, spawn);
        assert(ma == (Player { run_timer: ma.run_timer, ..base }));
        assert(mb == (Player { run_timer: mb.run_timer, ..base }));
        let qa = stepped(pa, ground, spawn, a[0]);
        let qb = stepped(pb, ground, spawn, b[0]);
        assert(without_run_timer(qa) == without_run_timer(qb));
        lemma_collision_timers(ma, 0, ground, spawn);
        assert(qa.wall_jump_timer == lock_ticks(pa, a[0]) - 1);
        let ra = a.subrange(1, a.len() as int);
        let rb = b.subrange(1, b.len() as int);
        assert forall|i: int| 0 <= i < ra.len() implies same_but_direction(#[trigger] ra[i], rb[i]) by {
            assert(ra[i] == a[i + 1]);
            assert(rb[i] == b[i + 1]);
        }
        lemma_wall_jump_lock(qa, qb, ground, spawn, ra, rb);
    }
}

impl Game {
    /// A level at its start: the player at rest at `spawn` and airborne, the
    /// slot at its default.
    pub fn new(player_half_size: Vector2, ground: Vec<GroundBox>, spawn: Vector2) -> (r: Game)
        ensures
            r.player == fresh_player(spawn, player_half_size),
            r.save_point == initial_save_point(),
            r.ground@ == ground@,
            r.spawn == spawn,
    {
        Game { player: Player::new(spawn, player_half_size), save_point: SavePoint::new(), ground, spawn }
    }

    /// The bounds under which a tick cannot overflow.
    pub open spec fn in_bounds(self) -> bool {
        &&& self.player.in_bounds()
        &&& level_in_bounds(self.ground@)
        &&& self.spawn.within(1)
    }

    /// Tells whether the level is within the bounds that `tick` asks for.
    pub fn is_in_bounds(&self) -> (r: bool)
        ensures
            r == self.in_bounds(),
    {
        if !self.player.is_in_bounds() || !self.spawn.is_within_limit() {
            return false;
        }
        let mut i: usize = 0;
        while i < self.ground.len()
            invariant
                i <= self.ground.len(),
                forall|j: int| 0 <= j < i ==> #[trigger] self.ground@[j].in_bounds(),
            decreases self.ground.len() - i,
        {
            if !self.ground[i].is_in_bounds() {
                return false;
            }
            i = i + 1;
        }
        true
    }

    /// Runs one tick: movement, collision, then checkpoint.
    pub fn tick(&mut self, input: &InputState)
        requires
            old(self).in_bounds(),
        ensures
            final(self).ground@ == old(self).ground@,
            final(self).spawn == old(self).spawn,
            (final(self).player, final(self).save_point) == ticked(
                old(self).player,
                old(self).save_point,
                old(self).ground@,
                old(self).spawn,
                *input,
            ),
    {
        self.player.movement(input);
        self.player.collision_check(&self.ground, self.spawn);
        savepoint(&mut self.player, &mut self.save_point, input);
    }
}

} // verus!
