//! Resolution of the player against the static geometry, and the contact
//! rules of the movement state machine.
use vstd::prelude::*;
use crate::geometry::{Vector2, Collision, collide, collision_of, COORD_LIMIT};
use crate::player::{Player, PlayerState};

verus! {

/// Horizontal speed that pushes the player off a wall it touched.
pub const WALL_NUDGE: i64 = 100;

/// A static box of the level: center, half-extents, and whether touching it
/// kills the player.
#[derive(Clone, Copy, Debug, PartialEq, Eq, Structural)]
pub struct GroundBox {
    pub position: Vector2,
    pub half_size: Vector2,
    pub death_plane: bool,
}

impl GroundBox {
    pub fn new(position: Vector2, half_size: Vector2, death_plane: bool) -> (r: GroundBox)
        ensures
            r.position == position,
            r.half_size == half_size,
            r.death_plane == death_plane,
    {
        GroundBox { position, half_size, death_plane }
    }

    /// Center within `COORD_LIMIT`, half-extents within `[0, COORD_LIMIT]`.
    pub open spec fn in_bounds(self) -> bool {
        &&& self.position.within(1)
        &&& self.half_size.within(1)
        &&& self.half_size.x >= 0
        &&& self.half_size.y >= 0
    }
}

impl GroundBox {
    pub fn is_in_bounds(&self) -> (r: bool)
        ensures
            r == self.in_bounds(),
    {
        self.position.is_within_limit() && self.half_size.is_within_limit() && self.half_size.x >= 0
            && self.half_size.y >= 0
    }
}

/// Every box of the level is within bounds.
pub open spec fn level_in_bounds(ground: Seq<GroundBox>) -> bool {
    forall|i: int| 0 <= i < ground.len() ==> #[trigger] ground[i].in_bounds()
}

/// The side of `g` on which the player touches it, if any.
pub open spec fn contact(p: Player, g: GroundBox) -> Option<Collision> {
    collision_of(p.position, p.half_size, g.position, g.half_size)
}

/// Scales a speed by 4/5, rounding towards zero.
pub open spec fn damped(v: int) -> int {
    if v >= 0 { v * 4 / 5 } else { -((-v) * 4 / 5) }
}

/// The player sent back to `spawn`: at rest and airborne.
pub open spec fn respawned(p: Player, spawn: Vector2) -> Player {
    Player { position: spawn, velocity: Vector2 { x: 0, y: 0 }, state: PlayerState::Jumping, ..p }
}

/// The player moved out of `g` along `side` of it, with the speed and state
/// that contact on that side gives.
pub open spec fn pushed_out(p: Player, g: GroundBox, side: Collision) -> Player {
    match side {
        Collision::Top => Player {
            position: Vector2 { x: p.position.x, y: (g.position.y + g.half_size.y + p.half_size.y) as i64 },
            velocity: Vector2 { x: p.velocity.x, y: if p.velocity.y < 0 { 0 } else { p.velocity.y } },
            state: PlayerState::Grounded,
            ..p
        },
        Collision::Bottom => Player {
            position: Vector2 { x: p.position.x, y: (g.position.y - g.half_size.y - p.half_size.y) as i64 },
            velocity: Vector2 { x: p.velocity.x, y: if p.velocity.y > 0 { 0 } else { p.velocity.y } },
            ..p
        },
        Collision::Left => Player {
            position: Vector2 { x: (g.position.x - g.half_size.x - p.half_size.x) as i64, y: p.position.y },
            velocity: Vector2 { x: WALL_NUDGE, y: damped(p.velocity.y as int) as i64 },
            state: PlayerState::WallSliding,
            ..p
        },
        Collision::Right => Player {
            position: Vector2 { x: (g.position.x + g.half_size.x + p.half_size.x) as i64, y: p.position.y },
            velocity: Vector2 { x: (-WALL_NUDGE) as i64, y: damped(p.velocity.y as int) as i64 },
            state: PlayerState::WallSliding,
            ..p
        },
    }
}

/// The player after being checked against one box.
pub open spec fn after_box(p: Player, g: GroundBox, spawn: Vector2) -> Player {
    match contact(p, g) {
        None => p,
        Some(side) => if g.death_plane { respawned(p, spawn) } else { pushed_out(p, g, side) },
    }
}

/// The player lands on top of `g`.
pub open spec fn lands_on(p: Player, g: GroundBox) -> bool {
    !g.death_plane && contact(p, g) == Some(Collision::Top)
}

/// The player touches a side of `g`.
pub open spec fn hits_wall_of(p: Player, g: GroundBox) -> bool {
    !g.death_plane && (contact(p, g) == Some(Collision::Left) || contact(p, g) == Some(Collision::Right))
}

/// The player after checking the boxes of `ground` in order, each against
/// the player as the earlier ones left it, with whether any landing and any
/// wall contact happened on the way.
pub open spec fn resolve_in_order(p: Player, ground: Seq<GroundBox>, spawn: Vector2) -> (Player, bool, bool)
    decreases ground.len(),
{
    if ground.len() == 0 {
        (p, false, false)
    } else {
        let (q, landed, walled) = resolve_in_order(p, ground.drop_last(), spawn);
        let g = ground.last();
        (after_box(q, g, spawn), landed || lands_on(q, g), walled || hits_wall_of(q, g))
    }
}

/// The player after the collision stage: resolved against every box in
/// order, and airborne if it neither landed nor touched a wall.
pub open spec fn collided(p: Player, ground: Seq<GroundBox>, spawn: Vector2) -> Player {
    let (q, landed, walled) = resolve_in_order(p, ground, spawn);
    if !landed && !walled { Player { state: PlayerState::Jumping, ..q } } else { q }
}

fn damp(v: i64) -> (r: i64)
    requires
        -2 * COORD_LIMIT <= v <= 2 * COORD_LIMIT,
    ensures
        r == damped(v as int),
{
    if v >= 0 { v * 4 / 5 } else { -((-v) * 4 / 5) }
}

/// Checks the player against one box; returns whether it landed on it and
/// whether it touched one of its sides.
fn resolve_box(player: &mut Player, g: &GroundBox, spawn: Vector2) -> (r: (bool, bool))
    requires
        old(player).in_tick_bounds(),
        g.in_bounds(),
        spawn.within(1),
    ensures
        *final(player) == after_box(*old(player), *g, spawn),
        r.0 == lands_on(*old(player), *g),
        r.1 == hits_wall_of(*old(player), *g),
        final(player).in_tick_bounds(),
{
    let p = *player;
    let collision = collide(p.position, p.half_size, g.position, g.half_size);
    match collision {
        None => (false, false),
        Some(side) => {
            if g.death_plane {
                *player = Player { position: spawn, velocity: Vector2::zero(), state: PlayerState::Jumping, ..p };
                (false, false)
            } else {
                match side {
                    Collision::Top => {
                        *player = Player {
                            position: Vector2 { x: p.position.x, y: g.position.y + g.half_size.y + p.half_size.y },
                            velocity: Vector2 { x: p.velocity.x, y: if p.velocity.y < 0 { 0 } else { p.velocity.y } },
                            state: PlayerState::Grounded,
                            ..p
                        };
                        (true, false)
                    },
                    Collision::Bottom => {
                        *player = Player {
                            position: Vector2 { x: p.position.x, y: g.position.y - g.half_size.y - p.half_size.y },
                            velocity: Vector2 { x: p.velocity.x, y: if p.velocity.y > 0 { 0 } else { p.velocity.y } },
                            ..p
                        };
                        (false, false)
                    },
                    Collision::Left => {
                        *player = Player {
                            position: Vector2 { x: g.position.x - g.half_size.x - p.half_size.x, y: p.position.y },
                            velocity: Vector2 { x: WALL_NUDGE, y: damp(p.velocity.y) },
                            state: PlayerState::WallSliding,
                            ..p
                        };
                        (false, true)
                    },
                    Collision::Right => {
                        *player = Player {
                            position: Vector2 { x: g.position.x + g.half_size.x + p.half_size.x, y: p.position.y },
                            velocity: Vector2 { x: -WALL_NUDGE, y: damp(p.velocity.y) },
                            state: PlayerState::WallSliding,
                            ..p
                        };
                        (false, true)
                    },
                }
            }
        },
    }
}

/// A player that touches the top of a safe box ends up resting exactly on
/// it, grounded, with a vertical speed that is not negative: a fall stops
/// dead. In a level of that one box, the collision stage ends the same way.
pub proof fn lemma_landing(p: Player, g: GroundBox, spawn: Vector2)
    requires
        p.half_size.within(1),
        g.in_bounds(),
        !g.death_plane,
        contact(p, g) == Some(Collision::Top),
    ensures
        after_box(p, g, spawn).position.y == g.position.y + g.half_size.y + p.half_size.y,
        after_box(p, g, spawn).velocity.y >= 0,
        p.velocity.y < 0 ==> after_box(p, g, spawn).velocity.y == 0,
        after_box(p, g, spawn).state == PlayerState::Grounded,
        collided(p, seq![g], spawn) == after_box(p, g, spawn),
{
    assert(seq![g].drop_last() =~= Seq::<GroundBox>::empty());
    assert(resolve_in_order(p, seq![g].drop_last(), spawn) == (p, false, false));
    assert(seq![g].last() == g);
}

/// Landing in a level of any size: when the player touches the top of the
/// safe box `ground[k]`, no box before it touches the player, and no box
/// after it touches the player as the landing left it, the collision stage
/// ends with the player resting exactly on that box, grounded, with the same
/// horizontal position and speed and a vertical speed that is not negative.
pub proof fn lemma_landing_in_level(p: Player, ground: Seq<GroundBox>, spawn: Vector2, k: int)
    requires
        0 <= k < ground.len(),
        p.half_size.within(1),
        ground[k].in_bounds(),
        !ground[k].death_plane,
        contact(p, ground[k]) == Some(Collision::Top),
        forall|m: int| 0 <= m < k ==> (#[trigger] contact(p, ground[m])) is None,
        forall|m: int| k < m < ground.len() ==> (#[trigger] contact(after_box(p, ground[k], spawn), ground[m])) is None,
    ensures
        collided(p, ground, spawn) == after_box(p, ground[k], spawn),
        collided(p, ground, spawn).position.y == ground[k].position.y + ground[k].half_size.y + p.half_size.y,
        collided(p, ground, spawn).position.x == p.position.x,
        collided(p, ground, spawn).velocity.x == p.velocity.x,
        collided(p, ground, spawn).velocity.y >= 0,
        p.velocity.y < 0 ==> collided(p, ground, spawn).velocity.y == 0,
        collided(p, ground, spawn).state == PlayerState::Grounded,
{
    let g = ground[k];
    let landed = after_box(p, g, spawn);
    assert(ground.subrange(0, 0) =~= Seq::<GroundBox>::empty());
    assert(resolve_in_order(p, ground.subrange(0, 0), spawn) == (p, false, false));
    lemma_untouched_range(p, ground, spawn, 0, k);
    assert(ground.subrange(0, k + 1).drop_last() =~= ground.subrange(0, k));
    assert(ground.subrange(0, k + 1).last() == g);
    assert(resolve_in_order(p, ground.subrange(0, k + 1), spawn) == (landed, true, false));
    lemma_untouched_range(p, ground, spawn, k + 1, ground.len() as int);
    assert(ground.subrange(0, ground.len() as int) =~= ground);
    lemma_landing(p, g, spawn);
}

/// Boxes `i..j` that do not touch the player, as the boxes before `i` left
/// it, change neither the player nor the contact flags.
proof fn lemma_untouched_range(p: Player, ground: Seq<GroundBox>, spawn: Vector2, i: int, j: int)
    requires
        0 <= i <= j <= ground.len(),
        forall|m: int|
            i <= m < j ==> (#[trigger] contact(resolve_in_order(p, ground.subrange(0, i), spawn).0, ground[m])) is None,
    ensures
        resolve_in_order(p, ground.subrange(0, j), spawn) == resolve_in_order(p, ground.subrange(0, i), spawn),
    decreases j - i,
{
    if j > i {
        lemma_untouched_range(p, ground, spawn, i, j - 1);
        assert(ground.subrange(0, j).drop_last() =~= ground.subrange(0, j - 1));
        assert(ground.subrange(0, j).last() == ground[j - 1]);
        assert(contact(resolve_in_order(p, ground.subrange(0, i), spawn).0, ground[j - 1]) is None);
    }
}

/// Touching a lethal box sends the player back to `spawn`, at rest and
/// airborne, whatever its state and speed were; checking the same box again
/// changes nothing further.
pub proof fn lemma_death_reset(p: Player, g: GroundBox, spawn: Vector2)
    requires
        g.death_plane,
        contact(p, g) is Some,
    ensures
        after_box(p, g, spawn).position == spawn,
        after_box(p, g, spawn).velocity == (Vector2 { x: 0, y: 0 }),
        after_box(p, g, spawn).state == PlayerState::Jumping,
        after_box(after_box(p, g, spawn), g, spawn) == after_box(p, g, spawn),
{
}

/// When the last box of the level is lethal and the player, as the earlier
/// boxes left it, touches it, the collision stage ends with the player at
/// `spawn`, at rest and airborne.
pub proof fn lemma_death_reset_last(p: Player, ground: Seq<GroundBox>, spawn: Vector2)
    requires
        ground.len() > 0,
        ground.last().death_plane,
        contact(resolve_in_order(p, ground.drop_last(), spawn).0, ground.last()) is Some,
    ensures
        collided(p, ground, spawn).position == spawn,
        collided(p, ground, spawn).velocity == (Vector2 { x: 0, y: 0 }),
        collided(p, ground, spawn).state == PlayerState::Jumping,
{
}

/// A player that touches no box of the level goes through the collision
/// stage unchanged but for its state, which becomes airborne.
pub proof fn lemma_untouched(p: Player, ground: Seq<GroundBox>, spawn: Vector2)
    requires
        forall|i: int| 0 <= i < ground.len() ==> (#[trigger] contact(p, ground[i])) is None,
    ensures
        resolve_in_order(p, ground, spawn) == (p, false, false),
        collided(p, ground, spawn) == (Player { state: PlayerState::Jumping, ..p }),
    decreases ground.len(),
{
    if ground.len() > 0 {
        let rest = ground.drop_last();
        assert forall|i: int| 0 <= i < rest.len() implies (#[trigger] contact(p, rest[i])) is None by {
            assert(rest[i] == ground[i]);
        }
        lemma_untouched(p, rest, spawn);
        assert(contact(p, ground[ground.len() - 1]) is None);
    }
}

/// The collision stage leaves both timers as they were, and does not read
/// the run timer: with another run timer it gives the same player with that
/// run timer.
pub proof fn lemma_collision_timers(p: Player, t: u64, ground: Seq<GroundBox>, spawn: Vector2)
    ensures
        collided(p, ground, spawn).run_timer == p.run_timer,
        collided(p, ground, spawn).wall_jump_timer == p.wall_jump_timer,
        collided(Player { run_timer: t, ..p }, ground, spawn)
            == (Player { run_timer: t, ..collided(p, ground, spawn) }),
{
    lemma_resolve_timers(p, t, ground, spawn);
}

proof fn lemma_resolve_timers(p: Player, t: u64, ground: Seq<GroundBox>, spawn: Vector2)
    ensures
        resolve_in_order(p, ground, spawn).0.run_timer == p.run_timer,
        resolve_in_order(p, ground, spawn).0.wall_jump_timer == p.wall_jump_timer,
        resolve_in_order(Player { run_timer: t, ..p }, ground, spawn) == ({
            let (q, landed, walled) = resolve_in_order(p, ground, spawn);
            (Player { run_timer: t, ..q }, landed, walled)
        }),
    decreases ground.len(),
{
    if ground.len() > 0 {
        lemma_resolve_timers(p, t, ground.drop_last(), spawn);
    }
}

impl Player {
    /// Collision stage of a tick: checks the player against every box of
    /// the level in order. A lethal box sends the player back to `spawn`; a
    /// later box may still move it. Without any landing or wall contact the
    /// player ends the stage airborne.
    pub fn collision_check(&mut self, ground: &Vec<GroundBox>, spawn: Vector2)
        requires
            old(self).in_tick_bounds(),
            level_in_bounds(ground@),
            spawn.within(1),
        ensures
            *final(self) == collided(*old(self), ground@, spawn),
            final(self).in_tick_bounds(),
    {
        let ghost start = *self;
        let mut landed = false;
        let mut walled = false;
        let mut i: usize = 0;
        while i < ground.len()
            invariant
                i <= ground.len(),
                level_in_bounds(ground@),
                spawn.within(1),
                self.in_tick_bounds(),
                (*self, landed, walled) == resolve_in_order(start, ground@.subrange(0, i as int), spawn),
            decreases ground.len() - i,
        {
            assert(ground@.subrange(0, i + 1).drop_last() == ground@.subrange(0, i as int));
            assert(ground@[i as int].in_bounds());
            let (l, w) = resolve_box(self, &ground[i], spawn);
            landed = landed || l;
            walled = walled || w;
            i = i + 1;
        }
        assert(ground@.subrange(0, ground.len() as int) == ground@);
        if !landed && !walled {
            self.state = PlayerState::Jumping;
        }
    }
}

} // verus!
