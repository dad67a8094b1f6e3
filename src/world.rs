use vstd::prelude::*;

use crate::geometry::{collide, collision_of, Rect, Side, Vec2};
use crate::level::{
    brick_at, brick_grid, brick_layout_spec, level_walls, level_walls_spec, Collider, ColliderKind, MARIO_HALF_X, MARIO_HALF_Y, MARIO_START_X,
    MARIO_START_Y, PADDLE_Y,
};
use crate::motion::{
    apply_input, can_integrate, input_spec, integrate, integrate_in_range, integrate_spec,
    move_paddle, paddle_spec, Actor, Input, MARIO_XSPEED,
};

verus! {

/// Why a step was refused.
#[derive(Clone, Copy, Debug, PartialEq, Eq, Structural)]
pub enum StepError {
    /// The actor would leave the representable range of coordinates or speeds.
    OutOfRange,
}

/// The whole simulated state: the jumping actor, the paddle, the live
/// colliders in registry order, the score and the number of collisions
/// signalled during the last step.
#[derive(Debug)]
pub struct World {
    pub actor: Actor,
    pub paddle: Rect,
    pub colliders: Vec<Collider>,
    pub score: usize,
    pub collision_events: usize,
    pub paddle_movement_enabled: bool,
}

/// The actor after striking a wall on `side`: a speed pointing into the wall
/// is stopped on that axis; landing on a top face also clears the jump flag.
pub open spec fn wall_response(a: Actor, side: Side) -> Actor {
    match side {
        Side::Left => if a.velocity.x > 0 {
            Actor { velocity: Vec2 { x: 0, ..a.velocity }, ..a }
        } else {
            a
        },
        Side::Right => if a.velocity.x < 0 {
            Actor { velocity: Vec2 { x: 0, ..a.velocity }, ..a }
        } else {
            a
        },
        Side::Top => if a.velocity.y < 0 {
            Actor { velocity: Vec2 { y: 0, ..a.velocity }, is_jumping: false, ..a }
        } else {
            a
        },
        Side::Bottom => if a.velocity.y > 0 {
            Actor { velocity: Vec2 { y: 0, ..a.velocity }, ..a }
        } else {
            a
        },
        Side::Inside => a,
    }
}

/// The actor after being tested against one collider: bricks never change
/// it, walls change it by `wall_response`.
pub open spec fn after_collider(a: Actor, c: Collider) -> Actor {
    match collision_of(a.rect, c.rect) {
        Some(side) => if c.kind == ColliderKind::Brick {
            a
        } else {
            wall_response(a, side)
        },
        None => a,
    }
}

/// The actor after being tested against each collider of `cs` in order.
pub open spec fn actor_after(a: Actor, cs: Seq<Collider>) -> Actor
    decreases cs.len(),
{
    if cs.len() == 0 {
        a
    } else {
        after_collider(actor_after(a, cs.drop_last()), cs.last())
    }
}

pub open spec fn is_hit(r: Rect, c: Collider) -> bool {
    collision_of(r, c.rect) is Some
}

pub open spec fn is_brick_hit(r: Rect, c: Collider) -> bool {
    c.kind == ColliderKind::Brick && is_hit(r, c)
}

/// The colliders of `cs` that a rectangle at `r` leaves in place: all but
/// the bricks it overlaps, in their order.
pub open spec fn survivors(r: Rect, cs: Seq<Collider>) -> Seq<Collider>
    decreases cs.len(),
{
    if cs.len() == 0 {
        Seq::empty()
    } else if is_brick_hit(r, cs.last()) {
        survivors(r, cs.drop_last())
    } else {
        survivors(r, cs.drop_last()).push(cs.last())
    }
}

/// How many colliders of `cs` a rectangle at `r` overlaps.
pub open spec fn hit_count(r: Rect, cs: Seq<Collider>) -> nat
    decreases cs.len(),
{
    if cs.len() == 0 {
        0
    } else {
        hit_count(r, cs.drop_last()) + if is_hit(r, cs.last()) {
            1nat
        } else {
            0nat
        }
    }
}

/// How many bricks of `cs` a rectangle at `r` overlaps.
pub open spec fn brick_hit_count(r: Rect, cs: Seq<Collider>) -> nat
    decreases cs.len(),
{
    if cs.len() == 0 {
        0
    } else {
        brick_hit_count(r, cs.drop_last()) + if is_brick_hit(r, cs.last()) {
            1nat
        } else {
            0nat
        }
    }
}

/// The paddle takes part in collisions as a wall.
pub open spec fn paddle_wall(p: Rect) -> Collider {
    Collider { rect: p, kind: ColliderKind::Wall }
}

/// The actor after the collision pass: first against the paddle, then
/// against each live collider.
pub open spec fn collided_actor(a: Actor, paddle: Rect, cs: Seq<Collider>) -> Actor {
    actor_after(after_collider(a, paddle_wall(paddle)), cs)
}

/// Collisions signalled by one pass.
pub open spec fn collision_signals(a: Actor, paddle: Rect, cs: Seq<Collider>) -> nat {
    (if is_hit(a.rect, paddle_wall(paddle)) {
        1nat
    } else {
        0nat
    }) + hit_count(a.rect, cs)
}

/// The actor at the end of a full step: input, integration, collisions.
pub open spec fn stepped_actor(w: World, input: Input, dt: i64) -> Actor {
    collided_actor(
        integrate_spec(input_spec(w.actor, input), dt),
        paddle_spec(w.paddle, input, dt, w.paddle_movement_enabled),
        w.colliders@,
    )
}

/// A step with these keys and this `dt` stays in range.
pub open spec fn step_in_range(w: World, input: Input, dt: i64) -> bool {
    integrate_in_range(input_spec(w.actor, input), dt)
}

impl World {
    /// Every rectangle is well formed, and the score plus the number of live
    /// colliders leaves room for one more count.
    pub open spec fn wf(self) -> bool {
        &&& self.actor.wf()
        &&& self.paddle.wf()
        &&& forall|i: int| 0 <= i < self.colliders@.len() ==> (#[trigger] self.colliders@[i]).wf()
        &&& self.score + self.colliders@.len() < usize::MAX
    }

    /// A world with the given actor, paddle and colliders, no score and no
    /// collisions signalled yet.
    pub fn new(
        actor: Actor,
        paddle: Rect,
        colliders: Vec<Collider>,
        paddle_movement_enabled: bool,
    ) -> (r: World)
        requires
            actor.wf(),
            paddle.wf(),
            forall|i: int| 0 <= i < colliders@.len() ==> (#[trigger] colliders@[i]).wf(),
            colliders@.len() < usize::MAX,
        ensures
            r.wf(),
            r.actor == actor,
            r.paddle == paddle,
            r.colliders@ == colliders@,
            r.score == 0,
            r.collision_events == 0,
            r.paddle_movement_enabled == paddle_movement_enabled,
    {
        World { actor, paddle, colliders, score: 0, collision_events: 0, paddle_movement_enabled }
    }

    /// Tests the actor against the paddle and then every live collider in
    /// order. Each overlap is signalled; an overlapped brick scores one point
    /// and is removed; an overlapped wall changes the actor by `wall_response`.
    pub fn check_for_collisions(&mut self)
        requires
            old(self).wf(),
        ensures
            final(self).wf(),
            final(self).actor == collided_actor(
                old(self).actor,
                old(self).paddle,
                old(self).colliders@,
            ),
            final(self).colliders@ == survivors(old(self).actor.rect, old(self).colliders@),
            final(self).score == old(self).score + brick_hit_count(
                old(self).actor.rect,
                old(self).colliders@,
            ),
            final(self).collision_events == collision_signals(
                old(self).actor,
                old(self).paddle,
                old(self).colliders@,
            ),
            final(self).paddle == old(self).paddle,
            final(self).paddle_movement_enabled == old(self).paddle_movement_enabled,
    {
        let ghost cs = self.colliders@;
        let ghost r = self.actor.rect;
        let ghost score0 = self.score;
        let ghost p0 = self.paddle;
        let ghost enabled0 = self.paddle_movement_enabled;
        let mut events: usize = 0;
        match collide(&self.actor.rect, &self.paddle) {
            Some(side) => {
                events = 1;
                respond_to_wall(&mut self.actor, side);
            },
            None => {},
        }
        let ghost start = self.actor;
        let mut kept: Vec<Collider> = Vec::new();
        let n = self.colliders.len();
        let mut i: usize = 0;
        while i < n
            invariant
                n == cs.len(),
                self.colliders@ == cs,
                0 <= i <= n,
                self.actor.rect == r,
                self.actor == actor_after(start, cs.take(i as int)),
                self.actor.wf(),
                self.paddle == p0,
                self.paddle_movement_enabled == enabled0,
                p0.wf(),
                forall|j: int| 0 <= j < cs.len() ==> (#[trigger] cs[j]).wf(),
                kept@ == survivors(r, cs.take(i as int)),
                kept@.len() + brick_hit_count(r, cs.take(i as int)) == i,
                self.score == score0 + brick_hit_count(r, cs.take(i as int)),
                events as int == (if is_hit(r, paddle_wall(self.paddle)) {
                    1int
                } else {
                    0int
                }) + hit_count(r, cs.take(i as int)),
                score0 + cs.len() < usize::MAX,
                hit_count(r, cs.take(i as int)) <= i,
                forall|j: int| 0 <= j < kept@.len() ==> (#[trigger] kept@[j]).wf(),
            decreases n - i,
        {
            let c = self.colliders[i];
            proof {
                assert(cs.take(i + 1).drop_last() =~= cs.take(i as int));
                assert(cs.take(i + 1).last() == cs[i as int]);
            }
            match collide(&self.actor.rect, &c.rect) {
                Some(side) => {
                    events = events + 1;
                    match c.kind {
                        ColliderKind::Brick => {
                            self.score = self.score + 1;
                        },
                        ColliderKind::Wall => {
                            respond_to_wall(&mut self.actor, side);
                            kept.push(c);
                        },
                    }
                },
                None => {
                    kept.push(c);
                },
            }
            i = i + 1;
        }
        proof {
            assert(cs.take(n as int) =~= cs);
        }
        self.colliders = kept;
        self.collision_events = events;
    }

    /// One fixed step: the paddle and the actor read the held keys, the actor
    /// is integrated over `dt`, then the collision pass runs. Refused, with
    /// the world left as it was, exactly when integration would leave the
    /// representable range.
    pub fn tick(&mut self, input: &Input, dt: i64) -> (r: Result<(), StepError>)
        requires
            old(self).wf(),
        ensures
            final(self).wf(),
            r is Ok <==> step_in_range(*old(self), *input, dt),
            r is Err ==> *final(self) == *old(self),
            r is Ok ==> {
                let p = paddle_spec(
                    old(self).paddle,
                    *input,
                    dt,
                    old(self).paddle_movement_enabled,
                );
                let moved = integrate_spec(input_spec(old(self).actor, *input), dt);
                &&& final(self).actor == stepped_actor(*old(self), *input, dt)
                &&& final(self).paddle == p
                &&& final(self).colliders@ == survivors(moved.rect, old(self).colliders@)
                &&& final(self).score == old(self).score + brick_hit_count(
                    moved.rect,
                    old(self).colliders@,
                )
                &&& final(self).collision_events == collision_signals(
                    moved,
                    p,
                    old(self).colliders@,
                )
                &&& final(self).paddle_movement_enabled == old(self).paddle_movement_enabled
            },
    {
        let mut next = self.actor;
        apply_input(&mut next, input);
        if !can_integrate(&next, dt) {
            return Err(StepError::OutOfRange);
        }
        move_paddle(&mut self.paddle, input, dt, self.paddle_movement_enabled);
        integrate(&mut next, dt);
        self.actor = next;
        self.check_for_collisions();
        Ok(())
    }
}

/// Stops the actor's speed into a wall struck on `side`.
pub fn respond_to_wall(actor: &mut Actor, side: Side)
    ensures
        *final(actor) == wall_response(*old(actor), side),
{
    match side {
        Side::Left => {
            if actor.velocity.x > 0 {
                actor.velocity.x = 0;
            }
        },
        Side::Right => {
            if actor.velocity.x < 0 {
                actor.velocity.x = 0;
            }
        },
        Side::Top => {
            if actor.velocity.y < 0 {
                actor.velocity.y = 0;
                actor.is_jumping = false;
            }
        },
        Side::Bottom => {
            if actor.velocity.y > 0 {
                actor.velocity.y = 0;
            }
        },
        Side::Inside => {},
    }
}

/// The actor as the level starts it: at its starting place, walking left,
/// on the ground.
pub open spec fn start_actor() -> Actor {
    Actor {
        rect: Rect {
            center: Vec2 { x: MARIO_START_X, y: MARIO_START_Y },
            half: Vec2 { x: MARIO_HALF_X, y: MARIO_HALF_Y },
        },
        velocity: Vec2 { x: (-MARIO_XSPEED) as i64, y: 0 },
        is_jumping: false,
    }
}

/// The paddle as the level places it.
pub open spec fn start_paddle() -> Rect {
    Rect { center: Vec2 { x: 0, y: PADDLE_Y }, half: Vec2 { x: MARIO_HALF_X, y: MARIO_HALF_Y } }
}

impl World {
    /// The level: the actor and the paddle at their starting places, the
    /// walls, then the brick grid when `bricks_enabled`.
    pub fn level(paddle_movement_enabled: bool, bricks_enabled: bool) -> (r: World)
        ensures
            r.wf(),
            r.actor == start_actor(),
            r.paddle == start_paddle(),
            r.score == 0,
            r.collision_events == 0,
            r.paddle_movement_enabled == paddle_movement_enabled,
            r.colliders@.len() == level_walls_spec().len() + if bricks_enabled {
                brick_layout_spec().n_rows * brick_layout_spec().n_columns
            } else {
                0
            },
            r.colliders@.take(level_walls_spec().len() as int) == level_walls_spec(),
            forall|k: int|
                0 <= k < r.colliders@.len() - level_walls_spec().len() ==> #[trigger] r.colliders@[k
                    + level_walls_spec().len()] == brick_at(
                    k / (brick_layout_spec().n_columns as int),
                    k % (brick_layout_spec().n_columns as int),
                ),
    {
        let actor = Actor {
            rect: Rect {
                center: Vec2 { x: MARIO_START_X, y: MARIO_START_Y },
                half: Vec2 { x: MARIO_HALF_X, y: MARIO_HALF_Y },
            },
            velocity: Vec2 { x: -MARIO_XSPEED, y: 0 },
            is_jumping: false,
        };
        let paddle = Rect {
            center: Vec2 { x: 0, y: PADDLE_Y },
            half: Vec2 { x: MARIO_HALF_X, y: MARIO_HALF_Y },
        };
        let mut colliders = level_walls();
        let mut bricks = brick_grid(bricks_enabled);
        let ghost walls = colliders@;
        let ghost grid = bricks@;
        colliders.append(&mut bricks);
        proof {
            assert(brick_layout_spec().n_rows * brick_layout_spec().n_columns == 34 * 57);
            assert(colliders@.len() <= 8 + 34 * 57);
            assert(colliders@ == walls + grid);
            assert(colliders@.take(walls.len() as int) =~= walls);
            assert forall|k: int|
                0 <= k < colliders@.len() - walls.len() implies #[trigger] colliders@[k
                + walls.len()] == grid[k] by {}
            assert forall|i: int| 0 <= i < colliders@.len() implies (
            #[trigger] colliders@[i]).wf() by {
                if i < walls.len() {
                    assert(walls[i].wf());
                } else {
                    assert(grid[i - walls.len()].wf());
                }
            }
        }
        World::new(actor, paddle, colliders, paddle_movement_enabled)
    }
}

proof fn lemma_push_contains(s: Seq<Collider>, x: Collider, c: Collider)
    ensures
        s.push(x).contains(c) <==> (s.contains(c) || c == x),
{
    if s.push(x).contains(c) {
        let i = choose|i: int| 0 <= i < s.push(x).len() && s.push(x)[i] == c;
        if i < s.len() {
            assert(s[i] == c);
        }
    }
    if s.contains(c) {
        let i = choose|i: int| 0 <= i < s.len() && s[i] == c;
        assert(s.push(x)[i] == c);
    }
    if c == x {
        assert(s.push(x)[s.len() as int] == c);
    }
}

/// Bricks and scoring: a pass removes exactly the bricks that the actor
/// overlaps and keeps every other collider, so the score rises by exactly one
/// for each collider that leaves the registry, and a removed brick is absent
/// from the registry that later steps test against.
pub proof fn lemma_survivors(r: Rect, cs: Seq<Collider>)
    ensures
        survivors(r, cs).len() + brick_hit_count(r, cs) == cs.len(),
        forall|c: Collider| #[trigger]
            survivors(r, cs).contains(c) <==> (cs.contains(c) && !is_brick_hit(r, c)),
    decreases cs.len(),
{
    if cs.len() > 0 {
        let p = cs.drop_last();
        let x = cs.last();
        lemma_survivors(r, p);
        assert(cs =~= p.push(x));
        assert forall|c: Collider| #[trigger]
            survivors(r, cs).contains(c) <==> (cs.contains(c) && !is_brick_hit(r, c)) by {
            lemma_push_contains(p, x, c);
            lemma_push_contains(survivors(r, p), x, c);
        }
    }
}

/// Bricks never change the actor's velocity, position or jump flag.
pub proof fn lemma_brick_leaves_actor(a: Actor, c: Collider)
    requires
        c.kind == ColliderKind::Brick,
    ensures
        after_collider(a, c) == a,
{
}

/// Side walls: the horizontal speed becomes zero when it points into the
/// struck side (positive on `Left`, negative on `Right`), and otherwise the
/// actor is unchanged; the vertical speed, the flag and the rectangle are
/// never touched.
pub proof fn lemma_side_wall_stops_approach(a: Actor, side: Side)
    requires
        side == Side::Left || side == Side::Right,
    ensures
        ((side == Side::Left && a.velocity.x > 0) || (side == Side::Right && a.velocity.x < 0))
            ==> wall_response(a, side).velocity.x == 0,
        !((side == Side::Left && a.velocity.x > 0) || (side == Side::Right && a.velocity.x < 0))
            ==> wall_response(a, side) == a,
        wall_response(a, side).velocity.y == a.velocity.y,
        wall_response(a, side).is_jumping == a.is_jumping,
        wall_response(a, side).rect == a.rect,
{
}

} // verus!
