use vstd::prelude::*;

use crate::geometry::{COORD_LIMIT, Rect, Vec2};
use crate::level::{
    BLOCK_SIZE, BOTTOM_WALL, HALF_WALL_THICKNESS, LEFT_WALL, MARIO_HALF_X, MARIO_HALF_Y,
    RIGHT_WALL, TOP_WALL,
};

verus! {

// Units: positions and sizes are in sixtieths of a pixel, speeds in pixels
// per second and time in sixtieths of a second, so that a speed `v` held for
// `dt` moves a body by exactly `v * dt` position units.

/// Length of one fixed simulation step.
pub const TIME_STEP: i64 = 1;

/// Horizontal speed of the jumping actor.
pub const MARIO_XSPEED: i64 = 300;

/// Vertical speed given by a jump.
pub const JUMP_SPEED: i64 = 800;

/// Amount taken from the vertical speed on every step.
pub const GRAVITY: i64 = 50;

/// A body that leaves `[-WRAP_LIMIT, WRAP_LIMIT]` horizontally reappears at
/// the opposite bound.
pub const WRAP_LIMIT: i64 = BLOCK_SIZE * 16;

/// How close the paddle can get to the walls.
pub const PADDLE_PADDING: i64 = 600;

pub const PADDLE_LEFT_BOUND: i64 = LEFT_WALL + HALF_WALL_THICKNESS + MARIO_HALF_X
    + PADDLE_PADDING;

pub const PADDLE_RIGHT_BOUND: i64 = RIGHT_WALL - HALF_WALL_THICKNESS - MARIO_HALF_X
    - PADDLE_PADDING;

pub const PADDLE_UP_BOUND: i64 = TOP_WALL + HALF_WALL_THICKNESS + MARIO_HALF_Y
    + PADDLE_PADDING;

pub const PADDLE_BOTTOM_BOUND: i64 = BOTTOM_WALL - HALF_WALL_THICKNESS - MARIO_HALF_Y
    - PADDLE_PADDING;

/// Which keys are held during a step.
#[derive(Clone, Copy, Debug, PartialEq, Eq, Structural)]
pub struct Input {
    pub left: bool,
    pub right: bool,
    pub up: bool,
    pub down: bool,
}

/// The jumping actor: its rectangle, its velocity and whether it is in the air.
#[derive(Clone, Copy, Debug, PartialEq, Eq, Structural)]
pub struct Actor {
    pub rect: Rect,
    pub velocity: Vec2,
    pub is_jumping: bool,
}

impl Actor {
    pub open spec fn wf(self) -> bool {
        self.rect.wf()
    }
}

/// Horizontal speed chosen by the held keys; left wins over right.
pub open spec fn input_x_speed(input: Input) -> int {
    if input.left {
        -MARIO_XSPEED
    } else if input.right {
        MARIO_XSPEED as int
    } else {
        0
    }
}

/// The actor after reading the held keys: the jump impulse only when not
/// already jumping, and the horizontal speed from the arrows.
pub open spec fn input_spec(a: Actor, input: Input) -> Actor {
    let jumps = input.up && !a.is_jumping;
    Actor {
        rect: a.rect,
        velocity: Vec2 {
            x: input_x_speed(input) as i64,
            y: if jumps {
                JUMP_SPEED
            } else {
                a.velocity.y
            },
        },
        is_jumping: a.is_jumping || jumps,
    }
}

/// Sets the actor's velocity and jump flag from the held keys.
pub fn apply_input(actor: &mut Actor, input: &Input)
    ensures
        *final(actor) == input_spec(*old(actor), *input),
{
    if input.up {
        if !actor.is_jumping {
            actor.velocity.y = JUMP_SPEED;
            actor.is_jumping = true;
        }
    }
    if input.left {
        actor.velocity.x = -MARIO_XSPEED;
    } else if input.right {
        actor.velocity.x = MARIO_XSPEED;
    } else {
        actor.velocity.x = 0;
    }
}

/// Horizontal screen wrap applied after a move.
pub open spec fn wrap_x(x: int) -> int {
    if x > WRAP_LIMIT {
        -WRAP_LIMIT
    } else if x < -WRAP_LIMIT {
        WRAP_LIMIT as int
    } else {
        x
    }
}

/// The actor's position before wrapping, after moving for `dt`.
pub open spec fn moved_x(a: Actor, dt: i64) -> int {
    a.rect.center.x + a.velocity.x * dt
}

pub open spec fn moved_y(a: Actor, dt: i64) -> int {
    a.rect.center.y + a.velocity.y * dt
}

/// One step of the integrator stays inside the representable range.
pub open spec fn integrate_in_range(a: Actor, dt: i64) -> bool {
    &&& -COORD_LIMIT <= moved_y(a, dt) <= COORD_LIMIT
    &&& a.velocity.y - GRAVITY >= i64::MIN
}

/// The actor after one step: moved by its velocity times `dt`, wrapped
/// horizontally, and with the vertical speed lowered by `GRAVITY`, a flat
/// amount per step whatever `dt` is.
pub open spec fn integrate_spec(a: Actor, dt: i64) -> Actor {
    Actor {
        rect: Rect {
            center: Vec2 { x: wrap_x(moved_x(a, dt)) as i64, y: moved_y(a, dt) as i64 },
            half: a.rect.half,
        },
        velocity: Vec2 { x: a.velocity.x, y: (a.velocity.y - GRAVITY) as i64 },
        is_jumping: a.is_jumping,
    }
}

proof fn lemma_product_fits_i128(v: i64, dt: i64)
    ensures
        -0x4000_0000_0000_0000_0000_0000_0000_0000 <= v * dt
            <= 0x4000_0000_0000_0000_0000_0000_0000_0000,
{
    assert(-0x8000_0000_0000_0000 <= v <= 0x8000_0000_0000_0000);
    assert(-0x8000_0000_0000_0000 <= dt <= 0x8000_0000_0000_0000);
    assert(-0x4000_0000_0000_0000_0000_0000_0000_0000 <= v * dt
        <= 0x4000_0000_0000_0000_0000_0000_0000_0000) by (nonlinear_arith)
        requires
            -0x8000_0000_0000_0000 <= v <= 0x8000_0000_0000_0000,
            -0x8000_0000_0000_0000 <= dt <= 0x8000_0000_0000_0000,
    ;
}

/// Advances the actor by one step of length `dt`.
pub fn integrate(actor: &mut Actor, dt: i64)
    requires
        old(actor).wf(),
        integrate_in_range(*old(actor), dt),
    ensures
        *final(actor) == integrate_spec(*old(actor), dt),
        final(actor).wf(),
{
    proof {
        lemma_product_fits_i128(actor.velocity.x, dt);
        lemma_product_fits_i128(actor.velocity.y, dt);
    }
    let mut x: i128 = actor.rect.center.x as i128 + (actor.velocity.x as i128) * (dt as i128);
    if x > WRAP_LIMIT as i128 {
        x = -(WRAP_LIMIT as i128);
    }
    if x < -(WRAP_LIMIT as i128) {
        x = WRAP_LIMIT as i128;
    }
    let y: i128 = actor.rect.center.y as i128 + (actor.velocity.y as i128) * (dt as i128);
    actor.rect.center.x = x as i64;
    actor.rect.center.y = y as i64;
    actor.velocity.y = actor.velocity.y - GRAVITY;
}

/// Tells whether one step of the integrator stays in range.
pub fn can_integrate(actor: &Actor, dt: i64) -> (r: bool)
    ensures
        r == integrate_in_range(*actor, dt),
{
    proof {
        lemma_product_fits_i128(actor.velocity.y, dt);
    }
    let y: i128 = actor.rect.center.y as i128 + (actor.velocity.y as i128) * (dt as i128);
    -(COORD_LIMIT as i128) <= y && y <= COORD_LIMIT as i128 && actor.velocity.y >= i64::MIN
        + GRAVITY
}

pub open spec fn clamp(v: int, lo: int, hi: int) -> int {
    if v < lo {
        lo
    } else if v > hi {
        hi
    } else {
        v
    }
}

/// Direction chosen by a pair of keys; the first key wins.
pub open spec fn key_direction(neg: bool, pos: bool) -> int {
    if neg {
        -1
    } else if pos {
        1
    } else {
        0
    }
}

/// The paddle after one step: unchanged unless movement is enabled, and then
/// moved by the arrows at `MARIO_XSPEED` and held inside its bounds.
pub open spec fn paddle_spec(p: Rect, input: Input, dt: i64, enabled: bool) -> Rect {
    if !enabled {
        p
    } else {
        Rect {
            center: Vec2 {
                x: clamp(
                    p.center.x + key_direction(input.left, input.right) * MARIO_XSPEED * dt,
                    PADDLE_LEFT_BOUND as int,
                    PADDLE_RIGHT_BOUND as int,
                ) as i64,
                y: clamp(
                    p.center.y + key_direction(input.down, input.up) * MARIO_XSPEED * dt,
                    PADDLE_BOTTOM_BOUND as int,
                    PADDLE_UP_BOUND as int,
                ) as i64,
            },
            half: p.half,
        }
    }
}

fn clamp_i128(v: i128, lo: i128, hi: i128) -> (r: i128)
    requires
        lo <= hi,
    ensures
        r == clamp(v as int, lo as int, hi as int),
{
    if v < lo {
        lo
    } else if v > hi {
        hi
    } else {
        v
    }
}

/// Moves the paddle from the held keys when `enabled`; otherwise leaves it.
pub fn move_paddle(paddle: &mut Rect, input: &Input, dt: i64, enabled: bool)
    requires
        old(paddle).wf(),
    ensures
        *final(paddle) == paddle_spec(*old(paddle), *input, dt, enabled),
        final(paddle).wf(),
{
    if !enabled {
        return;
    }
    let dx: i128 = if input.left {
        -1
    } else if input.right {
        1
    } else {
        0
    };
    let dy: i128 = if input.down {
        -1
    } else if input.up {
        1
    } else {
        0
    };
    proof {
        lemma_product_fits_i128(MARIO_XSPEED, dt);
    }
    let step: i128 = (MARIO_XSPEED as i128) * (dt as i128);
    let x = clamp_i128(
        paddle.center.x as i128 + dx * step,
        PADDLE_LEFT_BOUND as i128,
        PADDLE_RIGHT_BOUND as i128,
    );
    let y = clamp_i128(
        paddle.center.y as i128 + dy * step,
        PADDLE_BOTTOM_BOUND as i128,
        PADDLE_UP_BOUND as i128,
    );
    assert(key_direction(input.left, input.right) * MARIO_XSPEED * dt == dx * step) by (
    nonlinear_arith)
        requires
            key_direction(input.left, input.right) == dx,
            step == MARIO_XSPEED * dt,
    ;
    assert(key_direction(input.down, input.up) * MARIO_XSPEED * dt == dy * step) by (
    nonlinear_arith)
        requires
            key_direction(input.down, input.up) == dy,
            step == MARIO_XSPEED * dt,
    ;
    paddle.center.x = x as i64;
    paddle.center.y = y as i64;
}

/// Exact displacement: before wrapping, one step moves the actor by its
/// velocity times `dt` on both axes, and gravity takes exactly `GRAVITY`
/// from the vertical speed, independently of `dt`.
pub proof fn lemma_integrate_displacement(a: Actor, dt: i64)
    requires
        a.wf(),
        integrate_in_range(a, dt),
    ensures
        integrate_spec(a, dt).rect.center.y == a.rect.center.y + a.velocity.y * dt,
        -WRAP_LIMIT <= moved_x(a, dt) <= WRAP_LIMIT ==> integrate_spec(a, dt).rect.center.x
            == a.rect.center.x + a.velocity.x * dt,
        integrate_spec(a, dt).velocity.y == a.velocity.y - GRAVITY,
        integrate_spec(a, dt).velocity.x == a.velocity.x,
        integrate_spec(a, dt).rect.half == a.rect.half,
{
}

/// Wraparound: leaving past the right bound lands exactly on the left bound,
/// and leaving past the left bound lands exactly on the right bound.
pub proof fn lemma_wraparound(x: int)
    ensures
        x > WRAP_LIMIT ==> wrap_x(x) == -WRAP_LIMIT,
        x < -WRAP_LIMIT ==> wrap_x(x) == WRAP_LIMIT,
        -WRAP_LIMIT <= x <= WRAP_LIMIT ==> wrap_x(x) == x,
{
}

/// Jump impulse: with the actor on the ground, holding jump sets the
/// vertical speed to `JUMP_SPEED` and raises the flag in that same step;
/// holding it again while the flag is up leaves the vertical speed and the
/// flag as they are.
pub proof fn lemma_jump_once(a: Actor, first: Input, second: Input)
    requires
        !a.is_jumping,
        first.up,
    ensures
        input_spec(a, first).velocity.y == JUMP_SPEED,
        input_spec(a, first).is_jumping,
        input_spec(input_spec(a, first), second).velocity.y == JUMP_SPEED,
        input_spec(input_spec(a, first), second).is_jumping,
{
}

/// Holding jump while already in the air has no effect on the vertical
/// motion or on the flag.
pub proof fn lemma_jump_ignored_in_air(a: Actor, input: Input)
    requires
        a.is_jumping,
    ensures
        input_spec(a, input).velocity.y == a.velocity.y,
        input_spec(a, input).is_jumping,
{
}

} // verus!
