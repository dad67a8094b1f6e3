use platformer::geometry::{collide, Rect, Side, Vec2};
use platformer::level::{brick_grid, brick_layout, level_walls, Collider, ColliderKind, WallLocation};
use platformer::motion::{
    apply_input, can_integrate, integrate, move_paddle, Actor, Input, GRAVITY, JUMP_SPEED,
    MARIO_XSPEED, PADDLE_LEFT_BOUND, PADDLE_RIGHT_BOUND, TIME_STEP, WRAP_LIMIT,
};
use platformer::world::{respond_to_wall, StepError, World};

fn rect(x: i64, y: i64, hx: i64, hy: i64) -> Rect {
    Rect { center: Vec2::new(x, y), half: Vec2::new(hx, hy) }
}

fn actor_at(x: i64, y: i64, vx: i64, vy: i64, is_jumping: bool) -> Actor {
    Actor { rect: rect(x, y, 1200, 1800), velocity: Vec2::new(vx, vy), is_jumping }
}

fn no_keys() -> Input {
    Input { left: false, right: false, up: false, down: false }
}

fn far_paddle() -> Rect {
    rect(0, -30000, 1200, 1800)
}

fn wall(x: i64, y: i64, hx: i64, hy: i64) -> Collider {
    Collider { rect: rect(x, y, hx, hy), kind: ColliderKind::Wall }
}

fn brick(x: i64, y: i64, hx: i64, hy: i64) -> Collider {
    Collider { rect: rect(x, y, hx, hy), kind: ColliderKind::Brick }
}

#[test]
fn separated_rectangles_do_not_collide() {
    let b = rect(0, 0, 10, 10);
    assert_eq!(collide(&rect(30, 0, 10, 10), &b), None);
    assert_eq!(collide(&rect(-30, 0, 10, 10), &b), None);
    assert_eq!(collide(&rect(0, 25, 10, 10), &b), None);
    // touching edges do not overlap
    assert_eq!(collide(&rect(20, 0, 10, 10), &b), None);
    assert_eq!(collide(&rect(0, -20, 10, 10), &b), None);
}

#[test]
fn side_of_least_penetration_is_reported() {
    let b = rect(0, 0, 10, 10);
    // a reaches into b's left edge by 2 and into its bottom edge by 5
    assert_eq!(collide(&rect(-18, -15, 10, 10), &b), Some(Side::Left));
    // a reaches into b's right edge by 5 and into its top edge by 2
    assert_eq!(collide(&rect(15, 18, 10, 10), &b), Some(Side::Top));
    // bottom edge by 3, right edge by 6
    assert_eq!(collide(&rect(14, -17, 10, 10), &b), Some(Side::Bottom));
    // right edge only
    assert_eq!(collide(&rect(15, 0, 10, 5), &b), Some(Side::Right));
}

#[test]
fn equal_depths_report_the_horizontal_side() {
    let b = rect(0, 0, 10, 10);
    assert_eq!(collide(&rect(-17, -17, 10, 10), &b), Some(Side::Left));
    assert_eq!(collide(&rect(17, 17, 10, 10), &b), Some(Side::Right));
}

#[test]
fn containment_is_inside() {
    let b = rect(0, 0, 10, 10);
    assert_eq!(collide(&rect(0, 0, 3, 3), &b), Some(Side::Inside));
    assert_eq!(collide(&rect(0, 0, 30, 30), &b), Some(Side::Inside));
}

#[test]
fn integrator_moves_by_velocity_times_dt() {
    let mut a = actor_at(100, 200, 300, -120, true);
    integrate(&mut a, 3);
    assert_eq!(a.rect.center, Vec2::new(100 + 900, 200 - 360));
    assert_eq!(a.velocity, Vec2::new(300, -120 - GRAVITY));
    assert_eq!(a.rect.half, Vec2::new(1200, 1800));
}

#[test]
fn gravity_is_flat_per_step() {
    let mut a = actor_at(0, 0, 0, 0, false);
    integrate(&mut a, 10);
    assert_eq!(a.velocity.y, -50);
    let mut b = actor_at(0, 0, 0, 0, false);
    integrate(&mut b, TIME_STEP);
    assert_eq!(b.velocity.y, -50);
}

#[test]
fn wraparound_at_both_bounds() {
    let mut a = actor_at(WRAP_LIMIT, 0, 1, 0, false);
    integrate(&mut a, 1);
    assert_eq!(a.rect.center.x, -WRAP_LIMIT);
    let mut b = actor_at(-WRAP_LIMIT, 0, -1, 0, false);
    integrate(&mut b, 1);
    assert_eq!(b.rect.center.x, WRAP_LIMIT);
    let mut c = actor_at(WRAP_LIMIT - 5, 0, 5, 0, false);
    integrate(&mut c, 1);
    assert_eq!(c.rect.center.x, WRAP_LIMIT);
    assert_eq!(WRAP_LIMIT, 19200);
}

#[test]
fn out_of_range_step_is_refused() {
    let a = actor_at(0, 0, 0, i64::MIN, true);
    assert!(!can_integrate(&a, 1));
    let mut w = World::new(a, far_paddle(), Vec::new(), false);
    assert_eq!(w.tick(&no_keys(), 1), Err(StepError::OutOfRange));
    assert_eq!(w.actor, a);
    assert!(can_integrate(&actor_at(0, 0, 0, 0, false), 1));
}

#[test]
fn horizontal_input() {
    let mut a = actor_at(0, 0, 7, 0, false);
    apply_input(&mut a, &Input { left: true, right: true, up: false, down: false });
    assert_eq!(a.velocity.x, -MARIO_XSPEED);
    apply_input(&mut a, &Input { left: false, right: true, up: false, down: false });
    assert_eq!(a.velocity.x, MARIO_XSPEED);
    apply_input(&mut a, &no_keys());
    assert_eq!(a.velocity.x, 0);
    assert!(!a.is_jumping);
}

#[test]
fn jump_impulse_only_from_the_ground() {
    let up = Input { left: false, right: false, up: true, down: false };
    let mut a = actor_at(0, 0, 0, -20, false);
    apply_input(&mut a, &up);
    assert_eq!(a.velocity.y, JUMP_SPEED);
    assert!(a.is_jumping);
    a.velocity.y = 123;
    apply_input(&mut a, &up);
    assert_eq!(a.velocity.y, 123);
    assert!(a.is_jumping);
}

#[test]
fn jump_then_gravity_scenario() {
    let up = Input { left: false, right: false, up: true, down: false };
    let mut a = actor_at(0, 0, 0, 0, false);
    apply_input(&mut a, &up);
    assert_eq!(a.velocity.y, 800);
    assert!(a.is_jumping);
    integrate(&mut a, TIME_STEP);
    assert_eq!(a.velocity.y, 750);
    apply_input(&mut a, &up);
    assert_eq!(a.velocity.y, 750);
    assert!(a.is_jumping);

    let mut w = World::new(actor_at(0, 0, 0, 0, false), far_paddle(), Vec::new(), false);
    assert_eq!(w.tick(&up, TIME_STEP), Ok(()));
    assert!(w.actor.is_jumping);
    assert_eq!(w.actor.velocity.y, 750);
    assert_eq!(w.actor.rect.center.y, 800);
    assert_eq!(w.tick(&up, TIME_STEP), Ok(()));
    assert_eq!(w.actor.velocity.y, 700);
    assert_eq!(w.actor.rect.center.y, 1550);
    assert_eq!(w.collision_events, 0);
}

#[test]
fn brick_hit_scenario() {
    let b = brick(6000, 6000, 300, 300);
    let mut w = World::new(actor_at(6000, 6000, 0, 0, false), far_paddle(), vec![b], false);
    assert_eq!(w.score, 0);
    assert_eq!(w.tick(&no_keys(), TIME_STEP), Ok(()));
    assert_eq!(w.score, 1);
    assert!(w.colliders.is_empty());
    assert_eq!(w.collision_events, 1);
    assert_eq!(w.actor.velocity, Vec2::new(0, -50));
    assert_eq!(w.tick(&no_keys(), TIME_STEP), Ok(()));
    assert_eq!(w.score, 1);
    assert_eq!(w.collision_events, 0);
}

#[test]
fn brick_removal_keeps_other_colliders_in_order() {
    let w1 = wall(100000, 0, 10, 10);
    let b1 = brick(0, 0, 300, 300);
    let w2 = wall(200000, 0, 10, 10);
    let b2 = brick(500, 0, 300, 300);
    let b3 = brick(90000, 0, 300, 300);
    let mut w = World::new(
        actor_at(0, 0, 0, 0, false),
        far_paddle(),
        vec![w1, b1, w2, b2, b3],
        false,
    );
    w.check_for_collisions();
    assert_eq!(w.score, 2);
    assert_eq!(w.colliders, vec![w1, w2, b3]);
    assert_eq!(w.collision_events, 2);
    assert_eq!(w.actor.velocity, Vec2::new(0, 0));
}

#[test]
fn side_walls_stop_only_approaching_speed() {
    let mut a = actor_at(0, 0, 300, 40, true);
    respond_to_wall(&mut a, Side::Left);
    assert_eq!(a.velocity, Vec2::new(0, 40));
    let mut b = actor_at(0, 0, -300, 40, true);
    respond_to_wall(&mut b, Side::Left);
    assert_eq!(b.velocity, Vec2::new(-300, 40));
    let mut c = actor_at(0, 0, -300, 40, true);
    respond_to_wall(&mut c, Side::Right);
    assert_eq!(c.velocity, Vec2::new(0, 40));
    let mut d = actor_at(0, 0, 300, 40, true);
    respond_to_wall(&mut d, Side::Right);
    assert_eq!(d.velocity, Vec2::new(300, 40));
    assert!(d.is_jumping);
}

#[test]
fn top_face_lands_and_bottom_face_does_not() {
    let mut a = actor_at(0, 0, 0, -100, true);
    respond_to_wall(&mut a, Side::Top);
    assert_eq!(a.velocity.y, 0);
    assert!(!a.is_jumping);
    let mut b = actor_at(0, 0, 0, 100, true);
    respond_to_wall(&mut b, Side::Bottom);
    assert_eq!(b.velocity.y, 0);
    assert!(b.is_jumping);
    let mut c = actor_at(0, 0, 5, 100, true);
    respond_to_wall(&mut c, Side::Inside);
    assert_eq!(c, actor_at(0, 0, 5, 100, true));
}

#[test]
fn landing_on_a_platform_during_a_tick() {
    // platform whose top face is at y = 1000; actor's bottom at 1000 - 50
    let platform = wall(0, 0, 6000, 1000);
    let mut w = World::new(
        actor_at(0, 1000 + 1800 - 50, 0, -10, true),
        far_paddle(),
        vec![platform],
        false,
    );
    assert_eq!(w.tick(&no_keys(), TIME_STEP), Ok(()));
    assert_eq!(w.actor.velocity.y, 0);
    assert!(!w.actor.is_jumping);
    assert_eq!(w.colliders.len(), 1);
    assert_eq!(w.collision_events, 1);
}

#[test]
fn wall_locations() {
    assert_eq!(WallLocation::Bottom.position(), Vec2::new(0, -14400));
    assert_eq!(WallLocation::Bottom.size(), Vec2::new(38400, 1200));
    assert_eq!(WallLocation::Left.size(), Vec2::new(1200, 33600));
    assert_eq!(WallLocation::Locate1.position(), Vec2::new(12000, -7200));
    assert_eq!(WallLocation::Locate3.size(), Vec2::new(19200, 1200));
    assert_eq!(WallLocation::Locate7.position(), Vec2::new(-10800, 7200));
    let c = Collider::wall(WallLocation::Locate4);
    assert_eq!(c.rect, rect(16800, -1200, 2400, 600));
    assert_eq!(c.kind, ColliderKind::Wall);
}

#[test]
fn level_layout() {
    let walls = level_walls();
    assert_eq!(walls.len(), 8);
    assert_eq!(walls[0], Collider::wall(WallLocation::Bottom));
    assert_eq!(walls[7], Collider::wall(WallLocation::Locate7));
    let g = brick_layout();
    assert_eq!((g.n_columns, g.n_rows), (57, 34));
    assert_eq!((g.offset_x, g.offset_y), (-25200, -13500));
    assert!(brick_grid(false).is_empty());
    let bricks = brick_grid(true);
    assert_eq!(bricks.len(), 57 * 34);
    assert_eq!(bricks[0], brick(-25200, -13500, 300, 300));
    assert_eq!(bricks[58], brick(-25200 + 900, -13500 + 900, 300, 300));

    let w = World::level(false, false);
    assert_eq!(w.colliders.len(), 8);
    assert_eq!(w.actor, actor_at(0, -3000, -300, 0, false));
    assert_eq!(w.paddle, far_paddle());
    let full = World::level(false, true);
    assert_eq!(full.colliders.len(), 8 + 57 * 34);
    assert_eq!(full.colliders[8], bricks[0]);
}

#[test]
fn paddle_stays_unless_enabled() {
    let right = Input { left: false, right: true, up: true, down: false };
    let mut p = far_paddle();
    move_paddle(&mut p, &right, 1, false);
    assert_eq!(p, far_paddle());
    move_paddle(&mut p, &right, 1, true);
    assert_eq!(p.center, Vec2::new(300, -17400));
    move_paddle(&mut p, &right, 1000, true);
    assert_eq!(p.center.x, PADDLE_RIGHT_BOUND);
    move_paddle(&mut p, &Input { left: true, right: false, up: false, down: false }, 1000, true);
    assert_eq!(p.center.x, PADDLE_LEFT_BOUND);
    assert_eq!(PADDLE_RIGHT_BOUND, 24600);
}
