use vstd::prelude::*;

verus! {

/// Largest magnitude of a rectangle's center coordinate or half extent.
/// Keeping every coordinate inside this bound lets edges and penetration
/// depths be computed in `i64` without overflow.
pub const COORD_LIMIT: i64 = 0x1000_0000_0000_0000;

/// A point or displacement on the playing field.
#[derive(Clone, Copy, Debug, PartialEq, Eq, Structural)]
pub struct Vec2 {
    pub x: i64,
    pub y: i64,
}

impl Vec2 {
    pub fn new(x: i64, y: i64) -> (r: Vec2)
        ensures
            r.x == x,
            r.y == y,
    {
        Vec2 { x, y }
    }
}

/// An axis-aligned rectangle given by its center and its half extents.
#[derive(Clone, Copy, Debug, PartialEq, Eq, Structural)]
pub struct Rect {
    pub center: Vec2,
    pub half: Vec2,
}

/// Which side of the struck rectangle was hit.
#[derive(Clone, Copy, Debug, PartialEq, Eq, Structural)]
pub enum Side {
    Left,
    Right,
    Top,
    Bottom,
    Inside,
}

impl Rect {
    /// Both extents are positive and every edge stays well inside `i64`.
    pub open spec fn wf(self) -> bool {
        &&& 0 < self.half.x <= COORD_LIMIT
        &&& 0 < self.half.y <= COORD_LIMIT
        &&& -COORD_LIMIT <= self.center.x <= COORD_LIMIT
        &&& -COORD_LIMIT <= self.center.y <= COORD_LIMIT
    }

    pub open spec fn min_x(self) -> int {
        self.center.x - self.half.x
    }

    pub open spec fn max_x(self) -> int {
        self.center.x + self.half.x
    }

    pub open spec fn min_y(self) -> int {
        self.center.y - self.half.y
    }

    pub open spec fn max_y(self) -> int {
        self.center.y + self.half.y
    }

    /// A rectangle centered at `center` whose full size is `size`.
    pub fn from_center_size(center: Vec2, size: Vec2) -> (r: Rect)
        requires
            size.x >= 0,
            size.y >= 0,
        ensures
            r.center == center,
            r.half.x == size.x / 2,
            r.half.y == size.y / 2,
    {
        Rect { center, half: Vec2 { x: size.x / 2, y: size.y / 2 } }
    }
}

/// The interiors of `a` and `b` intersect.
pub open spec fn overlaps(a: Rect, b: Rect) -> bool {
    &&& a.min_x() < b.max_x()
    &&& a.max_x() > b.min_x()
    &&& a.min_y() < b.max_y()
    &&& a.max_y() > b.min_y()
}

/// `a` and `b` are separated along some axis (they may touch).
pub open spec fn separated(a: Rect, b: Rect) -> bool {
    ||| a.max_x() <= b.min_x()
    ||| b.max_x() <= a.min_x()
    ||| a.max_y() <= b.min_y()
    ||| b.max_y() <= a.min_y()
}

/// Horizontal contact: `a` reaches into `b` across exactly one vertical edge
/// of `b`. Gives the side and the penetration depth.
pub open spec fn x_contact(a: Rect, b: Rect) -> Option<(Side, int)> {
    if a.min_x() < b.min_x() && a.max_x() > b.min_x() && a.max_x() < b.max_x() {
        Some((Side::Left, a.max_x() - b.min_x()))
    } else if a.min_x() > b.min_x() && a.min_x() < b.max_x() && a.max_x() > b.max_x() {
        Some((Side::Right, b.max_x() - a.min_x()))
    } else {
        None
    }
}

/// Vertical contact, as `x_contact`, with `Bottom` for `b`'s lower edge and
/// `Top` for its upper edge.
pub open spec fn y_contact(a: Rect, b: Rect) -> Option<(Side, int)> {
    if a.min_y() < b.min_y() && a.max_y() > b.min_y() && a.max_y() < b.max_y() {
        Some((Side::Bottom, a.max_y() - b.min_y()))
    } else if a.min_y() > b.min_y() && a.min_y() < b.max_y() && a.max_y() > b.max_y() {
        Some((Side::Top, b.max_y() - a.min_y()))
    } else {
        None
    }
}

/// The side of `b` that the moving rectangle `a` struck, or `None` when they
/// do not overlap. The axis with the smaller penetration depth decides; an
/// axis without a single-edge contact counts as infinitely deep; on equal
/// depths the horizontal side is reported.
pub open spec fn collision_of(a: Rect, b: Rect) -> Option<Side> {
    if !overlaps(a, b) {
        None
    } else {
        match (x_contact(a, b), y_contact(a, b)) {
            (Some((sx, dx)), Some((sy, dy))) => if dy < dx {
                Some(sy)
            } else {
                Some(sx)
            },
            (Some((sx, _)), None) => Some(sx),
            (None, Some((sy, _))) => Some(sy),
            (None, None) => Some(Side::Inside),
        }
    }
}

/// Classifies the collision of the moving rectangle `a` with the rectangle `b`.
pub fn collide(a: &Rect, b: &Rect) -> (r: Option<Side>)
    requires
        a.wf(),
        b.wf(),
    ensures
        r == collision_of(*a, *b),
{
    let a_min_x = a.center.x - a.half.x;
    let a_max_x = a.center.x + a.half.x;
    let a_min_y = a.center.y - a.half.y;
    let a_max_y = a.center.y + a.half.y;
    let b_min_x = b.center.x - b.half.x;
    let b_max_x = b.center.x + b.half.x;
    let b_min_y = b.center.y - b.half.y;
    let b_max_y = b.center.y + b.half.y;

    if !(a_min_x < b_max_x && a_max_x > b_min_x && a_min_y < b_max_y && a_max_y > b_min_y) {
        return None;
    }
    let x_hit: Option<(Side, i64)> = if a_min_x < b_min_x && a_max_x > b_min_x && a_max_x
        < b_max_x {
        Some((Side::Left, a_max_x - b_min_x))
    } else if a_min_x > b_min_x && a_min_x < b_max_x && a_max_x > b_max_x {
        Some((Side::Right, b_max_x - a_min_x))
    } else {
        None
    };
    let y_hit: Option<(Side, i64)> = if a_min_y < b_min_y && a_max_y > b_min_y && a_max_y
        < b_max_y {
        Some((Side::Bottom, a_max_y - b_min_y))
    } else if a_min_y > b_min_y && a_min_y < b_max_y && a_max_y > b_max_y {
        Some((Side::Top, b_max_y - a_min_y))
    } else {
        None
    };
    match (x_hit, y_hit) {
        (Some((sx, dx)), Some((sy, dy))) => if dy < dx {
            Some(sy)
        } else {
            Some(sx)
        },
        (Some((sx, _)), None) => Some(sx),
        (None, Some((sy, _))) => Some(sy),
        (None, None) => Some(Side::Inside),
    }
}

/// Rectangles that are separated along an axis never collide.
pub proof fn lemma_separated_no_collision(a: Rect, b: Rect)
    requires
        separated(a, b),
    ensures
        collision_of(a, b) is None,
{
}

/// The side of a contact.
pub open spec fn side_of(c: Option<(Side, int)>) -> Side {
    match c {
        Some((s, _)) => s,
        None => Side::Inside,
    }
}

/// The penetration depth of a contact.
pub open spec fn depth_of(c: Option<(Side, int)>) -> int {
    match c {
        Some((_, d)) => d,
        None => 0,
    }
}

/// Overlapping rectangles always collide, and a reported edge side lies on
/// the axis of least penetration: when both axes have a single-edge contact,
/// the horizontal side is reported exactly when its depth is at most the
/// vertical one (ties go to the horizontal side). With a contact on one axis
/// only, that axis decides; with none, `Inside` is reported.
pub proof fn lemma_side_is_least_penetration(a: Rect, b: Rect)
    requires
        overlaps(a, b),
    ensures
        collision_of(a, b) is Some,
        (x_contact(a, b) is Some && y_contact(a, b) is Some) ==> (collision_of(a, b) == Some(
            side_of(x_contact(a, b)),
        ) <==> depth_of(x_contact(a, b)) <= depth_of(y_contact(a, b))),
        (x_contact(a, b) is Some && y_contact(a, b) is Some) ==> (collision_of(a, b) == Some(
            side_of(y_contact(a, b)),
        ) <==> depth_of(y_contact(a, b)) < depth_of(x_contact(a, b))),
        (x_contact(a, b) is Some && y_contact(a, b) is None) ==> collision_of(a, b) == Some(
            side_of(x_contact(a, b)),
        ),
        (x_contact(a, b) is None && y_contact(a, b) is Some) ==> collision_of(a, b) == Some(
            side_of(y_contact(a, b)),
        ),
        collision_of(a, b) == Some(Side::Inside) <==> (x_contact(a, b) is None && y_contact(
            a,
            b,
        ) is None),
{
}

} // verus!
