use vstd::prelude::*;

use crate::geometry::{Rect, Vec2};

verus! {

// Every length below is in sixtieths of a pixel.

/// Edge of one grid cell of the level.
pub const BLOCK_SIZE: i64 = 1200;

pub const MARIO_HALF_X: i64 = BLOCK_SIZE;

pub const MARIO_HALF_Y: i64 = 1800;

pub const MARIO_SIZE_X: i64 = MARIO_HALF_X * 2;

pub const MARIO_SIZE_Y: i64 = MARIO_HALF_Y * 2;

pub const MARIO_START_X: i64 = 0;

pub const MARIO_START_Y: i64 = -3000;

pub const PADDLE_Y: i64 = -30000;

pub const HALF_WALL_THICKNESS: i64 = 600;

pub const WALL_THICKNESS: i64 = HALF_WALL_THICKNESS * 2;

/// x coordinate of the left wall.
pub const LEFT_WALL: i64 = -27000;

/// x coordinate of the right wall.
pub const RIGHT_WALL: i64 = 27000;

/// y coordinate of the bottom wall.
pub const BOTTOM_WALL: i64 = BLOCK_SIZE * -12;

/// y coordinate of the top wall.
pub const TOP_WALL: i64 = 18000;

pub const BRICK_HALF_X: i64 = 300;

pub const BRICK_HALF_Y: i64 = 300;

pub const BRICK_SIZE_X: i64 = BRICK_HALF_X * 2;

pub const BRICK_SIZE_Y: i64 = BRICK_HALF_Y * 2;

pub const GAP_BETWEEN_PADDLE_AND_BRICKS: i64 = 16200;

pub const GAP_BETWEEN_BRICKS: i64 = 300;

/// Lower bound of the space above the brick grid.
pub const GAP_BETWEEN_BRICKS_AND_CEILING: i64 = 1200;

/// Lower bound of the space beside the brick grid.
pub const GAP_BETWEEN_BRICKS_AND_SIDES: i64 = 1200;

pub const TOTAL_WIDTH_OF_BRICKS: i64 = (RIGHT_WALL - LEFT_WALL) - 2
    * GAP_BETWEEN_BRICKS_AND_SIDES;

pub const BOTTOM_EDGE_OF_BRICKS: i64 = PADDLE_Y + GAP_BETWEEN_PADDLE_AND_BRICKS;

pub const TOTAL_HEIGHT_OF_BRICKS: i64 = TOP_WALL - BOTTOM_EDGE_OF_BRICKS
    - GAP_BETWEEN_BRICKS_AND_CEILING;

/// The named places of the level's walls and platforms.
#[derive(Clone, Copy, Debug, PartialEq, Eq, Structural)]
pub enum WallLocation {
    Left,
    Right,
    Bottom,
    Top,
    Locate1,
    Locate2,
    Locate3,
    Locate4,
    Locate5,
    Locate6,
    Locate7,
}

/// Whether a collider stays or is destroyed when struck.
#[derive(Clone, Copy, Debug, PartialEq, Eq, Structural)]
pub enum ColliderKind {
    Wall,
    Brick,
}

/// A static rectangle that the actor can strike.
#[derive(Clone, Copy, Debug, PartialEq, Eq, Structural)]
pub struct Collider {
    pub rect: Rect,
    pub kind: ColliderKind,
}

impl Collider {
    pub open spec fn wf(self) -> bool {
        self.rect.wf()
    }
}

pub open spec fn location_position(l: WallLocation) -> (int, int) {
    match l {
        WallLocation::Left => (LEFT_WALL as int, 0),
        WallLocation::Right => (RIGHT_WALL as int, 0),
        WallLocation::Bottom => (0, BOTTOM_WALL as int),
        WallLocation::Top => (0, TOP_WALL as int),
        WallLocation::Locate1 => (BLOCK_SIZE * 10, BLOCK_SIZE * -6),
        WallLocation::Locate2 => (BLOCK_SIZE * -10, BLOCK_SIZE * -6),
        WallLocation::Locate3 => (0, 0),
        WallLocation::Locate4 => (BLOCK_SIZE * 14, BLOCK_SIZE * -1),
        WallLocation::Locate5 => (BLOCK_SIZE * -14, BLOCK_SIZE * -1),
        WallLocation::Locate6 => (BLOCK_SIZE * 9, BLOCK_SIZE * 6),
        WallLocation::Locate7 => (BLOCK_SIZE * -9, BLOCK_SIZE * 6),
    }
}

pub open spec fn location_size(l: WallLocation) -> (int, int) {
    match l {
        WallLocation::Left | WallLocation::Right => (
            WALL_THICKNESS as int,
            (TOP_WALL - BOTTOM_WALL) + WALL_THICKNESS,
        ),
        WallLocation::Bottom | WallLocation::Top => (BLOCK_SIZE * 32, WALL_THICKNESS as int),
        WallLocation::Locate1 | WallLocation::Locate2 => (BLOCK_SIZE * 12, BLOCK_SIZE as int),
        WallLocation::Locate3 => (BLOCK_SIZE * 16, BLOCK_SIZE as int),
        WallLocation::Locate4 | WallLocation::Locate5 => (BLOCK_SIZE * 4, BLOCK_SIZE as int),
        WallLocation::Locate6 | WallLocation::Locate7 => (BLOCK_SIZE * 14, BLOCK_SIZE as int),
    }
}

impl WallLocation {
    /// Center of the wall at this location.
    pub fn position(&self) -> (r: Vec2)
        ensures
            (r.x as int, r.y as int) == location_position(*self),
    {
        match self {
            WallLocation::Left => Vec2 { x: LEFT_WALL, y: 0 },
            WallLocation::Right => Vec2 { x: RIGHT_WALL, y: 0 },
            WallLocation::Bottom => Vec2 { x: 0, y: BOTTOM_WALL },
            WallLocation::Top => Vec2 { x: 0, y: TOP_WALL },
            WallLocation::Locate1 => Vec2 { x: BLOCK_SIZE * 10, y: BLOCK_SIZE * -6 },
            WallLocation::Locate2 => Vec2 { x: BLOCK_SIZE * -10, y: BLOCK_SIZE * -6 },
            WallLocation::Locate3 => Vec2 { x: 0, y: 0 },
            WallLocation::Locate4 => Vec2 { x: BLOCK_SIZE * 14, y: BLOCK_SIZE * -1 },
            WallLocation::Locate5 => Vec2 { x: BLOCK_SIZE * -14, y: BLOCK_SIZE * -1 },
            WallLocation::Locate6 => Vec2 { x: BLOCK_SIZE * 9, y: BLOCK_SIZE * 6 },
            WallLocation::Locate7 => Vec2 { x: BLOCK_SIZE * -9, y: BLOCK_SIZE * 6 },
        }
    }

    /// Full width and height of the wall at this location.
    pub fn size(&self) -> (r: Vec2)
        ensures
            (r.x as int, r.y as int) == location_size(*self),
            r.x > 0,
            r.y > 0,
    {
        let arena_height = TOP_WALL - BOTTOM_WALL;
        match self {
            WallLocation::Left | WallLocation::Right => Vec2 {
                x: WALL_THICKNESS,
                y: arena_height + WALL_THICKNESS,
            },
            WallLocation::Bottom | WallLocation::Top => Vec2 {
                x: BLOCK_SIZE * 32,
                y: WALL_THICKNESS,
            },
            WallLocation::Locate1 | WallLocation::Locate2 => Vec2 {
                x: BLOCK_SIZE * 12,
                y: BLOCK_SIZE,
            },
            WallLocation::Locate3 => Vec2 { x: BLOCK_SIZE * 16, y: BLOCK_SIZE },
            WallLocation::Locate4 | WallLocation::Locate5 => Vec2 {
                x: BLOCK_SIZE * 4,
                y: BLOCK_SIZE,
            },
            WallLocation::Locate6 | WallLocation::Locate7 => Vec2 {
                x: BLOCK_SIZE * 14,
                y: BLOCK_SIZE,
            },
        }
    }
}

/// The wall collider placed at `l`.
pub open spec fn wall_at(l: WallLocation) -> Collider {
    Collider {
        rect: Rect {
            center: Vec2 { x: location_position(l).0 as i64, y: location_position(l).1 as i64 },
            half: Vec2 { x: (location_size(l).0 / 2) as i64, y: (location_size(l).1 / 2) as i64 },
        },
        kind: ColliderKind::Wall,
    }
}

impl Collider {
    /// The wall collider for a location of the level.
    pub fn wall(location: WallLocation) -> (r: Collider)
        ensures
            r == wall_at(location),
            r.wf(),
    {
        let rect = Rect::from_center_size(location.position(), location.size());
        Collider { rect, kind: ColliderKind::Wall }
    }
}

/// The walls of the level, in the order in which they are registered.
pub open spec fn level_walls_spec() -> Seq<Collider> {
    seq![
        wall_at(WallLocation::Bottom),
        wall_at(WallLocation::Locate1),
        wall_at(WallLocation::Locate2),
        wall_at(WallLocation::Locate3),
        wall_at(WallLocation::Locate4),
        wall_at(WallLocation::Locate5),
        wall_at(WallLocation::Locate6),
        wall_at(WallLocation::Locate7),
    ]
}

/// Builds the level's walls: the floor and the seven platforms.
pub fn level_walls() -> (r: Vec<Collider>)
    ensures
        r@ == level_walls_spec(),
        forall|i: int| 0 <= i < r@.len() ==> (#[trigger] r@[i]).wf(),
{
    let mut v: Vec<Collider> = Vec::new();
    v.push(Collider::wall(WallLocation::Bottom));
    v.push(Collider::wall(WallLocation::Locate1));
    v.push(Collider::wall(WallLocation::Locate2));
    v.push(Collider::wall(WallLocation::Locate3));
    v.push(Collider::wall(WallLocation::Locate4));
    v.push(Collider::wall(WallLocation::Locate5));
    v.push(Collider::wall(WallLocation::Locate6));
    v.push(Collider::wall(WallLocation::Locate7));
    assert(v@ =~= level_walls_spec());
    v
}

/// Where the brick grid stands: how many columns and rows fit the space
/// left by the margins, and the center of its first brick.
#[derive(Clone, Copy, Debug, PartialEq, Eq, Structural)]
pub struct BrickLayout {
    pub n_columns: i64,
    pub n_rows: i64,
    pub offset_x: i64,
    pub offset_y: i64,
}

/// Column and row counts are the available spans floor-divided by a cell
/// and a gap; the grid is then centered between the side walls, so that the
/// side margins are only a lower bound when the division is not exact.
pub open spec fn brick_layout_spec() -> BrickLayout {
    let n_columns = TOTAL_WIDTH_OF_BRICKS as int / (BRICK_SIZE_X + GAP_BETWEEN_BRICKS);
    let n_rows = TOTAL_HEIGHT_OF_BRICKS as int / (BRICK_SIZE_Y + GAP_BETWEEN_BRICKS);
    let left_edge = (LEFT_WALL + RIGHT_WALL) / 2 - n_columns * BRICK_SIZE_X / 2 - (n_columns
        - 1) * GAP_BETWEEN_BRICKS / 2;
    BrickLayout {
        n_columns: n_columns as i64,
        n_rows: n_rows as i64,
        offset_x: (left_edge + BRICK_SIZE_X / 2) as i64,
        offset_y: (BOTTOM_EDGE_OF_BRICKS + BRICK_SIZE_Y / 2) as i64,
    }
}

/// Computes where the brick grid stands.
pub fn brick_layout() -> (r: BrickLayout)
    ensures
        r == brick_layout_spec(),
        r.n_columns == 57,
        r.n_rows == 34,
        r.offset_x == -25200,
        r.offset_y == -13500,
{
    let n_columns = TOTAL_WIDTH_OF_BRICKS / (BRICK_SIZE_X + GAP_BETWEEN_BRICKS);
    let n_rows = TOTAL_HEIGHT_OF_BRICKS / (BRICK_SIZE_Y + GAP_BETWEEN_BRICKS);
    let left_edge = (LEFT_WALL + RIGHT_WALL) / 2 - n_columns * BRICK_SIZE_X / 2 - (n_columns
        - 1) * GAP_BETWEEN_BRICKS / 2;
    BrickLayout {
        n_columns,
        n_rows,
        offset_x: left_edge + BRICK_SIZE_X / 2,
        offset_y: BOTTOM_EDGE_OF_BRICKS + BRICK_SIZE_Y / 2,
    }
}

/// The brick in grid row `row` and column `column`.
pub open spec fn brick_at(row: int, column: int) -> Collider {
    let g = brick_layout_spec();
    Collider {
        rect: Rect {
            center: Vec2 {
                x: (g.offset_x + column * (BRICK_SIZE_X + GAP_BETWEEN_BRICKS)) as i64,
                y: (g.offset_y + row * (BRICK_SIZE_Y + GAP_BETWEEN_BRICKS)) as i64,
            },
            half: Vec2 { x: BRICK_HALF_X, y: BRICK_HALF_Y },
        },
        kind: ColliderKind::Brick,
    }
}

/// Builds the brick grid, row by row: every brick of the layout when
/// `enabled`, none otherwise.
pub fn brick_grid(enabled: bool) -> (r: Vec<Collider>)
    ensures
        r@.len() == if enabled {
            brick_layout_spec().n_rows * brick_layout_spec().n_columns
        } else {
            0
        },
        forall|k: int|
            0 <= k < r@.len() ==> #[trigger] r@[k] == brick_at(
                k / (brick_layout_spec().n_columns as int),
                k % (brick_layout_spec().n_columns as int),
            ),
        forall|k: int| 0 <= k < r@.len() ==> (#[trigger] r@[k]).wf(),
{
    let mut v: Vec<Collider> = Vec::new();
    if !enabled {
        return v;
    }
    let g = brick_layout();
    let total: i64 = g.n_rows * g.n_columns;
    let mut k: i64 = 0;
    while k < total
        invariant
            g == brick_layout_spec(),
            g.n_columns == 57,
            g.n_rows == 34,
            g.offset_x == -25200,
            g.offset_y == -13500,
            0 <= k <= total,
            total == g.n_rows * g.n_columns,
            v@.len() == k,
            forall|j: int|
                0 <= j < k ==> #[trigger] v@[j] == brick_at(
                    j / (g.n_columns as int),
                    j % (g.n_columns as int),
                ),
            forall|j: int| 0 <= j < k ==> (#[trigger] v@[j]).wf(),
        decreases total - k,
    {
        let row = k / g.n_columns;
        let column = k % g.n_columns;
        assert(0 <= row < 34 && 0 <= column < 57 && 0 <= row * 900 < 34 * 900 && 0 <= column
            * 900 < 57 * 900) by (nonlinear_arith)
            requires
                0 <= k < 57 * 34,
                row == k / 57,
                column == k % 57,
        ;
        let brick = Collider {
            rect: Rect {
                center: Vec2 {
                    x: g.offset_x + column * (BRICK_SIZE_X + GAP_BETWEEN_BRICKS),
                    y: g.offset_y + row * (BRICK_SIZE_Y + GAP_BETWEEN_BRICKS),
                },
                half: Vec2 { x: BRICK_HALF_X, y: BRICK_HALF_Y },
            },
            kind: ColliderKind::Brick,
        };
        v.push(brick);
        k = k + 1;
    }
    v
}

} // verus!
