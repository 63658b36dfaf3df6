//! What the level is made of: walls, and the ground that guards walk on.

use vstd::prelude::*;
use vstd::arithmetic::div_mod::lemma_fundamental_div_mod_converse;
use crate::geometry::Vec2;
use crate::level::navmesh::{NavMeshBuilder, NavMeshBuilderView};

pub mod navmesh;

verus! {

/// Half the width of a guard's body, in grid steps.
pub const ENEMY_COLLIDER_WIDTH: i32 = 32_000;

/// Half the height of a guard's body, in grid steps.
pub const ENEMY_COLLIDER_HEIGHT: i32 = 120_000;

/// Half the sides of the box that stands for a grid cell of the given kind:
/// a wall, kind one, fills its cell of thirty-two units each way; every
/// other kind is a box of one unit.
pub fn grid_collider(value: i32) -> (half_extents: (u32, u32))
    ensures
        half_extents == if value == 1 {
            (32_000u32, 32_000u32)
        } else {
            (1_000u32, 1_000u32)
        },
{
    if value == 1 {
        (32_000, 32_000)
    } else {
        (1_000, 1_000)
    }
}

/// Which of the four cells round a walkable cell are walkable too.
#[derive(Clone, Copy, Debug, PartialEq, Eq, Structural)]
pub struct Neighbours {
    pub above: bool,
    pub below: bool,
    pub left: bool,
    pub right: bool,
}

/// How far the walkable ground of a cell reaches from its middle toward one
/// side: half the cell, and less by half a guard's body where the cell
/// beyond that side is no ground, so that a guard's middle keeps off the
/// wall. Halves are rounded down.
pub open spec fn half_reach(cell_size: int, body: int, open_side: bool) -> int {
    if open_side {
        cell_size / 2
    } else {
        (cell_size - body) / 2
    }
}

/// The four corners of the walkable ground in a cell with its middle at
/// `center`, in the order in which a rectangle is put into the mesh. The
/// side called above is the one with the smaller y.
pub open spec fn patch_of(center: Vec2, cell_size: Vec2, neighbours: Neighbours) -> (
    Vec2,
    Vec2,
    Vec2,
    Vec2,
) {
    let top = -half_reach(cell_size.y as int, ENEMY_COLLIDER_HEIGHT as int, neighbours.above);
    let bottom = half_reach(cell_size.y as int, ENEMY_COLLIDER_HEIGHT as int, neighbours.below);
    let left = -half_reach(cell_size.x as int, ENEMY_COLLIDER_WIDTH as int, neighbours.left);
    let right = half_reach(cell_size.x as int, ENEMY_COLLIDER_WIDTH as int, neighbours.right);
    (
        center.spec_offset(left, top),
        center.spec_offset(right, top),
        center.spec_offset(right, bottom),
        center.spec_offset(left, bottom),
    )
}

/// See `half_reach`.
fn reach_toward(cell_size: i32, body: i32, open_side: bool) -> (r: i64)
    ensures
        r == half_reach(cell_size as int, body as int, open_side),
{
    let span: i64 = if open_side {
        cell_size as i64
    } else {
        cell_size as i64 - body as i64
    };
    if span >= 0 {
        span / 2
    } else {
        -((-span + 1) / 2)
    }
}

/// The four corners of the walkable ground in a cell.
pub fn walkable_patch(center: Vec2, cell_size: Vec2, neighbours: Neighbours) -> (corners: (
    Vec2,
    Vec2,
    Vec2,
    Vec2,
))
    ensures
        corners == patch_of(center, cell_size, neighbours),
{
    let top: i64 = -reach_toward(cell_size.y, ENEMY_COLLIDER_HEIGHT, neighbours.above);
    let bottom: i64 = reach_toward(cell_size.y, ENEMY_COLLIDER_HEIGHT, neighbours.below);
    let left: i64 = -reach_toward(cell_size.x, ENEMY_COLLIDER_WIDTH, neighbours.left);
    let right: i64 = reach_toward(cell_size.x, ENEMY_COLLIDER_WIDTH, neighbours.right);
    (
        center.offset(left, top),
        center.offset(right, top),
        center.offset(right, bottom),
        center.offset(left, bottom),
    )
}

/// A grid cell of ground that guards can walk on: where it lies in the grid,
/// and where its middle lies in the level.
#[derive(Clone, Copy, Debug, PartialEq, Eq, Structural)]
pub struct GroundCell {
    pub x: u32,
    pub y: u32,
    pub center: Vec2,
}

/// The middle of the ground at the grid place `(x, y)`, if there is ground.
/// Of two cells at one place the later one counts.
pub open spec fn ground_at(cells: Seq<GroundCell>, x: int, y: int) -> Option<Vec2>
    decreases cells.len(),
{
    if cells.len() == 0 {
        None
    } else if cells.last().x == x && cells.last().y == y {
        Some(cells.last().center)
    } else {
        ground_at(cells.drop_last(), x, y)
    }
}

/// Which of the four places round `(x, y)` are ground. The place above is
/// the one with the smaller y.
pub open spec fn neighbours_of(cells: Seq<GroundCell>, x: int, y: int) -> Neighbours {
    Neighbours {
        above: ground_at(cells, x, y - 1) is Some,
        below: ground_at(cells, x, y + 1) is Some,
        left: ground_at(cells, x - 1, y) is Some,
        right: ground_at(cells, x + 1, y) is Some,
    }
}

/// The mesh after the first `count` places of a grid with `height` rows were
/// looked at. The places are taken column by column, and both columns and
/// rows are counted from one. Every place that is ground puts its walkable
/// patch into the mesh as a rectangle.
pub open spec fn mesh_after(
    cells: Seq<GroundCell>,
    height: nat,
    cell_size: Vec2,
    count: nat,
) -> NavMeshBuilderView
    decreases count,
{
    if count == 0 {
        NavMeshBuilderView { vertices: Seq::empty(), triangles: Seq::empty() }
    } else {
        let before = mesh_after(cells, height, cell_size, (count - 1) as nat);
        let x = (count - 1) / (height as int) + 1;
        let y = (count - 1) % (height as int) + 1;
        match ground_at(cells, x, y) {
            Some(center) => {
                let (a, b, c, d) = patch_of(center, cell_size, neighbours_of(cells, x, y));
                before.with_rect(a, b, c, d)
            },
            None => before,
        }
    }
}

/// The middle of the ground at the grid place `(x, y)`, if there is ground.
fn find_ground(cells: &Vec<GroundCell>, x: u64, y: u64) -> (center: Option<Vec2>)
    ensures
        center == ground_at(cells@, x as int, y as int),
{
    let mut i: usize = cells.len();
    proof {
        assert(cells@.take(cells@.len() as int) =~= cells@);
    }
    while i > 0
        invariant
            i <= cells@.len(),
            ground_at(cells@, x as int, y as int) == ground_at(
                cells@.take(i as int),
                x as int,
                y as int,
            ),
        decreases i,
    {
        let cell: GroundCell = cells[i - 1];
        proof {
            assert(cells@.take(i as int).last() == cell);
            assert(cells@.take(i as int).drop_last() =~= cells@.take(i - 1));
        }
        if cell.x as u64 == x && cell.y as u64 == y {
            return Some(cell.center);
        }
        i -= 1;
    }
    None
}

/// Builds the mesh of the ground in a grid of `width` columns and `height`
/// rows, with cells of `cell_size`. The mesh names its corners by 32-bit
/// numbers, so the grid must not have more than a quarter of them places.
pub fn generate_nav_mesh(cells: &Vec<GroundCell>, width: u32, height: u32, cell_size: Vec2) -> (builder:
    NavMeshBuilder)
    requires
        4 * (width * height) <= u32::MAX,
    ensures
        builder@ == mesh_after(cells@, height as nat, cell_size, (width * height) as nat),
        builder@.wf(),
{
    let mut builder: NavMeshBuilder = NavMeshBuilder::new();
    let mut x: u64 = 1;
    proof {
        assert(0 * height == 0) by (nonlinear_arith);
        assert(builder@ =~= mesh_after(cells@, height as nat, cell_size, 0)) by {
            assert(builder@.vertices =~= Seq::<Vec2>::empty());
            assert(builder@.triangles =~= Seq::<(u32, u32, u32)>::empty());
        }
    }
    while x <= width as u64
        invariant
            1 <= x <= width + 1,
            4 * (width * height) <= u32::MAX,
            builder@ == mesh_after(cells@, height as nat, cell_size, ((x - 1) * height) as nat),
            builder@.wf(),
            builder@.vertices.len() <= 4 * ((x - 1) * height),
        decreases width + 1 - x,
    {
        let mut y: u64 = 1;
        while y <= height as u64
            invariant
                1 <= x <= width,
                1 <= y <= height + 1,
                4 * (width * height) <= u32::MAX,
                builder@ == mesh_after(
                    cells@,
                    height as nat,
                    cell_size,
                    ((x - 1) * height + (y - 1)) as nat,
                ),
                builder@.wf(),
                builder@.vertices.len() <= 4 * ((x - 1) * height + (y - 1)),
            decreases height + 1 - y,
        {
            let ghost place: int = (x - 1) * height + (y - 1);
            proof {
                assert(0 <= (x - 1) * height <= (width - 1) * height && (width - 1) * height
                    + height == width * height) by (nonlinear_arith)
                    requires
                        1 <= x <= width,
                        0 <= height,
                ;
                lemma_fundamental_div_mod_converse(place, height as int, x - 1, y - 1);
            }
            match find_ground(cells, x, y) {
                Some(center) => {
                    let neighbours: Neighbours = Neighbours {
                        above: find_ground(cells, x, y - 1).is_some(),
                        below: find_ground(cells, x, y + 1).is_some(),
                        left: find_ground(cells, x - 1, y).is_some(),
                        right: find_ground(cells, x + 1, y).is_some(),
                    };
                    let corners: (Vec2, Vec2, Vec2, Vec2) = walkable_patch(
                        center,
                        cell_size,
                        neighbours,
                    );
                    builder.insert_rect(corners.0, corners.1, corners.2, corners.3);
                },
                None => {},
            }
            y += 1;
        }
        proof {
            assert((x - 1) * height + height == x * height) by (nonlinear_arith);
        }
        x += 1;
    }
    proof {
        assert(x == width + 1);
    }
    builder
}

} // verus!
