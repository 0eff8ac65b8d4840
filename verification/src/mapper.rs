//! Where a cell lies in space. The cube spans `[-1, 1]` on each axis; a cell is mapped
//! to its centre, lifted off the face by a small offset.

use vstd::prelude::*;
use crate::fixed::{trunc_div, SCALE};
use crate::grid::{cell_size_spec, Face, Position};
use crate::vector::{Point3, Vec3};

verus! {

/// Largest magnitude of a cell size that `pos_to_vec3` accepts.
pub const CELL_SIZE_LIMIT: i64 = 2_000_000_000;

/// Largest magnitude of a coordinate that `cell_center` gives.
pub const LOCAL_COORD_LIMIT: i64 = 4_300_000_000_000_000_000;

/// Largest magnitude of a surface offset that `pos_to_vec3` accepts.
pub const OFFSET_LIMIT: i64 = 1_000_000_000_000;

/// Centre of the `i`-th cell along one edge of a face: `-1 + i * cell + cell / 2`.
pub open spec fn local_coord(i: int, cell: int) -> int {
    -SCALE + i * cell + trunc_div(cell, 2)
}

/// Centre of the cell `(u, v)` of `face`, on the plane at distance `1 + offset` from the
/// centre of the cube. Each face embeds its two local axes in its own way.
pub open spec fn map_to_world(face: Face, u: int, v: int, cell: int, offset: int) -> Point3 {
    let ul = local_coord(u, cell);
    let vl = local_coord(v, cell);
    let surface = SCALE + offset;
    match face {
        Face::Front => Point3 { x: ul, y: vl, z: surface },
        Face::Back => Point3 { x: -ul, y: vl, z: -surface },
        Face::Right => Point3 { x: surface, y: vl, z: -ul },
        Face::Left => Point3 { x: -surface, y: vl, z: ul },
        Face::Top => Point3 { x: ul, y: surface, z: -vl },
        Face::Bottom => Point3 { x: ul, y: -surface, z: vl },
    }
}

/// Coordinate of `p` along the outward normal of `face`.
pub open spec fn outward_coord(face: Face, p: Point3) -> int {
    match face {
        Face::Front => p.z,
        Face::Back => -p.z,
        Face::Right => p.x,
        Face::Left => -p.x,
        Face::Top => p.y,
        Face::Bottom => -p.y,
    }
}

/// The two coordinates of `p` that lie in the plane of `face`.
pub open spec fn planar_coords(face: Face, p: Point3) -> (int, int) {
    match face {
        Face::Front | Face::Back => (p.x, p.y),
        Face::Right | Face::Left => (p.y, p.z),
        Face::Top | Face::Bottom => (p.x, p.z),
    }
}

/// Every cell of a board lies on its face's plane, at distance `1 + offset` from the
/// centre, and strictly inside the face's outline. Holds for boards of up to a million
/// cells per edge; beyond that a cell is narrower than two millionths.
pub proof fn lemma_cell_lies_on_face(grid_size: int, pos: Position, offset: int)
    requires
        1 <= grid_size <= SCALE,
        pos.in_grid(grid_size),
    ensures
        ({
            let p = map_to_world(pos.face, pos.u as int, pos.v as int, cell_size_spec(grid_size), offset);
            &&& outward_coord(pos.face, p) == SCALE + offset
            &&& -SCALE < planar_coords(pos.face, p).0 < SCALE
            &&& -SCALE < planar_coords(pos.face, p).1 < SCALE
        }),
{
    lemma_local_coord_inside(grid_size, pos.u as int);
    lemma_local_coord_inside(grid_size, pos.v as int);
}

/// The centre of a cell of the board lies strictly between the two edges of its face.
pub proof fn lemma_local_coord_inside(grid_size: int, i: int)
    requires
        1 <= grid_size <= SCALE,
        0 <= i < grid_size,
    ensures
        -SCALE < local_coord(i, cell_size_spec(grid_size)) < SCALE,
{
    let cell = cell_size_spec(grid_size);
    assert(2 <= cell && cell * grid_size <= 2_000_000) by (nonlinear_arith)
        requires
            cell == 2_000_000int / grid_size,
            1 <= grid_size <= 1_000_000,
    ;
    assert(0 <= i * cell <= (grid_size - 1) * cell && (grid_size - 1) * cell == cell * grid_size
        - cell) by (nonlinear_arith)
        requires
            0 <= i <= grid_size - 1,
            cell >= 0,
    ;
}

/// Two cells next to each other on one face lie exactly one cell size apart.
pub proof fn lemma_adjacent_cells_one_cell_apart(face: Face, u: int, v: int, cell: int, offset: int)
    ensures
        map_to_world(face, u, v, cell, offset).dist_sq(map_to_world(face, u + 1, v, cell, offset))
            == cell * cell,
        map_to_world(face, u, v, cell, offset).dist_sq(map_to_world(face, u, v + 1, cell, offset))
            == cell * cell,
{
    assert((u + 1) * cell == u * cell + cell && (v + 1) * cell == v * cell + cell)
        by (nonlinear_arith);
    assert(local_coord(u + 1, cell) - local_coord(u, cell) == cell);
    assert(local_coord(v + 1, cell) - local_coord(v, cell) == cell);
    let a = map_to_world(face, u, v, cell, offset);
    lemma_dist_sq_along_one_axis(a, map_to_world(face, u + 1, v, cell, offset), cell);
    lemma_dist_sq_along_one_axis(a, map_to_world(face, u, v + 1, cell, offset), cell);
}

/// Two points that differ by `d` along one axis, and not at all along the other two,
/// are `d` apart.
proof fn lemma_dist_sq_along_one_axis(a: Point3, b: Point3, d: int)
    requires
        ({
            let (dx, dy, dz) = (b.x - a.x, b.y - a.y, b.z - a.z);
            ||| (dx == d || dx == -d) && dy == 0 && dz == 0
            ||| dx == 0 && (dy == d || dy == -d) && dz == 0
            ||| dx == 0 && dy == 0 && (dz == d || dz == -d)
        }),
    ensures
        a.dist_sq(b) == d * d,
{
    let (ex, ey, ez) = (a.x - b.x, a.y - b.y, a.z - b.z);
    assert(ex * ex + ey * ey + ez * ez == d * d) by (nonlinear_arith)
        requires
            ((ex == d || ex == -d) && ey == 0 && ez == 0) || (ex == 0 && (ey == d || ey == -d) && ez
                == 0) || (ex == 0 && ey == 0 && (ez == d || ez == -d)),
    ;
}

/// Centre of the `i`-th cell along one edge of a face.
pub fn cell_center(i: i32, cell_size: i64) -> (r: i64)
    requires
        -CELL_SIZE_LIMIT <= cell_size <= CELL_SIZE_LIMIT,
    ensures
        r == local_coord(i as int, cell_size as int),
        -LOCAL_COORD_LIMIT <= r <= LOCAL_COORD_LIMIT,
{
    proof {
        let bound: int = 0x8000_0000int * 2_000_000_000int;
        assert(-bound <= i * cell_size <= bound) by (nonlinear_arith)
            requires
                -0x8000_0000 <= i <= 0x8000_0000,
                -2_000_000_000 <= cell_size <= 2_000_000_000,
                bound == 0x8000_0000int * 2_000_000_000int,
        ;
    }
    -SCALE + (i as i64) * cell_size + cell_size / 2
}

/// Centre of the cell `pos`, for the given cell size and surface offset.
pub fn pos_to_vec3(pos: Position, cell_size: i64, offset: i64) -> (r: Vec3)
    requires
        -CELL_SIZE_LIMIT <= cell_size <= CELL_SIZE_LIMIT,
        -OFFSET_LIMIT <= offset <= OFFSET_LIMIT,
    ensures
        r@ == map_to_world(pos.face, pos.u as int, pos.v as int, cell_size as int, offset as int),
{
    let u_local: i64 = cell_center(pos.u, cell_size);
    let v_local: i64 = cell_center(pos.v, cell_size);
    let surface: i64 = SCALE + offset;
    match pos.face {
        Face::Front => Vec3 { x: u_local, y: v_local, z: surface },
        Face::Back => Vec3 { x: -u_local, y: v_local, z: -surface },
        Face::Right => Vec3 { x: surface, y: v_local, z: -u_local },
        Face::Left => Vec3 { x: -surface, y: v_local, z: u_local },
        Face::Top => Vec3 { x: u_local, y: surface, z: -v_local },
        Face::Bottom => Vec3 { x: u_local, y: -surface, z: v_local },
    }
}

} // verus!
