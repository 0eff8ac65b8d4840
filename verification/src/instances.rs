//! What is drawn: for each kind of object, the list of placements handed to the
//! renderer. A placement moves a unit shape to a point and scales it along the axes.

use vstd::prelude::*;
use vstd::arithmetic::div_mod::lemma_fundamental_div_mod_converse;
use crate::fixed::{lemma_scaled_bounds, mul_ratio, scaled, MAX_TIME, SCALE};
use crate::grid::{cell_size, cell_size_spec, Face, Position, MAX_GRID_SIZE};
use crate::mapper::{cell_center, local_coord, map_to_world, pos_to_vec3};
use crate::particles::{is_live, Color, Particle};
use crate::vector::{Point3, Vec3, COORD_LIMIT};

verus! {

/// How far the snake, the food and the bursts float above the faces: 0.05.
pub const SURFACE_LIFT: i64 = 50_000;

/// Share of its cell that a voxel of the board fills.
pub const VOXEL_FILL: u64 = 950_000;

/// Share of its cell that a segment of the snake fills.
pub const SNAKE_FILL: u64 = 600_000;

/// Share of its cell that ordinary food fills.
pub const FOOD_FILL: u64 = 400_000;

/// Share of its cell that a prize fills.
pub const PRIZE_FILL: u64 = 500_000;

/// How far the grid lines float above the faces: 0.002.
pub const GRID_LINE_LIFT: i64 = 2_000;

/// Scale of a grid line across its length: 0.02.
pub const GRID_LINE_THICKNESS: i64 = 20_000;

/// Size of a particle when it starts: 0.05.
pub const PARTICLE_SIZE: i64 = 50_000;

/// Height of the food's bounce: 0.05.
pub const FOOD_BOUNCE_HEIGHT: i64 = 50_000;

/// Phase of the food's bounce per unit of time, in radians.
pub const FOOD_BOUNCE_RATE: u64 = 5;

/// Turn of the food per unit of time, in radians.
pub const FOOD_SPIN_RATE: u64 = 2;

/// One of the three axes of space.
#[derive(Clone, Copy, Debug, PartialEq, Eq, Structural)]
pub enum Axis {
    X,
    Y,
    Z,
}

/// A placement: scale along each axis, then move to `translation`.
#[derive(Clone, Copy, Debug, PartialEq, Eq, Structural)]
pub struct Transform {
    pub translation: Vec3,
    pub scale: Vec3,
}

/// Mathematical model of a [`Transform`].
pub struct TransformModel {
    pub translation: Point3,
    pub scale: Point3,
}

impl View for Transform {
    type V = TransformModel;

    open spec fn view(&self) -> TransformModel {
        TransformModel { translation: self.translation@, scale: self.scale@ }
    }
}

/// The food or prize: it sits at `center`, swings by `bounce * sin(bounce_phase)`,
/// turns about the vertical axis by `spin_angle`, and has the size `scale`. Phase and
/// angle are radians in millionths.
#[derive(Clone, Copy, Debug, PartialEq, Eq, Structural)]
pub struct FoodInstance {
    pub center: Vec3,
    pub bounce: Vec3,
    pub bounce_phase: u64,
    pub spin_angle: u64,
    pub scale: i64,
    pub is_prize: bool,
}

/// Mathematical model of a [`FoodInstance`].
pub struct FoodModel {
    pub center: Point3,
    pub bounce: Point3,
    pub bounce_phase: int,
    pub spin_angle: int,
    pub scale: int,
    pub is_prize: bool,
}

impl View for FoodInstance {
    type V = FoodModel;

    open spec fn view(&self) -> FoodModel {
        FoodModel {
            center: self.center@,
            bounce: self.bounce@,
            bounce_phase: self.bounce_phase as int,
            spin_angle: self.spin_angle as int,
            scale: self.scale as int,
            is_prize: self.is_prize,
        }
    }
}

/// The light that the food or prize casts.
#[derive(Clone, Copy, Debug, PartialEq, Eq, Structural)]
pub struct PointLight {
    pub position: Vec3,
    pub color: Color,
}

/// The models of a list of placements.
pub open spec fn models(s: Seq<Transform>) -> Seq<TransformModel> {
    Seq::new(s.len(), |i: int| s[i]@)
}

/// Placement at `translation` with the same scale `s` along all axes.
pub open spec fn uniform(translation: Point3, s: int) -> TransformModel {
    TransformModel { translation, scale: Point3 { x: s, y: s, z: s } }
}

/// Voxel `(x, y, z)` of the solid lattice that fills the cube: centred in its cell,
/// a little smaller than the cell.
pub open spec fn voxel(grid_size: int, x: int, y: int, z: int) -> TransformModel {
    let cell = cell_size_spec(grid_size);
    uniform(
        Point3 { x: local_coord(x, cell), y: local_coord(y, cell), z: local_coord(z, cell) },
        scaled(cell, VOXEL_FILL as int, SCALE as int),
    )
}

/// The `k`-th voxel of the lattice, counted with `z` running fastest and `x` slowest.
pub open spec fn lattice_at(grid_size: int, k: int) -> TransformModel {
    voxel(grid_size, k / (grid_size * grid_size), (k / grid_size) % grid_size, k % grid_size)
}

/// The lattice of the board: one voxel for each cell of the cube.
pub open spec fn board_lattice_spec(grid_size: int) -> Seq<TransformModel> {
    Seq::new((grid_size * grid_size * grid_size) as nat, |k: int| lattice_at(grid_size, k))
}

/// The point with `value` along `axis` and zero along the other two.
pub open spec fn axis_point(axis: Axis, value: int) -> Point3 {
    match axis {
        Axis::X => Point3 { x: value, y: 0, z: 0 },
        Axis::Y => Point3 { x: 0, y: value, z: 0 },
        Axis::Z => Point3 { x: 0, y: 0, z: value },
    }
}

/// Axis along which the outward normal of `face` runs.
pub open spec fn normal_axis(face: Face) -> Axis {
    match face {
        Face::Front | Face::Back => Axis::Z,
        Face::Left | Face::Right => Axis::X,
        Face::Top | Face::Bottom => Axis::Y,
    }
}

/// Whether the outward normal of `face` points in the positive direction.
pub open spec fn faces_positive(face: Face) -> bool {
    face == Face::Front || face == Face::Right || face == Face::Top
}

/// Scale along `axis` of a grid line on `face` that crosses the axis `across`: thin
/// along the face's normal and along `across`, and one along the third axis, so that
/// the line spans the face from edge to edge.
pub open spec fn beam_extent(face: Face, across: Axis, axis: Axis) -> int {
    if axis == normal_axis(face) || axis == across {
        GRID_LINE_THICKNESS as int
    } else {
        SCALE as int
    }
}

/// The grid line on `face` at the coordinate `t` of the axis `across`. It floats just
/// above the face and runs along the remaining axis.
pub open spec fn beam_spec(face: Face, across: Axis, t: int) -> TransformModel {
    let height = SCALE + GRID_LINE_LIFT;
    let n = axis_point(normal_axis(face), if faces_positive(face) { height } else { -height });
    let a = axis_point(across, t);
    TransformModel {
        translation: Point3 { x: n.x + a.x, y: n.y + a.y, z: n.z + a.z },
        scale: Point3 {
            x: beam_extent(face, across, Axis::X),
            y: beam_extent(face, across, Axis::Y),
            z: beam_extent(face, across, Axis::Z),
        },
    }
}

/// The twelve grid lines that share a line position, in the order they are drawn.
pub open spec fn beam_slot(j: int) -> (Face, Axis) {
    if j == 0 {
        (Face::Front, Axis::X)
    } else if j == 1 {
        (Face::Back, Axis::X)
    } else if j == 2 {
        (Face::Front, Axis::Y)
    } else if j == 3 {
        (Face::Back, Axis::Y)
    } else if j == 4 {
        (Face::Right, Axis::Z)
    } else if j == 5 {
        (Face::Left, Axis::Z)
    } else if j == 6 {
        (Face::Right, Axis::Y)
    } else if j == 7 {
        (Face::Left, Axis::Y)
    } else if j == 8 {
        (Face::Top, Axis::Z)
    } else if j == 9 {
        (Face::Bottom, Axis::Z)
    } else if j == 10 {
        (Face::Top, Axis::X)
    } else {
        (Face::Bottom, Axis::X)
    }
}

/// Coordinate of the `i`-th grid line: `-1 + i * cell`.
pub open spec fn line_coord(i: int, grid_size: int) -> int {
    -SCALE + i * cell_size_spec(grid_size)
}

/// The `k`-th grid line: the lines of one position stand together.
pub open spec fn grid_line_at(grid_size: int, k: int) -> TransformModel {
    let slot = beam_slot(k % 12);
    beam_spec(slot.0, slot.1, line_coord(k / 12, grid_size))
}

/// The grid lines: on each face, `grid_size + 1` lines in each of its two directions.
pub open spec fn grid_lines_spec(grid_size: int) -> Seq<TransformModel> {
    Seq::new((12 * (grid_size + 1)) as nat, |k: int| grid_line_at(grid_size, k))
}

/// Placement of the snake segment in the cell `pos`.
pub open spec fn snake_transform(pos: Position, grid_size: int) -> TransformModel {
    let cell = cell_size_spec(grid_size);
    uniform(
        map_to_world(pos.face, pos.u as int, pos.v as int, cell, SURFACE_LIFT as int),
        scaled(cell, SNAKE_FILL as int, SCALE as int),
    )
}

/// Placements of the snake: one for each cell of its body, in order.
pub open spec fn snake_instances_spec(body: Seq<Position>, grid_size: int) -> Seq<TransformModel> {
    Seq::new(body.len(), |i: int| snake_transform(body[i], grid_size))
}

/// The food or prize in the cell `food` at the time `now`.
pub open spec fn food_instance_spec(food: Position, is_prize: bool, grid_size: int, now: int)
    -> FoodModel {
    let cell = cell_size_spec(grid_size);
    FoodModel {
        center: map_to_world(food.face, food.u as int, food.v as int, cell, SURFACE_LIFT as int),
        bounce: Point3 { x: 0, y: FOOD_BOUNCE_HEIGHT as int, z: 0 },
        bounce_phase: FOOD_BOUNCE_RATE * now,
        spin_angle: FOOD_SPIN_RATE * now,
        scale: scaled(cell, if is_prize { PRIZE_FILL as int } else { FOOD_FILL as int }, SCALE as int),
        is_prize,
    }
}

/// Colour of the light that the food or prize casts.
pub open spec fn light_color_spec(is_prize: bool) -> Color {
    if is_prize {
        Color { r: 255, g: 215, b: 0, a: 255 }
    } else {
        Color { r: 255, g: 50, b: 50, a: 255 }
    }
}

/// Placement of the particle `p` at the time `now`: it has flown from its start at
/// its velocity for its age, and has shrunk linearly, to vanish at the end of its life.
pub open spec fn particle_transform(p: Particle, now: int, lifetime: int) -> TransformModel {
    let age = now - p.spawn_time;
    uniform(
        p.start_pos@.plus_scaled(p.velocity@, age, SCALE as int),
        scaled(PARTICLE_SIZE as int, lifetime - age, lifetime),
    )
}

/// A particle that the placement can be computed for: it starts within the range
/// of coordinates, is no faster than one, and was not made after `now`.
pub open spec fn particle_in_range(p: Particle, now: int) -> bool {
    &&& p.start_pos@.within(COORD_LIMIT as int)
    &&& p.velocity@.within(SCALE as int)
    &&& p.spawn_time <= now
}

/// A particle starts at its full size, and is never larger than that nor smaller
/// than nothing while it lives.
pub proof fn lemma_particle_size(p: Particle, now: int, lifetime: int)
    requires
        p.spawn_time <= now,
        is_live(p, now, lifetime),
    ensures
        0 <= particle_transform(p, now, lifetime).scale.x <= PARTICLE_SIZE,
        now == p.spawn_time ==> particle_transform(p, now, lifetime) == uniform(
            p.start_pos@,
            PARTICLE_SIZE as int,
        ),
{
    let age = now - p.spawn_time;
    lemma_scaled_bounds(PARTICLE_SIZE as int, lifetime - age, lifetime);
    lemma_scaled_bounds(p.velocity@.x, 0, SCALE as int);
    lemma_scaled_bounds(p.velocity@.y, 0, SCALE as int);
    lemma_scaled_bounds(p.velocity@.z, 0, SCALE as int);
}

/// The voxel `(x, y, z)` is the one counted at `(x * grid_size + y) * grid_size + z`.
pub proof fn lemma_lattice_index(grid_size: int, x: int, y: int, z: int)
    requires
        1 <= grid_size,
        0 <= x < grid_size,
        0 <= y < grid_size,
        0 <= z < grid_size,
    ensures
        0 <= (x * grid_size + y) * grid_size + z < grid_size * grid_size * grid_size,
        lattice_at(grid_size, (x * grid_size + y) * grid_size + z) == voxel(grid_size, x, y, z),
{
    let g = grid_size;
    let row = x * g + y;
    let k = row * g + z;
    assert(0 <= row < g * g && row * g + g <= g * g * g && 0 <= row * g) by (nonlinear_arith)
        requires
            row == x * g + y,
            0 <= x < g,
            0 <= y < g,
    ;
    lemma_fundamental_div_mod_converse(k, g, row, z);
    lemma_fundamental_div_mod_converse(row, g, x, y);
    let low = y * g + z;
    assert(k == x * (g * g) + low && 0 <= low < g * g) by (nonlinear_arith)
        requires
            k == (x * g + y) * g + z,
            low == y * g + z,
            0 <= y < g,
            0 <= z < g,
    ;
    lemma_fundamental_div_mod_converse(k, g * g, x, low);
}

/// Placement at `translation` with the same scale along all axes.
pub fn uniform_transform(translation: Vec3, s: i64) -> (r: Transform)
    ensures
        r@ == uniform(translation@, s as int),
{
    Transform { translation, scale: Vec3 { x: s, y: s, z: s } }
}

/// `cell_size * fill`, for a share `fill` of at most one.
fn fill_of_cell(cell: i64, fill: u64) -> (r: i64)
    requires
        fill <= SCALE,
    ensures
        r == scaled(cell as int, fill as int, SCALE as int),
{
    proof {
        lemma_scaled_bounds(cell as int, fill as int, SCALE as int);
    }
    mul_ratio(cell, fill, SCALE as u64)
}

/// The lattice of the board, made once: one voxel for each cell of the cube.
pub fn board_lattice(grid_size: i32) -> (r: Vec<Transform>)
    requires
        1 <= grid_size <= MAX_GRID_SIZE,
    ensures
        models(r@) == board_lattice_spec(grid_size as int),
        r@.len() == grid_size * grid_size * grid_size,
{
    let cell = cell_size(grid_size);
    let fill = fill_of_cell(cell, VOXEL_FILL);
    let mut out: Vec<Transform> = Vec::new();
    let mut x: i32 = 0;
    while x < grid_size
        invariant
            1 <= grid_size <= MAX_GRID_SIZE,
            0 <= x <= grid_size,
            cell == cell_size_spec(grid_size as int),
            0 <= cell <= 2 * SCALE,
            fill == scaled(cell as int, VOXEL_FILL as int, SCALE as int),
            out@.len() == x * grid_size * grid_size,
            forall|k: int| 0 <= k < out@.len() ==> (#[trigger] out@[k])@ == lattice_at(grid_size as int, k),
        decreases grid_size - x,
    {
        let cx = cell_center(x, cell);
        let mut y: i32 = 0;
        while y < grid_size
            invariant
                1 <= grid_size <= MAX_GRID_SIZE,
                0 <= x < grid_size,
                0 <= y <= grid_size,
                cell == cell_size_spec(grid_size as int),
                0 <= cell <= 2 * SCALE,
                fill == scaled(cell as int, VOXEL_FILL as int, SCALE as int),
                cx == local_coord(x as int, cell as int),
                out@.len() == (x * grid_size + y) * grid_size,
                forall|k: int|
                    0 <= k < out@.len() ==> (#[trigger] out@[k])@ == lattice_at(grid_size as int, k),
            decreases grid_size - y,
        {
            let cy = cell_center(y, cell);
            let mut z: i32 = 0;
            while z < grid_size
                invariant
                    1 <= grid_size <= MAX_GRID_SIZE,
                    0 <= x < grid_size,
                    0 <= y < grid_size,
                    0 <= z <= grid_size,
                    cell == cell_size_spec(grid_size as int),
                    0 <= cell <= 2 * SCALE,
                    fill == scaled(cell as int, VOXEL_FILL as int, SCALE as int),
                    cx == local_coord(x as int, cell as int),
                    cy == local_coord(y as int, cell as int),
                    out@.len() == (x * grid_size + y) * grid_size + z,
                    forall|k: int|
                        0 <= k < out@.len() ==> (#[trigger] out@[k])@ == lattice_at(
                            grid_size as int,
                            k,
                        ),
                decreases grid_size - z,
            {
                let cz = cell_center(z, cell);
                proof {
                    lemma_lattice_index(grid_size as int, x as int, y as int, z as int);
                }
                out.push(uniform_transform(Vec3 { x: cx, y: cy, z: cz }, fill));
                z += 1;
            }
            proof {
                assert((x * grid_size + y) * grid_size + grid_size == (x * grid_size + (y + 1))
                    * grid_size) by (nonlinear_arith);
            }
            y += 1;
        }
        proof {
            assert((x * grid_size + grid_size) * grid_size == (x + 1) * grid_size * grid_size)
                by (nonlinear_arith);
        }
        x += 1;
    }
    assert(models(out@) =~= board_lattice_spec(grid_size as int));
    out
}

/// The vector with `value` along `axis` and zero along the other two.
fn axis_vec(axis: Axis, value: i64) -> (r: Vec3)
    ensures
        r@ == axis_point(axis, value as int),
{
    match axis {
        Axis::X => Vec3 { x: value, y: 0, z: 0 },
        Axis::Y => Vec3 { x: 0, y: value, z: 0 },
        Axis::Z => Vec3 { x: 0, y: 0, z: value },
    }
}

/// Axis along which the outward normal of `face` runs.
fn normal_axis_of(face: Face) -> (r: Axis)
    ensures
        r == normal_axis(face),
{
    match face {
        Face::Front | Face::Back => Axis::Z,
        Face::Left | Face::Right => Axis::X,
        Face::Top | Face::Bottom => Axis::Y,
    }
}

/// Scale along `axis` of a grid line on a face with the normal `normal` that crosses `across`.
fn extent_along(normal: Axis, across: Axis, axis: Axis) -> (r: i64)
    ensures
        r == (if axis == normal || axis == across {
            GRID_LINE_THICKNESS as int
        } else {
            SCALE as int
        }),
{
    if axis == normal || axis == across {
        GRID_LINE_THICKNESS
    } else {
        SCALE
    }
}

/// The grid line on `face` at the coordinate `t` of the axis `across`.
pub fn beam(face: Face, across: Axis, t: i64) -> (r: Transform)
    requires
        -COORD_LIMIT <= t <= COORD_LIMIT,
    ensures
        r@ == beam_spec(face, across, t as int),
{
    let height: i64 = SCALE + GRID_LINE_LIFT;
    let positive = match face {
        Face::Front | Face::Right | Face::Top => true,
        Face::Back | Face::Left | Face::Bottom => false,
    };
    let normal = normal_axis_of(face);
    let n = axis_vec(normal, if positive { height } else { -height });
    let a = axis_vec(across, t);
    Transform {
        translation: Vec3 { x: n.x + a.x, y: n.y + a.y, z: n.z + a.z },
        scale: Vec3 {
            x: extent_along(normal, across, Axis::X),
            y: extent_along(normal, across, Axis::Y),
            z: extent_along(normal, across, Axis::Z),
        },
    }
}

/// The grid lines, made once: on each face, `grid_size + 1` lines in each of its two
/// directions.
pub fn grid_lines(grid_size: i32) -> (r: Vec<Transform>)
    requires
        1 <= grid_size <= MAX_GRID_SIZE,
    ensures
        models(r@) == grid_lines_spec(grid_size as int),
        r@.len() == 12 * (grid_size + 1),
{
    let step = cell_size(grid_size);
    let mut out: Vec<Transform> = Vec::new();
    let mut i: i32 = 0;
    while i <= grid_size
        invariant
            1 <= grid_size <= MAX_GRID_SIZE,
            0 <= i <= grid_size + 1,
            step == cell_size_spec(grid_size as int),
            0 <= step <= 2 * SCALE,
            out@.len() == 12 * i,
            forall|k: int| 0 <= k < out@.len() ==> (#[trigger] out@[k])@ == grid_line_at(grid_size as int, k),
        decreases grid_size + 1 - i,
    {
        proof {
            assert(0 <= i * step <= 1000 * 2_000_000) by (nonlinear_arith)
                requires
                    0 <= i <= 1000,
                    0 <= step <= 2_000_000,
            ;
        }
        let t: i64 = -SCALE + (i as i64) * step;
        out.push(beam(Face::Front, Axis::X, t));
        out.push(beam(Face::Back, Axis::X, t));
        out.push(beam(Face::Front, Axis::Y, t));
        out.push(beam(Face::Back, Axis::Y, t));
        out.push(beam(Face::Right, Axis::Z, t));
        out.push(beam(Face::Left, Axis::Z, t));
        out.push(beam(Face::Right, Axis::Y, t));
        out.push(beam(Face::Left, Axis::Y, t));
        out.push(beam(Face::Top, Axis::Z, t));
        out.push(beam(Face::Bottom, Axis::Z, t));
        out.push(beam(Face::Top, Axis::X, t));
        out.push(beam(Face::Bottom, Axis::X, t));
        i += 1;
    }
    assert(models(out@) =~= grid_lines_spec(grid_size as int));
    out
}

/// Placements of the snake: one for each cell of its body, in order.
pub fn snake_instances(body: &Vec<Position>, grid_size: i32) -> (r: Vec<Transform>)
    requires
        grid_size >= 1,
    ensures
        models(r@) == snake_instances_spec(body@, grid_size as int),
        r@.len() == body@.len(),
{
    let cell = cell_size(grid_size);
    let fill = fill_of_cell(cell, SNAKE_FILL);
    let mut out: Vec<Transform> = Vec::new();
    let mut i: usize = 0;
    while i < body.len()
        invariant
            i <= body.len(),
            cell == cell_size_spec(grid_size as int),
            0 <= cell <= 2 * SCALE,
            fill == scaled(cell as int, SNAKE_FILL as int, SCALE as int),
            out@.len() == i,
            forall|k: int| 0 <= k < i ==> (#[trigger] out@[k])@ == snake_transform(body@[k], grid_size as int),
        decreases body.len() - i,
    {
        let center = pos_to_vec3(body[i], cell, SURFACE_LIFT);
        out.push(uniform_transform(center, fill));
        i += 1;
    }
    assert(models(out@) =~= snake_instances_spec(body@, grid_size as int));
    out
}

/// The food or prize in the cell `food` at the time `now`.
pub fn food_instance(food: Position, is_prize: bool, grid_size: i32, now: u64) -> (r: FoodInstance)
    requires
        grid_size >= 1,
        now <= MAX_TIME,
    ensures
        r@ == food_instance_spec(food, is_prize, grid_size as int, now as int),
{
    let cell = cell_size(grid_size);
    FoodInstance {
        center: pos_to_vec3(food, cell, SURFACE_LIFT),
        bounce: Vec3 { x: 0, y: FOOD_BOUNCE_HEIGHT, z: 0 },
        bounce_phase: FOOD_BOUNCE_RATE * now,
        spin_angle: FOOD_SPIN_RATE * now,
        scale: fill_of_cell(cell, if is_prize { PRIZE_FILL } else { FOOD_FILL }),
        is_prize,
    }
}

/// The light that the food or prize in the cell `food` casts: it stands where the
/// food rests, in gold for a prize and in red for ordinary food.
pub fn food_light(food: Position, is_prize: bool, grid_size: i32) -> (r: PointLight)
    requires
        grid_size >= 1,
    ensures
        r.position@ == map_to_world(
            food.face,
            food.u as int,
            food.v as int,
            cell_size_spec(grid_size as int),
            SURFACE_LIFT as int,
        ),
        r.color == light_color_spec(is_prize),
{
    let cell = cell_size(grid_size);
    PointLight {
        position: pos_to_vec3(food, cell, SURFACE_LIFT),
        color: if is_prize {
            Color { r: 255, g: 215, b: 0, a: 255 }
        } else {
            Color { r: 255, g: 50, b: 50, a: 255 }
        },
    }
}

/// Placement of the live particle `p` at the time `now`.
pub fn particle_instance(p: &Particle, now: u64, lifetime: u64) -> (r: Transform)
    requires
        now <= MAX_TIME,
        particle_in_range(*p, now as int),
        is_live(*p, now as int, lifetime as int),
    ensures
        r@ == particle_transform(*p, now as int, lifetime as int),
{
    let age: u64 = now - p.spawn_time;
    proof {
        lemma_scaled_bounds(PARTICLE_SIZE as int, lifetime - age, lifetime as int);
    }
    let translation = p.start_pos.plus_scaled(p.velocity, age, SCALE as u64);
    let size = mul_ratio(PARTICLE_SIZE, lifetime - age, lifetime);
    uniform_transform(translation, size)
}

/// Placements and colours of the live particles, in their order.
pub fn particle_instances(particles: &Vec<Particle>, now: u64, lifetime: u64) -> (r: (
    Vec<Transform>,
    Vec<Color>,
))
    requires
        now <= MAX_TIME,
        forall|i: int|
            0 <= i < particles@.len() ==> particle_in_range(#[trigger] particles@[i], now as int)
                && is_live(particles@[i], now as int, lifetime as int),
    ensures
        r.0@.len() == particles@.len(),
        r.1@.len() == particles@.len(),
        forall|i: int|
            0 <= i < particles@.len() ==> (#[trigger] r.0@[i])@ == particle_transform(
                particles@[i],
                now as int,
                lifetime as int,
            ),
        forall|i: int| 0 <= i < particles@.len() ==> #[trigger] r.1@[i] == particles@[i].color,
{
    let mut transforms: Vec<Transform> = Vec::new();
    let mut colors: Vec<Color> = Vec::new();
    let mut i: usize = 0;
    while i < particles.len()
        invariant
            i <= particles.len(),
            now <= MAX_TIME,
            forall|k: int|
                0 <= k < particles@.len() ==> particle_in_range(
                    #[trigger] particles@[k],
                    now as int,
                ) && is_live(particles@[k], now as int, lifetime as int),
            transforms@.len() == i,
            colors@.len() == i,
            forall|k: int|
                0 <= k < i ==> (#[trigger] transforms@[k])@ == particle_transform(
                    particles@[k],
                    now as int,
                    lifetime as int,
                ),
            forall|k: int| 0 <= k < i ==> #[trigger] colors@[k] == particles@[k].color,
        decreases particles.len() - i,
    {
        let p = &particles[i];
        transforms.push(particle_instance(p, now, lifetime));
        colors.push(p.color);
        i += 1;
    }
    (transforms, colors)
}

} // verus!
