//! The camera that follows the snake: it looks at the centre of the cube from a pose
//! that glides toward the pose assigned to the face the snake's head is on.

use vstd::prelude::*;
use crate::fixed::SCALE;
use crate::grid::Face;
use crate::mapper::{map_to_world, outward_coord, planar_coords};
use crate::vector::{
    lemma_lerp_bounds, lemma_normalize_exact_unit, lemma_normalize_is_unit, lemma_unit_within_scale,
    lerp_spec, normalize_spec, Point3, Vec3, COORD_LIMIT,
};

verus! {

/// Distance of the camera from the centre when the viewport is at least as wide as high: 4.5.
pub const BASE_DISTANCE: i64 = 4_500_000;

/// Interpolation rate used unless configured otherwise: 5 per unit of time.
pub const DEFAULT_CAMERA_SPEED: u64 = 5_000_000;

/// Vertical field of view, in degrees.
pub const FIELD_OF_VIEW_DEGREES: u32 = 45;

/// Distance of the near clipping plane: 0.1.
pub const NEAR_PLANE: i64 = 100_000;

/// Distance of the far clipping plane: 100.
pub const FAR_PLANE: i64 = 100_000_000;

/// Where the camera stands and which way is up. It always looks at the origin.
#[derive(Clone, Copy, Debug, PartialEq, Eq, Structural)]
pub struct CameraPose {
    pub position: Vec3,
    pub up: Vec3,
}

/// Mathematical model of a [`CameraPose`].
pub struct PoseModel {
    pub position: Point3,
    pub up: Point3,
}

impl View for CameraPose {
    type V = PoseModel;

    open spec fn view(&self) -> PoseModel {
        PoseModel { position: self.position@, up: self.up@ }
    }
}

/// The current pose of the camera and the pose it moves toward.
#[derive(Clone, Copy, Debug, PartialEq, Eq, Structural)]
pub struct CameraController {
    pub pose: CameraPose,
    pub target: CameraPose,
}

/// Pose from which the camera sees `face` head-on from the distance `d`.
pub open spec fn target_pose(face: Face, d: int) -> PoseModel {
    let s = SCALE as int;
    match face {
        Face::Front => PoseModel { position: Point3 { x: 0, y: 0, z: d }, up: Point3 { x: 0, y: s, z: 0 } },
        Face::Back => PoseModel { position: Point3 { x: 0, y: 0, z: -d }, up: Point3 { x: 0, y: s, z: 0 } },
        Face::Left => PoseModel { position: Point3 { x: -d, y: 0, z: 0 }, up: Point3 { x: 0, y: s, z: 0 } },
        Face::Right => PoseModel { position: Point3 { x: d, y: 0, z: 0 }, up: Point3 { x: 0, y: s, z: 0 } },
        Face::Top => PoseModel { position: Point3 { x: 0, y: d, z: 0 }, up: Point3 { x: 0, y: 0, z: -s } },
        Face::Bottom => PoseModel { position: Point3 { x: 0, y: -d, z: 0 }, up: Point3 { x: 0, y: 0, z: s } },
    }
}

/// Distance that keeps the whole board in view: the base distance, divided by the
/// aspect ratio `width / height` when the viewport is higher than wide.
pub open spec fn distance_spec(width: int, height: int) -> int {
    if width < height {
        (BASE_DISTANCE * height) / width
    } else {
        BASE_DISTANCE as int
    }
}

/// Share of the remaining way that the camera covers in `dt`: `speed * dt`, at most one.
pub open spec fn interpolation_factor_spec(speed: int, dt: int) -> int {
    let f = (speed * dt) / (SCALE as int);
    if f >= SCALE {
        SCALE as int
    } else {
        f
    }
}

/// Pose after moving from `pose` toward `target` by the factor `t / SCALE`. The position
/// and the up vector are interpolated, and the up vector is brought back to length one.
/// Where the interpolated up vector vanishes, the target's up vector is taken.
pub open spec fn advance_spec(pose: PoseModel, target: PoseModel, t: int) -> PoseModel {
    let mixed = lerp_spec(pose.up, target.up, t);
    PoseModel {
        position: lerp_spec(pose.position, target.position, t),
        up: if mixed.norm_sq() == 0 {
            target.up
        } else {
            normalize_spec(mixed)
        },
    }
}

impl PoseModel {
    /// The position is within the interpolation's range and the up vector has length
    /// one, up to rounding.
    pub open spec fn wf(self) -> bool {
        self.position.within(COORD_LIMIT as int) && self.up.is_unit()
    }

    /// As `wf`, with an up vector of length exactly one: a pose that the camera can
    /// reach exactly.
    pub open spec fn is_target(self) -> bool {
        self.position.within(COORD_LIMIT as int) && self.up.is_exact_unit()
    }
}

impl CameraController {
    /// Both poses are well formed.
    pub open spec fn wf(self) -> bool {
        self.pose@.wf() && self.target@.wf()
    }
}

/// The camera's target for a face lies straight out from the centre of that face, at
/// the distance asked for.
pub proof fn lemma_target_faces_the_face(face: Face, d: int)
    ensures
        outward_coord(face, target_pose(face, d).position) == d,
        planar_coords(face, target_pose(face, d).position) == (0int, 0int),
        target_pose(face, d).up.is_exact_unit(),
{
    lemma_axis_is_exact_unit(target_pose(face, d).up);
}

/// What is up on a face is up for the camera that looks at it: from a cell to the
/// next cell in `v`, the way is one cell size along the up vector of the face's target.
pub proof fn lemma_up_follows_v_axis(face: Face, u: int, v: int, cell: int, offset: int, d: int)
    ensures
        ({
            let from = map_to_world(face, u, v, cell, offset);
            let to = map_to_world(face, u, v + 1, cell, offset);
            let up = target_pose(face, d).up;
            &&& (to.x - from.x) * SCALE == cell * up.x
            &&& (to.y - from.y) * SCALE == cell * up.y
            &&& (to.z - from.z) * SCALE == cell * up.z
        }),
{
    assert((v + 1) * cell == v * cell + cell) by (nonlinear_arith);
}

/// The factor lies between zero and one: it is zero for a step of no duration, and
/// one once `speed * dt` reaches one.
pub proof fn lemma_factor_saturates(speed: int, dt: int)
    requires
        0 <= speed,
        0 <= dt,
    ensures
        0 <= interpolation_factor_spec(speed, dt) <= SCALE,
        speed * dt >= SCALE * SCALE ==> interpolation_factor_spec(speed, dt) == SCALE,
        dt == 0 ==> interpolation_factor_spec(speed, dt) == 0,
{
    let p = speed * dt;
    assert(p >= 0 && (dt == 0 ==> p == 0)) by (nonlinear_arith)
        requires
            p == speed * dt,
            0 <= speed,
            0 <= dt,
    ;
    assert(p / 1_000_000 >= 0 && (p >= 1_000_000_000_000 ==> p / 1_000_000 >= 1_000_000));
}

/// The up vector stays at length one, up to rounding, whatever the step.
pub proof fn lemma_advance_keeps_wf(pose: PoseModel, target: PoseModel, t: int)
    requires
        pose.wf(),
        target.wf(),
        0 <= t <= SCALE,
    ensures
        advance_spec(pose, target, t).wf(),
{
    lemma_lerp_bounds(pose.position, target.position, t);
    let mixed = lerp_spec(pose.up, target.up, t);
    if mixed.norm_sq() != 0 {
        assert(mixed.norm_sq() >= 0) by (nonlinear_arith)
            requires
                mixed.norm_sq() == mixed.x * mixed.x + mixed.y * mixed.y + mixed.z * mixed.z,
        ;
        lemma_normalize_is_unit(mixed);
    }
}

/// A step with `speed * dt` of one or more puts the camera exactly at the target: with
/// the default speed of 5, any `dt` of 0.2 or more. The target's up vector must be one
/// that normalizing leaves as it is; every vector of length exactly one is, and so is
/// the up vector of every face's target.
pub proof fn lemma_advance_reaches_target(pose: PoseModel, target: PoseModel, speed: int, dt: int)
    requires
        target.up.norm_sq() == 0 || normalize_spec(target.up) == target.up,
        0 <= speed,
        0 <= dt,
        speed * dt >= SCALE * SCALE,
    ensures
        advance_spec(pose, target, interpolation_factor_spec(speed, dt)) == target,
{
    lemma_factor_saturates(speed, dt);
    lemma_lerp_bounds(pose.position, target.position, SCALE as int);
    lemma_lerp_bounds(pose.up, target.up, SCALE as int);
}

/// A step of no duration leaves the position where it is, and leaves the up vector
/// as it is when normalizing does: when its length is exactly one, say.
pub proof fn lemma_advance_zero_dt(pose: PoseModel, target: PoseModel, speed: int)
    requires
        0 <= speed,
    ensures
        advance_spec(pose, target, interpolation_factor_spec(speed, 0)).position == pose.position,
        pose.up.norm_sq() != 0 && normalize_spec(pose.up) == pose.up ==> advance_spec(
            pose,
            target,
            interpolation_factor_spec(speed, 0),
        ) == pose,
        pose.up.is_exact_unit() ==> advance_spec(pose, target, interpolation_factor_spec(speed, 0))
            == pose,
{
    lemma_factor_saturates(speed, 0);
    lemma_lerp_bounds(pose.position, target.position, 0);
    lemma_lerp_bounds(pose.up, target.up, 0);
    if pose.up.is_exact_unit() {
        lemma_normalize_exact_unit(pose.up);
    }
}

/// A vector along one axis, of magnitude one, has length exactly one.
pub proof fn lemma_axis_is_exact_unit(v: Point3)
    requires
        v.x == 0 || v.x == SCALE || v.x == -SCALE,
        v.y == 0 || v.y == SCALE || v.y == -SCALE,
        v.z == 0 || v.z == SCALE || v.z == -SCALE,
        (v.x != 0 && v.y == 0 && v.z == 0) || (v.x == 0 && v.y != 0 && v.z == 0) || (v.x == 0
            && v.y == 0 && v.z != 0),
    ensures
        v.is_exact_unit(),
        v.is_unit(),
{
    assert(v.x * v.x + v.y * v.y + v.z * v.z == 1_000_000_000_000) by (nonlinear_arith)
        requires
            v.x == 0 || v.x == 1_000_000 || v.x == -1_000_000,
            v.y == 0 || v.y == 1_000_000 || v.y == -1_000_000,
            v.z == 0 || v.z == 1_000_000 || v.z == -1_000_000,
            (v.x != 0 && v.y == 0 && v.z == 0) || (v.x == 0 && v.y != 0 && v.z == 0) || (v.x == 0
                && v.y == 0 && v.z != 0),
    ;
}

/// Pose from which the camera sees `face` head-on from the given distance.
pub fn target_for_face(face: Face, distance: i64) -> (r: CameraPose)
    requires
        -COORD_LIMIT <= distance <= COORD_LIMIT,
    ensures
        r@ == target_pose(face, distance as int),
        r@.is_target(),
{
    let d = distance;
    let (position, up) = match face {
        Face::Front => (Vec3 { x: 0, y: 0, z: d }, Vec3 { x: 0, y: SCALE, z: 0 }),
        Face::Back => (Vec3 { x: 0, y: 0, z: -d }, Vec3 { x: 0, y: SCALE, z: 0 }),
        Face::Left => (Vec3 { x: -d, y: 0, z: 0 }, Vec3 { x: 0, y: SCALE, z: 0 }),
        Face::Right => (Vec3 { x: d, y: 0, z: 0 }, Vec3 { x: 0, y: SCALE, z: 0 }),
        Face::Top => (Vec3 { x: 0, y: d, z: 0 }, Vec3 { x: 0, y: 0, z: -SCALE }),
        Face::Bottom => (Vec3 { x: 0, y: -d, z: 0 }, Vec3 { x: 0, y: 0, z: SCALE }),
    };
    proof {
        lemma_axis_is_exact_unit(up@);
    }
    CameraPose { position, up }
}

/// Distance of the camera for a viewport of the given size.
pub fn camera_distance(width: u32, height: u32) -> (d: i64)
    requires
        width > 0,
        height > 0,
    ensures
        d == distance_spec(width as int, height as int),
        BASE_DISTANCE <= d <= COORD_LIMIT,
{
    if width < height {
        proof {
            let (w, h) = (width as int, height as int);
            assert(4_500_000 * h <= 4_500_000 * 0xffff_ffff
                && 4_500_000 <= (4_500_000 * h) / w <= 4_500_000 * h) by (nonlinear_arith)
                requires
                    0 < w < h <= 0xffff_ffff,
            ;
        }
        (BASE_DISTANCE * (height as i64)) / (width as i64)
    } else {
        BASE_DISTANCE
    }
}

/// Share of the remaining way that the camera covers in `dt` at the given speed.
pub fn interpolation_factor(speed: u64, dt: u64) -> (t: u64)
    ensures
        t == interpolation_factor_spec(speed as int, dt as int),
        t <= SCALE,
{
    proof {
        lemma_factor_saturates(speed as int, dt as int);
        assert(0 <= speed * dt <= 0xffff_ffff_ffff_ffff * 0xffff_ffff_ffff_ffff) by (nonlinear_arith)
            requires
                0 <= speed <= 0xffff_ffff_ffff_ffff,
                0 <= dt <= 0xffff_ffff_ffff_ffff,
        ;
    }
    let wide: u128 = (speed as u128) * (dt as u128);
    let f: u128 = wide / (SCALE as u128);
    if f >= SCALE as u128 {
        SCALE as u64
    } else {
        f as u64
    }
}

/// Pose after moving from `pose` toward `target` by the factor `t / SCALE`.
pub fn advance_pose(pose: CameraPose, target: CameraPose, t: u64) -> (r: CameraPose)
    requires
        pose@.wf(),
        target@.wf(),
        t <= SCALE,
    ensures
        r@ == advance_spec(pose@, target@, t as int),
        r@.wf(),
{
    proof {
        lemma_advance_keeps_wf(pose@, target@, t as int);
        lemma_unit_within_scale(pose.up@);
        lemma_unit_within_scale(target.up@);
        lemma_lerp_bounds(pose.up@, target.up@, t as int);
    }
    let position = pose.position.lerp(target.position, t);
    let mixed = pose.up.lerp(target.up, t);
    let up = if mixed.is_zero() {
        target.up
    } else {
        mixed.normalize()
    };
    CameraPose { position, up }
}

impl CameraController {
    /// A camera at `pose` that moves toward `target`.
    pub fn new(pose: CameraPose, target: CameraPose) -> (r: CameraController)
        ensures
            r == (CameraController { pose, target }),
    {
        CameraController { pose, target }
    }

    /// Makes the pose that shows `face` from the given distance the target.
    pub fn set_target_for_face(&mut self, face: Face, distance: i64)
        requires
            -COORD_LIMIT <= distance <= COORD_LIMIT,
        ensures
            final(self).pose == old(self).pose,
            final(self).target@ == target_pose(face, distance as int),
            final(self).target@.is_target(),
    {
        self.target = target_for_face(face, distance);
    }

    /// Moves the camera toward its target for the time `dt` and returns the new pose.
    pub fn advance(&mut self, speed: u64, dt: u64) -> (pose: CameraPose)
        requires
            old(self).wf(),
        ensures
            final(self).target == old(self).target,
            final(self).pose@ == advance_spec(
                old(self).pose@,
                old(self).target@,
                interpolation_factor_spec(speed as int, dt as int),
            ),
            final(self).wf(),
            pose == final(self).pose,
    {
        let t = interpolation_factor(speed, dt);
        self.pose = advance_pose(self.pose, self.target, t);
        self.pose
    }
}

} // verus!
