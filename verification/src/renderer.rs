//! The renderer's state and its frame: each frame the clock moves on, the camera
//! follows the snake's head, dead particles go, and the placements of everything
//! that moves are made anew.

use vstd::prelude::*;
use crate::camera::{
    advance_spec, camera_distance, distance_spec, interpolation_factor_spec,
    lemma_axis_is_exact_unit, target_pose, CameraController, CameraPose, PoseModel,
    DEFAULT_CAMERA_SPEED,
};
use crate::fixed::{MAX_TIME, SCALE};
use crate::grid::{cell_size, cell_size_spec, head_face_spec, Face, GameState, Position, MAX_GRID_SIZE};
use crate::instances::{
    board_lattice, board_lattice_spec, food_instance, food_instance_spec, food_light,
    grid_lines, grid_lines_spec, light_color_spec, models, particle_in_range,
    particle_instances, particle_transform, snake_instances, snake_instances_spec,
    FoodInstance, PointLight, Transform, TransformModel, SURFACE_LIFT,
};
use crate::mapper::{map_to_world, pos_to_vec3};
use crate::particles::{
    burst_color_spec, is_burst_particle, is_live, lemma_live_particles_sound, live_particles,
    Color, Particle, ParticleSystem, DEFAULT_PARTICLE_COUNT, DEFAULT_PARTICLE_LIFETIME,
};
use crate::vector::{lemma_unit_within_scale, Point3, Vec3, COORD_LIMIT};

verus! {

/// What can be chosen when a renderer is made.
#[derive(Clone, Copy, Debug, PartialEq, Eq, Structural)]
pub struct Config {
    /// Cells along each edge of a face.
    pub grid_size: i32,
    /// Interpolation rate of the camera per unit of time.
    pub camera_speed: u64,
    /// Time that a particle lives.
    pub particle_lifetime: u64,
    /// Particles in one burst.
    pub particle_count: usize,
}

/// Everything that one frame hands to the renderer, besides the board and the grid
/// lines, which never change.
#[derive(Debug)]
pub struct Frame {
    pub camera: CameraPose,
    pub snake: Vec<Transform>,
    pub food: FoodInstance,
    pub particle_transforms: Vec<Transform>,
    pub particle_colors: Vec<Color>,
    pub light: PointLight,
}

/// The renderer's state between frames.
pub struct GameRenderer {
    config: Config,
    viewport_width: u32,
    viewport_height: u32,
    camera: CameraController,
    board_instances: Vec<Transform>,
    grid_instances: Vec<Transform>,
    particles: ParticleSystem,
    time: u64,
}

/// Mathematical model of a [`GameRenderer`].
pub struct RendererState {
    pub config: Config,
    pub viewport_width: int,
    pub viewport_height: int,
    pub camera: PoseModel,
    pub target: PoseModel,
    pub board: Seq<TransformModel>,
    pub grid: Seq<TransformModel>,
    pub particles: Seq<Particle>,
    pub time: int,
}

impl View for GameRenderer {
    type V = RendererState;

    closed spec fn view(&self) -> RendererState {
        RendererState {
            config: self.config,
            viewport_width: self.viewport_width as int,
            viewport_height: self.viewport_height as int,
            camera: self.camera.pose@,
            target: self.camera.target@,
            board: models(self.board_instances@),
            grid: models(self.grid_instances@),
            particles: self.particles@,
            time: self.time as int,
        }
    }
}

/// The configuration with the given board and the usual speed, lifetime and count.
pub open spec fn default_config(grid_size: i32) -> Config {
    Config {
        grid_size,
        camera_speed: DEFAULT_CAMERA_SPEED,
        particle_lifetime: DEFAULT_PARTICLE_LIFETIME,
        particle_count: DEFAULT_PARTICLE_COUNT,
    }
}

/// State of a renderer that has just been made: at time zero, without particles, in
/// a viewport of one by one, with the camera on the diagonal at `(4, 4, 4)` and bound
/// for the front view.
pub open spec fn initial_state(config: Config) -> RendererState {
    let s = SCALE as int;
    RendererState {
        config,
        viewport_width: 1,
        viewport_height: 1,
        camera: PoseModel {
            position: Point3 { x: 4 * s, y: 4 * s, z: 4 * s },
            up: Point3 { x: 0, y: s, z: 0 },
        },
        target: PoseModel { position: Point3 { x: 0, y: 0, z: 4 * s }, up: Point3 { x: 0, y: s, z: 0 } },
        board: board_lattice_spec(config.grid_size as int),
        grid: grid_lines_spec(config.grid_size as int),
        particles: Seq::empty(),
        time: 0,
    }
}

/// Distance of the camera for a viewport of the given size. A width or height of zero
/// counts as one, so that the aspect ratio is always defined.
pub open spec fn viewport_distance(width: int, height: int) -> int {
    distance_spec(if width < 1 { 1 } else { width }, if height < 1 { 1 } else { height })
}

/// Target of the camera in a frame: the pose for the face of the snake's head, and the
/// target as it was where the snake is empty.
pub open spec fn frame_target(s: RendererState, head: Option<Face>) -> PoseModel {
    match head {
        Some(face) => target_pose(face, viewport_distance(s.viewport_width, s.viewport_height)),
        None => s.target,
    }
}

/// State after a frame that lasts `dt`, with the snake's head on the face `head`.
pub open spec fn state_after_frame(s: RendererState, head: Option<Face>, dt: int) -> RendererState {
    let target = frame_target(s, head);
    RendererState {
        target,
        camera: advance_spec(s.camera, target, interpolation_factor_spec(s.config.camera_speed as int, dt)),
        particles: live_particles(s.particles, s.time + dt, s.config.particle_lifetime as int),
        time: s.time + dt,
        ..s
    }
}

/// Where a burst for the cell `pos` starts.
pub open spec fn burst_center(pos: Position, grid_size: int) -> Point3 {
    map_to_world(pos.face, pos.u as int, pos.v as int, cell_size_spec(grid_size), SURFACE_LIFT as int)
}

impl Config {
    /// The board has between one and `MAX_GRID_SIZE` cells per edge.
    pub open spec fn valid(self) -> bool {
        1 <= self.grid_size <= MAX_GRID_SIZE
    }

    /// The configuration with the given board and the usual speed, lifetime and count.
    pub fn new(grid_size: i32) -> (r: Config)
        ensures
            r == default_config(grid_size),
    {
        Config {
            grid_size,
            camera_speed: DEFAULT_CAMERA_SPEED,
            particle_lifetime: DEFAULT_PARTICLE_LIFETIME,
            particle_count: DEFAULT_PARTICLE_COUNT,
        }
    }
}

impl RendererState {
    /// The state is one that a renderer can be in: the board and the grid lines are
    /// those of the configured size, the camera's poses are well formed, the clock is
    /// within its range, and each particle started in range and not after now.
    pub open spec fn wf(self) -> bool {
        &&& self.config.valid()
        &&& self.camera.wf()
        &&& self.target.is_target()
        &&& self.board == board_lattice_spec(self.config.grid_size as int)
        &&& self.grid == grid_lines_spec(self.config.grid_size as int)
        &&& 0 <= self.time <= MAX_TIME
        &&& forall|i: int|
            0 <= i < self.particles.len() ==> particle_in_range(#[trigger] self.particles[i], self.time)
    }
}

impl GameRenderer {
    /// The renderer's state is well formed.
    pub open spec fn wf(&self) -> bool {
        self@.wf()
    }

    /// A renderer for a board of `grid_size` cells per edge, with the usual camera
    /// speed, particle lifetime and particle count.
    pub fn new(grid_size: i32) -> (r: GameRenderer)
        requires
            1 <= grid_size <= MAX_GRID_SIZE,
        ensures
            r@ == initial_state(default_config(grid_size)),
            r.wf(),
    {
        GameRenderer::with_config(Config::new(grid_size))
    }

    /// A renderer with the given configuration. The board's lattice and grid lines
    /// are made here, once.
    pub fn with_config(config: Config) -> (r: GameRenderer)
        requires
            config.valid(),
        ensures
            r@ == initial_state(config),
            r.wf(),
    {
        let up = Vec3 { x: 0, y: SCALE, z: 0 };
        let pose = CameraPose { position: Vec3 { x: 4 * SCALE, y: 4 * SCALE, z: 4 * SCALE }, up };
        let target = CameraPose { position: Vec3 { x: 0, y: 0, z: 4 * SCALE }, up };
        proof {
            lemma_axis_is_exact_unit(up@);
        }
        GameRenderer {
            config,
            viewport_width: 1,
            viewport_height: 1,
            camera: CameraController::new(pose, target),
            board_instances: board_lattice(config.grid_size),
            grid_instances: grid_lines(config.grid_size),
            particles: ParticleSystem::new(),
            time: 0,
        }
    }

    /// Takes note of the viewport's new size.
    pub fn resize(&mut self, width: u32, height: u32)
        ensures
            final(self)@ == (RendererState {
                viewport_width: width as int,
                viewport_height: height as int,
                ..old(self)@
            }),
            old(self).wf() ==> final(self).wf(),
    {
        self.viewport_width = width;
        self.viewport_height = height;
    }

    /// Makes the pose that shows `face` from the given distance the camera's target.
    pub fn update_camera_target(&mut self, face: Face, distance: i64)
        requires
            -COORD_LIMIT <= distance <= COORD_LIMIT,
        ensures
            final(self)@ == (RendererState {
                target: target_pose(face, distance as int),
                ..old(self)@
            }),
            old(self).wf() ==> final(self).wf(),
    {
        self.camera.set_target_for_face(face, distance);
    }

    /// Advances the renderer by one frame that lasts `dt` and returns what is to be
    /// drawn. The clock moves on first. The camera's target becomes the pose for the
    /// face of the snake's head, at the distance that fits the viewport, and the camera
    /// moves toward it. Particles that have reached their lifetime are removed before
    /// the placements of the others are made.
    pub fn render(&mut self, game: &GameState, dt: u64) -> (frame: Frame)
        requires
            old(self).wf(),
            old(self)@.time + dt <= MAX_TIME,
        ensures
            final(self).wf(),
            final(self)@ == state_after_frame(old(self)@, head_face_spec(game.snake@), dt as int),
            frame.camera@ == final(self)@.camera,
            frame.snake@.len() == game.snake@.len(),
            models(frame.snake@) == snake_instances_spec(
                game.snake@,
                old(self)@.config.grid_size as int,
            ),
            frame.food@ == food_instance_spec(
                game.food,
                game.is_prize,
                old(self)@.config.grid_size as int,
                final(self)@.time,
            ),
            frame.light.position@ == frame.food@.center,
            frame.light.color == light_color_spec(game.is_prize),
            frame.particle_transforms@.len() == final(self)@.particles.len(),
            frame.particle_colors@.len() == final(self)@.particles.len(),
            forall|i: int|
                0 <= i < final(self)@.particles.len() ==> (#[trigger] frame.particle_transforms@[i])@
                    == particle_transform(
                    final(self)@.particles[i],
                    final(self)@.time,
                    old(self)@.config.particle_lifetime as int,
                ),
            forall|i: int|
                0 <= i < final(self)@.particles.len() ==> #[trigger] frame.particle_colors@[i]
                    == final(self)@.particles[i].color,
    {
        let grid_size = self.config.grid_size;
        let lifetime = self.config.particle_lifetime;
        self.time = self.time + dt;
        let now = self.time;

        let width = if self.viewport_width == 0 { 1 } else { self.viewport_width };
        let height = if self.viewport_height == 0 { 1 } else { self.viewport_height };
        match game.head_face() {
            Some(face) => {
                let distance = camera_distance(width, height);
                self.camera.set_target_for_face(face, distance);
            },
            None => {},
        }
        let camera = self.camera.advance(self.config.camera_speed, dt);

        let snake = snake_instances(&game.snake, grid_size);
        let food = food_instance(game.food, game.is_prize, grid_size, now);
        let light = food_light(game.food, game.is_prize, grid_size);

        self.particles.advance(now, lifetime);
        proof {
            let before = old(self)@.particles;
            lemma_live_particles_sound(before, now as int, lifetime as int);
            assert forall|i: int| 0 <= i < self.particles@.len() implies particle_in_range(
                #[trigger] self.particles@[i],
                now as int,
            ) && is_live(self.particles@[i], now as int, lifetime as int) by {
                let p = self.particles@[i];
                let j = choose|j: int| 0 <= j < before.len() && before[j] == p;
                assert(particle_in_range(before[j], old(self)@.time));
            }
        }
        let (particle_transforms, particle_colors) = particle_instances(
            self.particles.particles(),
            now,
            lifetime,
        );
        Frame { camera, snake, food, particle_transforms, particle_colors, light }
    }

    /// Adds a burst of particles where the cell `pos` lies, in the colour for a prize
    /// or for ordinary food. To be called once for each item that the snake eats.
    pub fn spawn_particles(&mut self, pos: Position, is_prize: bool)
        requires
            old(self).wf(),
        ensures
            final(self).wf(),
            final(self)@ == (RendererState { particles: final(self)@.particles, ..old(self)@ }),
            final(self)@.particles.len() == old(self)@.particles.len() + old(
                self,
            )@.config.particle_count,
            final(self)@.particles.subrange(0, old(self)@.particles.len() as int) == old(
                self,
            )@.particles,
            forall|i: int|
                old(self)@.particles.len() <= i < final(self)@.particles.len() ==> is_burst_particle(
                    #[trigger] final(self)@.particles[i],
                    burst_center(pos, old(self)@.config.grid_size as int),
                    old(self)@.time,
                    burst_color_spec(is_prize),
                ),
    {
        let cell = cell_size(self.config.grid_size);
        let center = pos_to_vec3(pos, cell, SURFACE_LIFT);
        proof {
            let bound: int = 0x8000_0000int * 2_000_000int;
            assert(-bound <= pos.u * cell <= bound && -bound <= pos.v * cell <= bound)
                by (nonlinear_arith)
                requires
                    -0x8000_0000 <= pos.u <= 0x8000_0000,
                    -0x8000_0000 <= pos.v <= 0x8000_0000,
                    0 <= cell <= 2_000_000,
                    bound == 0x8000_0000int * 2_000_000int,
            ;
        }
        self.particles.spawn_burst(center, self.time, is_prize, self.config.particle_count);
        proof {
            let before = old(self)@.particles;
            let after = self.particles@;
            assert forall|i: int| 0 <= i < after.len() implies particle_in_range(
                #[trigger] after[i],
                self.time as int,
            ) by {
                if i < before.len() {
                    assert(after.subrange(0, before.len() as int)[i] == after[i]);
                    assert(particle_in_range(before[i], self.time as int));
                } else {
                    lemma_unit_within_scale(after[i].velocity@);
                }
            }
        }
    }

    /// The configuration that the renderer was made with.
    pub fn config(&self) -> (r: Config)
        ensures
            r == self@.config,
    {
        self.config
    }

    /// Cells along each edge of a face.
    pub fn grid_size(&self) -> (r: i32)
        ensures
            r == self@.config.grid_size,
    {
        self.config.grid_size
    }

    /// Time that has passed in all frames so far.
    pub fn time(&self) -> (r: u64)
        ensures
            r == self@.time,
    {
        self.time
    }

    /// Width and height of the viewport.
    pub fn viewport(&self) -> (r: (u32, u32))
        ensures
            r.0 == self@.viewport_width,
            r.1 == self@.viewport_height,
    {
        (self.viewport_width, self.viewport_height)
    }

    /// The camera's pose.
    pub fn camera(&self) -> (r: CameraPose)
        ensures
            r@ == self@.camera,
    {
        self.camera.pose
    }

    /// The pose that the camera moves toward.
    pub fn camera_target(&self) -> (r: CameraPose)
        ensures
            r@ == self@.target,
    {
        self.camera.target
    }

    /// The lattice of the board.
    pub fn board_instances(&self) -> (r: &Vec<Transform>)
        ensures
            models(r@) == self@.board,
            r@.len() == self@.board.len(),
    {
        &self.board_instances
    }

    /// The grid lines.
    pub fn grid_instances(&self) -> (r: &Vec<Transform>)
        ensures
            models(r@) == self@.grid,
            r@.len() == self@.grid.len(),
    {
        &self.grid_instances
    }

    /// The live particles, oldest burst first.
    pub fn particles(&self) -> (r: &Vec<Particle>)
        ensures
            r@ == self@.particles,
    {
        self.particles.particles()
    }
}

} // verus!
