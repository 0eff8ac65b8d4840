use snake_cube::camera::{target_for_face, CameraPose, DEFAULT_CAMERA_SPEED};
use snake_cube::fixed::SCALE;
use snake_cube::grid::{Face, GameState, Position};
use snake_cube::instances::{board_lattice, grid_lines};
use snake_cube::particles::{Color, DEFAULT_PARTICLE_COUNT, DEFAULT_PARTICLE_LIFETIME};
use snake_cube::renderer::{Config, GameRenderer};
use snake_cube::vector::Vec3;

fn at(face: Face, u: i32, v: i32) -> Position {
    Position { face, u, v }
}

fn game_on(face: Face) -> GameState {
    GameState { snake: vec![at(face, 0, 0), at(face, 0, 1)], food: at(Face::Right, 9, 9), is_prize: false }
}

#[test]
fn the_usual_configuration() {
    let config = Config::new(10);
    assert_eq!(
        config,
        Config { grid_size: 10, camera_speed: 5_000_000, particle_lifetime: 1_000_000, particle_count: 10 }
    );
    assert_eq!(config.camera_speed, DEFAULT_CAMERA_SPEED);
    assert_eq!(config.particle_lifetime, DEFAULT_PARTICLE_LIFETIME);
    assert_eq!(config.particle_count, DEFAULT_PARTICLE_COUNT);
}

#[test]
fn a_new_renderer() {
    let renderer = GameRenderer::new(10);
    assert_eq!(renderer.config(), Config::new(10));
    assert_eq!(renderer.grid_size(), 10);
    assert_eq!(renderer.time(), 0);
    assert_eq!(renderer.viewport(), (1, 1));
    assert_eq!(
        renderer.camera(),
        CameraPose { position: Vec3::new(4_000_000, 4_000_000, 4_000_000), up: Vec3::new(0, SCALE, 0) }
    );
    assert_eq!(
        renderer.camera_target(),
        CameraPose { position: Vec3::new(0, 0, 4_000_000), up: Vec3::new(0, SCALE, 0) }
    );
    assert!(renderer.particles().is_empty());
    assert_eq!(renderer.board_instances(), &board_lattice(10));
    assert_eq!(renderer.grid_instances(), &grid_lines(10));
}

#[test]
fn the_board_is_made_once() {
    let mut renderer = GameRenderer::new(4);
    let board = renderer.board_instances().clone();
    let lines = renderer.grid_instances().clone();
    assert_eq!(board.len(), 64);
    assert_eq!(lines.len(), 60);
    renderer.render(&game_on(Face::Top), 16_667);
    renderer.spawn_particles(at(Face::Top, 1, 1), true);
    renderer.resize(640, 480);
    renderer.render(&game_on(Face::Left), 16_667);
    assert_eq!(renderer.board_instances(), &board);
    assert_eq!(renderer.grid_instances(), &lines);
    assert_eq!(renderer.grid_size(), 4);
}

#[test]
fn the_camera_reaches_the_front_and_then_turns_toward_the_top() {
    let mut renderer = GameRenderer::new(10);
    let frame = renderer.render(&game_on(Face::Front), 1_000_000);
    let front = target_for_face(Face::Front, 4_500_000);
    assert_eq!(frame.camera, front);
    assert_eq!(renderer.camera(), front);

    let frame = renderer.render(&game_on(Face::Top), 50_000);
    let top = target_for_face(Face::Top, 4_500_000);
    assert_eq!(renderer.camera_target(), top);
    let p = frame.camera.position;
    assert_eq!(p, Vec3::new(0, 1_125_000, 3_375_000));
    assert!(front.position.y < p.y && p.y < top.position.y);
    assert!(top.position.z < p.z && p.z < front.position.z);
    assert_eq!(p.x, 0);
    assert_eq!(frame.camera.up, Vec3::new(0, 948_683, -316_227));
}

#[test]
fn the_clock_adds_up_the_frames() {
    let mut renderer = GameRenderer::new(10);
    renderer.render(&game_on(Face::Front), 16_667);
    renderer.render(&game_on(Face::Front), 0);
    renderer.render(&game_on(Face::Front), 33_333);
    assert_eq!(renderer.time(), 50_000);
}

#[test]
fn a_frame_of_no_duration_leaves_the_camera() {
    let mut renderer = GameRenderer::new(10);
    renderer.render(&game_on(Face::Front), 1_000_000);
    let before = renderer.camera();
    let frame = renderer.render(&game_on(Face::Top), 0);
    assert_eq!(frame.camera, before);
    assert_eq!(renderer.camera_target(), target_for_face(Face::Top, 4_500_000));
}

#[test]
fn a_high_viewport_moves_the_camera_back() {
    let mut renderer = GameRenderer::new(10);
    renderer.resize(600, 800);
    assert_eq!(renderer.viewport(), (600, 800));
    let frame = renderer.render(&game_on(Face::Right), 1_000_000);
    assert_eq!(frame.camera, target_for_face(Face::Right, 6_000_000));
    renderer.resize(800, 600);
    let frame = renderer.render(&game_on(Face::Right), 1_000_000);
    assert_eq!(frame.camera, target_for_face(Face::Right, 4_500_000));
}

#[test]
fn a_viewport_without_extent_counts_as_one_pixel() {
    let mut renderer = GameRenderer::new(10);
    renderer.resize(0, 0);
    let frame = renderer.render(&game_on(Face::Back), 1_000_000);
    assert_eq!(frame.camera, target_for_face(Face::Back, 4_500_000));
    renderer.resize(0, 3);
    let frame = renderer.render(&game_on(Face::Back), 1_000_000);
    assert_eq!(frame.camera, target_for_face(Face::Back, 13_500_000));
    renderer.resize(3, 0);
    let frame = renderer.render(&game_on(Face::Back), 1_000_000);
    assert_eq!(frame.camera, target_for_face(Face::Back, 4_500_000));
}

#[test]
fn update_camera_target_sets_the_target_only() {
    let mut renderer = GameRenderer::new(10);
    let before = renderer.camera();
    renderer.update_camera_target(Face::Bottom, 7_000_000);
    assert_eq!(renderer.camera_target(), target_for_face(Face::Bottom, 7_000_000));
    assert_eq!(renderer.camera(), before);
    assert_eq!(renderer.time(), 0);
}

#[test]
fn an_empty_snake_keeps_the_target_and_draws_no_segments() {
    let mut renderer = GameRenderer::new(10);
    renderer.update_camera_target(Face::Left, 5_000_000);
    let game = GameState { snake: vec![], food: at(Face::Front, 2, 2), is_prize: true };
    let frame = renderer.render(&game, 1_000_000);
    assert!(frame.snake.is_empty());
    assert_eq!(renderer.camera_target(), target_for_face(Face::Left, 5_000_000));
    assert_eq!(frame.camera, target_for_face(Face::Left, 5_000_000));
}

#[test]
fn a_frame_places_snake_food_and_light() {
    let mut renderer = GameRenderer::new(10);
    let game = GameState {
        snake: vec![at(Face::Front, 0, 0), at(Face::Top, 3, 4)],
        food: at(Face::Right, 9, 9),
        is_prize: true,
    };
    renderer.render(&game, 500_000);
    let frame = renderer.render(&game, 1_000_000);
    assert_eq!(frame.snake.len(), 2);
    assert_eq!(frame.snake[0].translation, Vec3::new(-900_000, -900_000, 1_050_000));
    assert_eq!(frame.snake[1].translation, Vec3::new(-300_000, 1_050_000, 100_000));
    assert_eq!(frame.snake[0].scale, Vec3::new(120_000, 120_000, 120_000));
    assert_eq!(frame.food.center, Vec3::new(1_050_000, 900_000, -900_000));
    assert_eq!(frame.food.bounce, Vec3::new(0, 50_000, 0));
    assert_eq!(frame.food.bounce_phase, 7_500_000);
    assert_eq!(frame.food.spin_angle, 3_000_000);
    assert_eq!(frame.food.scale, 100_000);
    assert!(frame.food.is_prize);
    assert_eq!(frame.light.position, frame.food.center);
    assert_eq!(frame.light.color, Color { r: 255, g: 215, b: 0, a: 255 });
    assert!(frame.particle_transforms.is_empty());
    assert!(frame.particle_colors.is_empty());
}

#[test]
fn eating_on_top_gives_ten_particles_that_are_gone_a_second_later() {
    let mut renderer = GameRenderer::new(10);
    renderer.render(&game_on(Face::Top), 250_000);
    renderer.spawn_particles(at(Face::Top, 3, 4), false);
    assert_eq!(renderer.particles().len(), 10);
    for p in renderer.particles() {
        assert_eq!(p.start_pos, Vec3::new(-300_000, 1_050_000, 100_000));
        assert_eq!(p.color, Color { r: 200, g: 50, b: 50, a: 255 });
        assert_eq!(p.spawn_time, 250_000);
    }
    let mut n = 0;
    while n < 3 {
        let frame = renderer.render(&game_on(Face::Top), 250_000);
        assert_eq!(renderer.particles().len(), 10);
        assert_eq!(frame.particle_transforms.len(), 10);
        assert_eq!(frame.particle_colors, vec![Color { r: 200, g: 50, b: 50, a: 255 }; 10]);
        n += 1;
    }
    let frame = renderer.render(&game_on(Face::Top), 250_000);
    assert!(renderer.particles().is_empty());
    assert!(frame.particle_transforms.is_empty());
    assert!(frame.particle_colors.is_empty());
}

#[test]
fn a_prize_burst_is_golden() {
    let mut renderer = GameRenderer::new(10);
    renderer.spawn_particles(at(Face::Front, 0, 0), true);
    assert_eq!(renderer.particles().len(), 10);
    for p in renderer.particles() {
        assert_eq!(p.color, Color { r: 255, g: 215, b: 0, a: 255 });
        assert_eq!(p.start_pos, Vec3::new(-900_000, -900_000, 1_050_000));
        assert_eq!(p.spawn_time, 0);
    }
}

#[test]
fn particles_fly_away_from_the_centre_and_shrink() {
    let mut renderer = GameRenderer::new(10);
    renderer.spawn_particles(at(Face::Front, 5, 5), false);
    let start = Vec3::new(100_000, 100_000, 1_050_000);
    let frame = renderer.render(&game_on(Face::Front), 500_000);
    assert_eq!(frame.particle_transforms.len(), 10);
    let mut i = 0;
    while i < 10 {
        let p = renderer.particles()[i];
        let t = frame.particle_transforms[i];
        assert_eq!(t.scale, Vec3::new(25_000, 25_000, 25_000));
        assert_eq!(t.translation, p.start_pos.plus_scaled(p.velocity, 500_000, 1_000_000));
        assert_eq!(p.start_pos, start);
        let d = Vec3::new(t.translation.x - start.x, t.translation.y - start.y, t.translation.z - start.z);
        let n = d.x * d.x + d.y * d.y + d.z * d.z;
        assert!(499_997 * 499_997 <= n && n <= 500_000 * 500_000);
        i += 1;
    }
}

#[test]
fn two_bursts_expire_each_at_its_own_time() {
    let mut renderer = GameRenderer::new(10);
    renderer.spawn_particles(at(Face::Front, 1, 1), false);
    renderer.render(&game_on(Face::Front), 600_000);
    renderer.spawn_particles(at(Face::Front, 2, 2), true);
    assert_eq!(renderer.particles().len(), 20);
    let frame = renderer.render(&game_on(Face::Front), 400_000);
    assert_eq!(renderer.particles().len(), 10);
    assert_eq!(frame.particle_colors, vec![Color { r: 255, g: 215, b: 0, a: 255 }; 10]);
    assert_eq!(frame.particle_transforms[0].scale, Vec3::new(30_000, 30_000, 30_000));
    renderer.render(&game_on(Face::Front), 600_000);
    assert!(renderer.particles().is_empty());
}

#[test]
fn a_configured_renderer() {
    let config = Config { grid_size: 4, camera_speed: 1_000_000, particle_lifetime: 2_000_000, particle_count: 3 };
    let mut renderer = GameRenderer::with_config(config);
    assert_eq!(renderer.config(), config);
    assert_eq!(renderer.board_instances().len(), 64);
    renderer.spawn_particles(at(Face::Front, 0, 0), false);
    assert_eq!(renderer.particles().len(), 3);
    let frame = renderer.render(&game_on(Face::Front), 500_000);
    assert_eq!(frame.camera.position, Vec3::new(2_000_000, 2_000_000, 4_250_000));
    assert_eq!(frame.particle_transforms[0].scale, Vec3::new(37_500, 37_500, 37_500));
    renderer.render(&game_on(Face::Front), 1_499_999);
    assert_eq!(renderer.particles().len(), 3);
    renderer.render(&game_on(Face::Front), 1);
    assert!(renderer.particles().is_empty());
}

#[test]
fn the_up_vector_stays_unit_over_many_frames() {
    let mut renderer = GameRenderer::new(5);
    let faces = [Face::Top, Face::Right, Face::Bottom, Face::Back, Face::Left, Face::Front];
    let mut n = 0usize;
    while n < 300 {
        let frame = renderer.render(&game_on(faces[(n / 7) % 6]), 10_000 + ((n * 7919) % 60_000) as u64);
        let up = frame.camera.up;
        let len = up.x * up.x + up.y * up.y + up.z * up.z;
        assert!((SCALE - 2) * (SCALE - 2) <= len && len <= SCALE * SCALE);
        n += 1;
    }
}
