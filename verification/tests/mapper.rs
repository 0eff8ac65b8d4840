use snake_cube::fixed::SCALE;
use snake_cube::grid::{cell_size, Face, GameState, Position};
use snake_cube::mapper::{cell_center, pos_to_vec3};
use snake_cube::vector::Vec3;

const FACES: [Face; 6] = [Face::Front, Face::Back, Face::Left, Face::Right, Face::Top, Face::Bottom];

fn at(face: Face, u: i32, v: i32) -> Position {
    Position { face, u, v }
}

#[test]
fn cell_size_is_two_over_grid_size() {
    assert_eq!(cell_size(1), 2_000_000);
    assert_eq!(cell_size(10), 200_000);
    assert_eq!(cell_size(3), 666_666);
    assert_eq!(cell_size(1000), 2_000);
    assert_eq!(cell_size(i32::MAX), 0);
}

#[test]
fn cell_center_is_half_a_cell_past_the_edge() {
    assert_eq!(cell_center(0, 200_000), -900_000);
    assert_eq!(cell_center(9, 200_000), 900_000);
    assert_eq!(cell_center(0, 666_666), -666_667);
    assert_eq!(cell_center(1, 666_666), -1);
    assert_eq!(cell_center(2, 666_666), 666_665);
}

#[test]
fn position_new_accepts_cells_of_the_board() {
    assert_eq!(Position::new(Face::Top, 0, 0, 10), Some(at(Face::Top, 0, 0)));
    assert_eq!(Position::new(Face::Left, 9, 9, 10), Some(at(Face::Left, 9, 9)));
    assert_eq!(Position::new(Face::Back, 0, 0, 1), Some(at(Face::Back, 0, 0)));
}

#[test]
fn position_new_rejects_cells_off_the_board() {
    assert_eq!(Position::new(Face::Top, 10, 0, 10), None);
    assert_eq!(Position::new(Face::Top, 0, 10, 10), None);
    assert_eq!(Position::new(Face::Top, -1, 0, 10), None);
    assert_eq!(Position::new(Face::Top, 0, -1, 10), None);
    assert_eq!(Position::new(Face::Top, 0, 0, 0), None);
}

#[test]
fn positions_are_equal_when_face_and_coordinates_are() {
    assert_eq!(at(Face::Front, 1, 2), at(Face::Front, 1, 2));
    assert_ne!(at(Face::Front, 1, 2), at(Face::Back, 1, 2));
    assert_ne!(at(Face::Front, 1, 2), at(Face::Front, 2, 1));
}

#[test]
fn head_face_is_the_face_of_the_first_cell() {
    let game = GameState {
        snake: vec![at(Face::Left, 1, 1), at(Face::Front, 0, 1)],
        food: at(Face::Top, 0, 0),
        is_prize: false,
    };
    assert_eq!(game.head_face(), Some(Face::Left));
    let empty = GameState { snake: vec![], food: at(Face::Top, 0, 0), is_prize: false };
    assert_eq!(empty.head_face(), None);
}

#[test]
fn front_corner_cell_of_a_ten_by_ten_board() {
    let p = pos_to_vec3(at(Face::Front, 0, 0), 200_000, 50_000);
    assert_eq!(p, Vec3::new(-900_000, -900_000, 1_050_000));
}

#[test]
fn each_face_embeds_its_axes_in_its_own_way() {
    let cell = cell_size(10);
    assert_eq!(pos_to_vec3(at(Face::Front, 3, 4), cell, 50_000), Vec3::new(-300_000, -100_000, 1_050_000));
    assert_eq!(pos_to_vec3(at(Face::Back, 3, 4), cell, 50_000), Vec3::new(300_000, -100_000, -1_050_000));
    assert_eq!(pos_to_vec3(at(Face::Right, 3, 4), cell, 50_000), Vec3::new(1_050_000, -100_000, 300_000));
    assert_eq!(pos_to_vec3(at(Face::Left, 3, 4), cell, 50_000), Vec3::new(-1_050_000, -100_000, -300_000));
    assert_eq!(pos_to_vec3(at(Face::Top, 3, 4), cell, 50_000), Vec3::new(-300_000, 1_050_000, 100_000));
    assert_eq!(pos_to_vec3(at(Face::Bottom, 3, 4), cell, 50_000), Vec3::new(-300_000, -1_050_000, -100_000));
}

fn outward(face: Face, p: Vec3) -> i64 {
    match face {
        Face::Front => p.z,
        Face::Back => -p.z,
        Face::Right => p.x,
        Face::Left => -p.x,
        Face::Top => p.y,
        Face::Bottom => -p.y,
    }
}

fn planar(face: Face, p: Vec3) -> (i64, i64) {
    match face {
        Face::Front | Face::Back => (p.x, p.y),
        Face::Right | Face::Left => (p.y, p.z),
        Face::Top | Face::Bottom => (p.x, p.z),
    }
}

#[test]
fn every_cell_lies_on_its_face_and_inside_its_outline() {
    for grid_size in [1, 2, 3, 7, 10, 64] {
        let cell = cell_size(grid_size);
        for face in FACES {
            for u in 0..grid_size {
                for v in 0..grid_size {
                    let p = pos_to_vec3(at(face, u, v), cell, 50_000);
                    assert_eq!(outward(face, p), SCALE + 50_000);
                    let (a, b) = planar(face, p);
                    assert!(-SCALE < a && a < SCALE);
                    assert!(-SCALE < b && b < SCALE);
                }
            }
        }
    }
}

#[test]
fn a_board_of_a_million_cells_still_keeps_cells_inside() {
    let cell = cell_size(1_000_000);
    assert_eq!(cell, 2);
    assert_eq!(pos_to_vec3(at(Face::Front, 0, 999_999), cell, 0), Vec3::new(-999_999, 999_999, 1_000_000));
}

#[test]
fn a_zero_offset_puts_the_cell_on_the_cube() {
    let p = pos_to_vec3(at(Face::Bottom, 0, 0), 2_000_000, 0);
    assert_eq!(p, Vec3::new(0, -1_000_000, 0));
}

#[test]
fn neighbours_on_a_face_are_one_cell_apart() {
    for grid_size in [2, 3, 10] {
        let cell = cell_size(grid_size);
        for face in FACES {
            for u in 0..grid_size - 1 {
                for v in 0..grid_size - 1 {
                    let p = pos_to_vec3(at(face, u, v), cell, 50_000);
                    let q = pos_to_vec3(at(face, u + 1, v), cell, 50_000);
                    let r = pos_to_vec3(at(face, u, v + 1), cell, 50_000);
                    let d = |a: Vec3, b: Vec3| {
                        (a.x - b.x) * (a.x - b.x) + (a.y - b.y) * (a.y - b.y) + (a.z - b.z) * (a.z - b.z)
                    };
                    assert_eq!(d(p, q), cell * cell);
                    assert_eq!(d(p, r), cell * cell);
                }
            }
        }
    }
}

#[test]
fn cells_off_the_board_are_still_mapped_by_the_same_formula() {
    let p = pos_to_vec3(at(Face::Front, -1, 10), 200_000, 50_000);
    assert_eq!(p, Vec3::new(-1_100_000, 1_100_000, 1_050_000));
}
