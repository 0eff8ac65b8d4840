//! The board: six faces of a cube, each divided into `grid_size` by `grid_size` cells.

use vstd::prelude::*;
use crate::fixed::SCALE;

verus! {

/// Largest number of cells per edge that a board can have. The lattice of such a
/// board has a thousand million voxels, which any `usize` can still count.
pub const MAX_GRID_SIZE: i32 = 1000;

/// One side of the cube, named by the direction of its outward normal.
#[derive(Clone, Copy, Debug, PartialEq, Eq, Hash, Structural)]
pub enum Face {
    /// The side facing `+z`.
    Front,
    /// The side facing `-z`.
    Back,
    /// The side facing `-x`.
    Left,
    /// The side facing `+x`.
    Right,
    /// The side facing `+y`.
    Top,
    /// The side facing `-y`.
    Bottom,
}

/// One cell of one face. Two positions are equal when face, `u` and `v` are equal.
#[derive(Clone, Copy, Debug, PartialEq, Eq, Hash, Structural)]
pub struct Position {
    pub face: Face,
    pub u: i32,
    pub v: i32,
}

/// What the game shows in one frame: the snake from head to tail, the item to eat,
/// and whether that item is a prize.
#[derive(Debug)]
pub struct GameState {
    pub snake: Vec<Position>,
    pub food: Position,
    pub is_prize: bool,
}

/// Edge length of one cell of a board with `grid_size` cells per edge: `2 / grid_size`,
/// rounded down to a whole number of millionths.
pub open spec fn cell_size_spec(grid_size: int) -> int {
    (2 * SCALE) / grid_size
}

/// Face of the first snake cell, if the snake has any cell.
pub open spec fn head_face_spec(snake: Seq<Position>) -> Option<Face> {
    if snake.len() > 0 {
        Some(snake[0].face)
    } else {
        None
    }
}

impl Position {
    /// Both coordinates address a cell of a board with `grid_size` cells per edge.
    pub open spec fn in_grid(self, grid_size: int) -> bool {
        0 <= self.u < grid_size && 0 <= self.v < grid_size
    }

    /// The cell `(u, v)` of `face`, or `None` when a coordinate lies outside
    /// `0..grid_size`.
    pub fn new(face: Face, u: i32, v: i32, grid_size: i32) -> (r: Option<Position>)
        ensures
            r == (if 0 <= u < grid_size && 0 <= v < grid_size {
                Some(Position { face, u, v })
            } else {
                None
            }),
    {
        if 0 <= u && u < grid_size && 0 <= v && v < grid_size {
            Some(Position { face, u, v })
        } else {
            None
        }
    }
}

impl GameState {
    /// Face that the snake's head is on; `None` for an empty snake.
    pub fn head_face(&self) -> (r: Option<Face>)
        ensures
            r == head_face_spec(self.snake@),
    {
        if self.snake.len() > 0 {
            Some(self.snake[0].face)
        } else {
            None
        }
    }
}

/// Edge length of one cell of a board with `grid_size` cells per edge.
pub fn cell_size(grid_size: i32) -> (r: i64)
    requires
        grid_size >= 1,
    ensures
        r == cell_size_spec(grid_size as int),
        0 <= r <= 2 * SCALE,
{
    proof {
        let g = grid_size as int;
        assert(0 <= 2_000_000int / g <= 2_000_000) by (nonlinear_arith)
            requires
                g >= 1,
        ;
    }
    (2 * SCALE) / (grid_size as i64)
}

} // verus!
