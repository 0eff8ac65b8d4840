//! Geometric and animation core of a snake game played on the surface of a cube.
//!
//! All quantities are exact integers. Lengths, factors and times are counted in
//! millionths (see [`fixed::SCALE`]), so every result is stated as an integer formula
//! and no rounding is left unspecified.

pub mod fixed;
pub mod vector;
pub mod grid;
pub mod mapper;
pub mod camera;
pub mod particles;
pub mod instances;
pub mod renderer;
