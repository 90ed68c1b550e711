//! Core of a small real-time 3D engine: the frame driver, the frame clock,
//! the input snapshot, mesh validation and 4x4 matrix storage.

pub mod matrix;
pub mod input;
pub mod mesh;
pub mod clock;
pub mod driver;
