//! A fixed-size, rectangular, two-dimensional grid of homogeneous elements,
//! stored contiguously in row-major order and addressed by (row, column)
//! coordinates, with verified bounds-checked access.

pub mod matrix;
