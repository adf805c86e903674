//! Core simulation of a worm that grows on a wraparound 2D grid.
//!
//! The grid is a torus: each axis runs over the full `u8` range and stepping
//! past an edge wraps to the opposite side. A worm is a non-empty chain of
//! cells, head first; it grows by eating food placed directly ahead of the
//! head, follows the head's path around corners, and dies when two of its
//! cells come to occupy the same position.

pub mod cell;
pub mod playground;
pub mod rng;
pub mod worm;
