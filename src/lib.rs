//! Bounded intervals over integer domains, axis-aligned rectangles built from
//! them, and a pluggable point-in-rectangle query interface with a brute-force
//! reference implementation.

pub mod domain;
pub mod interval;
pub mod p2;
pub mod rect;
pub mod accel2d;
