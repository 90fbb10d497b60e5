//! Encodes a glyph outline, given as a sequence of path-drawing operations,
//! into two parallel buffers: one command code per operation and one
//! fixed-width six-value coordinate record per operation, every coordinate
//! scaled by the reciprocal of the font's units-per-em.
//!
//! Coordinates are IEEE-754 single-precision values, carried throughout as
//! their `u32` bit patterns.

pub mod pen;
pub mod scale;
