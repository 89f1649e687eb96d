//! Segment queries over 2-D sketches: tag resolution, endpoints, orientation,
//! outgoing tangents and the angle that lets a new segment reach a target.
//!
//! Coordinates are exact integer sketch units. Every query returns exact data
//! (points, direction vectors, distances); turning a direction into degrees or
//! a chord into a length is a single trigonometric step left to the caller.
pub mod geometry;
pub mod path;
pub mod tag;
pub mod query;
pub mod laws;
