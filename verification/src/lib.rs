//! Replay of recorded race positions over a fixed grid of display points.
//!
//! The crate holds the rules of the replay and nothing of the screen or the
//! disk: a caller reads the sources, keeps the wall clock and paints. Each
//! module states what its functions return over plain mathematical models,
//! and Verus proves the statements.
//!
//! * [`geometry`]: display points, their bounding box and the projection
//!   onto a viewport.
//! * [`track`]: recorded samples and the loading of decoded records.
//! * [`datetime`]: the calendar library behind timestamps.
//! * [`session`]: the replay cursor and its clock.
//! * [`render`]: which point is lit in which colour, and the draw list.

pub mod geometry;
pub mod datetime;
pub mod track;
pub mod render;
pub mod session;
