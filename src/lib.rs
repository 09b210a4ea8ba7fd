//! Deterministic simulation core of a side-scrolling dodge game.
//!
//! All lengths are in thousandths of a pixel and all fractions (steering axis,
//! fade) in thousandths, so the whole simulation runs on integers and is
//! reproducible bit for bit.
use vstd::prelude::*;

pub mod audio;
pub mod digits;
pub mod game;
pub mod geometry;
pub mod laws;
pub mod objects;
mod random;

pub use game::{Cue, GameState};
pub use geometry::{Rect, Size, Vec2};
pub use objects::{Backdrop, Gate, Orb, Spawner, Star};

verus! {

/// Width of the logical canvas (640 px).
pub const SCREEN_WIDTH: i64 = 640_000;

/// Height of the logical canvas (360 px).
pub const SCREEN_HEIGHT: i64 = 360_000;

} // verus!
