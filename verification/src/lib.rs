//! The chaos game on a triangle, drawn a batch of steps at a time.
//!
//! A point moves, step by step, halfway to one of three anchors that is drawn
//! at random; the points it visits fill in the Sierpinski triangle. The
//! [`iterator`] holds the point and its budget of steps, the [`driver`] hands
//! the steps out in batches, one batch for each callback of a host, and
//! [`render`] says what the host paints. The host draws the random numbers,
//! reads the clock and owns the drawing surface.

pub mod driver;
pub mod geometry;
pub mod iterator;
pub mod render;
pub mod status;

pub use driver::{Action, AnimationDriver, DriverModel, DriverState, BATCH_SIZE, TOTAL_STEPS};
pub use geometry::{anchor, Point, Position, ANCHOR_COUNT, HEIGHT, MAX_X, MAX_Y, SCALE, WIDTH};
pub use iterator::{FractalIterator, IteratorModel};
pub use render::{completion_commands, step_commands, DrawCommand, DrawOp};
pub use status::{color_text, elapsed_seconds, elapsed_text, steps_text};
